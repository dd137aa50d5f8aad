//! The errors that the driver reports.
use vstd::prelude::*;

use crate::types::ConnectionState;

verus! {

/// An error from the TCP layer.
#[derive(Clone, Copy, Debug, PartialEq, Eq, Structural)]
pub enum TcpError {
    /// The connection did not reach the awaited state; the last state seen.
    ConnectionFailure(ConnectionState),
    /// A connection state byte outside the known set.
    BadConnectionStatus(u8),
    /// An encryption type byte outside the known set.
    BadEncryptionType(u8),
    /// A TCP state byte outside the known set.
    BadTcpState(u8),
    /// Data longer than a command can carry.
    DataTooLong,
}

/// An error from the transport `E`, from the WiFi layer or from the TCP layer.
#[derive(Clone, Copy, Debug, PartialEq, Eq)]
pub enum Error<E> {
    Transport(E),
    NotIpv4,
    Delay,
    SetNetwork,
    SetPassphrase,
    SetKey,
    SetIpConfig,
    SetDnsConfig,
    SetHostname,
    Disconnect,
    ReqHostByName,
    StartScanNetworks,
    StartClientByIp,
    StopClient,
    CheckDataSent,
    PinMode,
    DigitalWrite,
    AnalogWrite,
    /// A reply value longer than the driver keeps, or of another length than
    /// the command defines.
    BadLength,
    Tcp(TcpError),
}

impl<E> From<TcpError> for Error<E> {
    fn from(value: TcpError) -> (r: Error<E>) {
        Error::Tcp(value)
    }
}

impl<E> vstd::std_specs::convert::FromSpecImpl<TcpError> for Error<E> {
    open spec fn obeys_from_spec() -> bool {
        true
    }

    open spec fn from_spec(value: TcpError) -> Error<E> {
        Error::Tcp(value)
    }
}

impl<E> Error<E> {
    /// The same error for a transport of another error type; `None` for a
    /// transport error.
    pub fn retag<F>(self) -> (r: Option<Error<F>>)
        ensures
            self is Transport <==> r is None,
            self matches Error::Tcp(t) ==> r == Some(Error::<F>::Tcp(t)),
            self == Error::<E>::NotIpv4 ==> r == Some(Error::<F>::NotIpv4),
            self == Error::<E>::Delay ==> r == Some(Error::<F>::Delay),
            self == Error::<E>::SetNetwork ==> r == Some(Error::<F>::SetNetwork),
            self == Error::<E>::SetPassphrase ==> r == Some(Error::<F>::SetPassphrase),
            self == Error::<E>::SetKey ==> r == Some(Error::<F>::SetKey),
            self == Error::<E>::SetIpConfig ==> r == Some(Error::<F>::SetIpConfig),
            self == Error::<E>::SetDnsConfig ==> r == Some(Error::<F>::SetDnsConfig),
            self == Error::<E>::SetHostname ==> r == Some(Error::<F>::SetHostname),
            self == Error::<E>::Disconnect ==> r == Some(Error::<F>::Disconnect),
            self == Error::<E>::ReqHostByName ==> r == Some(Error::<F>::ReqHostByName),
            self == Error::<E>::StartScanNetworks ==> r == Some(Error::<F>::StartScanNetworks),
            self == Error::<E>::StartClientByIp ==> r == Some(Error::<F>::StartClientByIp),
            self == Error::<E>::StopClient ==> r == Some(Error::<F>::StopClient),
            self == Error::<E>::CheckDataSent ==> r == Some(Error::<F>::CheckDataSent),
            self == Error::<E>::PinMode ==> r == Some(Error::<F>::PinMode),
            self == Error::<E>::DigitalWrite ==> r == Some(Error::<F>::DigitalWrite),
            self == Error::<E>::AnalogWrite ==> r == Some(Error::<F>::AnalogWrite),
            self == Error::<E>::BadLength ==> r == Some(Error::<F>::BadLength),
    {
        match self {
            Error::Transport(_) => None,
            Error::Tcp(t) => Some(Error::Tcp(t)),
            Error::NotIpv4 => Some(Error::NotIpv4),
            Error::Delay => Some(Error::Delay),
            Error::SetNetwork => Some(Error::SetNetwork),
            Error::SetPassphrase => Some(Error::SetPassphrase),
            Error::SetKey => Some(Error::SetKey),
            Error::SetIpConfig => Some(Error::SetIpConfig),
            Error::SetDnsConfig => Some(Error::SetDnsConfig),
            Error::SetHostname => Some(Error::SetHostname),
            Error::Disconnect => Some(Error::Disconnect),
            Error::ReqHostByName => Some(Error::ReqHostByName),
            Error::StartScanNetworks => Some(Error::StartScanNetworks),
            Error::StartClientByIp => Some(Error::StartClientByIp),
            Error::StopClient => Some(Error::StopClient),
            Error::CheckDataSent => Some(Error::CheckDataSent),
            Error::PinMode => Some(Error::PinMode),
            Error::DigitalWrite => Some(Error::DigitalWrite),
            Error::AnalogWrite => Some(Error::AnalogWrite),
            Error::BadLength => Some(Error::BadLength),
        }
    }
}

} // verus!
