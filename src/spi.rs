//! The SPI side of the driver: the peripherals it owns, the errors that the bus
//! and the frames can raise, and how a request is cut into bus bursts.
use vstd::prelude::*;

use crate::error::Error;
use crate::frame::{concat, split_bursts, views, ReplyError};

verus! {

/// The size of the buffer through which a request is written to the bus.
pub const WRITE_CAPACITY: usize = 8;

/// The four peripherals of the bus: the SPI bus itself, the chip-select
/// output, the busy input and the reset output.
pub struct Spi<SPI, CS, BUSY, RESET> {
    pub spi: SPI,
    pub cs: CS,
    pub busy: BUSY,
    pub reset: RESET,
}

impl<SPI, CS, BUSY, RESET> Spi<SPI, CS, BUSY, RESET> {
    pub fn new(spi: SPI, cs: CS, busy: BUSY, reset: RESET) -> (r: Self)
        ensures
            r.spi == spi,
            r.cs == cs,
            r.busy == busy,
            r.reset == reset,
    {
        Spi { spi, cs, busy, reset }
    }
}

/// An error of the SPI transport.
#[derive(Clone, Copy, Debug, PartialEq, Eq)]
pub enum SpiError<SPI, CS, BUSY, RESET> {
    /// An error from the SPI bus.
    Spi(SPI),
    /// An error from the chip-select output.
    Cs(CS),
    /// An error from the busy input.
    Busy(BUSY),
    /// An error from the reset output.
    Reset(RESET),
    /// An error with the delay given for the reset.
    Delay,
    /// The coprocessor indicated an error.
    ErrorResponse,
    /// The transport received an unexpected byte, at a position of the frame.
    UnexpectedReplyByte(u8, u8),
    /// The parameters of a reply could not be read.
    Malformed(crate::encoding::CodecError),
}

impl<SPI, CS, BUSY, RESET> SpiError<SPI, CS, BUSY, RESET> {
    /// The transport error for a finished reply that went wrong; `None` for a
    /// reply that is not finished yet.
    pub fn from_reply(e: ReplyError) -> (r: Option<Self>)
        ensures
            match e {
                ReplyError::Incomplete => r is None,
                ReplyError::ErrorResponse => r == Some(SpiError::<SPI, CS, BUSY, RESET>::ErrorResponse),
                ReplyError::UnexpectedReplyByte(b, p) => r == Some(
                    SpiError::<SPI, CS, BUSY, RESET>::UnexpectedReplyByte(b, p),
                ),
                ReplyError::Malformed(c) => r == Some(SpiError::<SPI, CS, BUSY, RESET>::Malformed(c)),
            },
    {
        match e {
            ReplyError::Incomplete => None,
            ReplyError::ErrorResponse => Some(SpiError::ErrorResponse),
            ReplyError::UnexpectedReplyByte(b, p) => Some(SpiError::UnexpectedReplyByte(b, p)),
            ReplyError::Malformed(c) => Some(SpiError::Malformed(c)),
        }
    }
}

/// A finished command's error, with the frame error as a transport error of
/// the bus; `None` while the reply is not finished.
pub fn lift_error<SPI, CS, BUSY, RESET>(e: Error<ReplyError>) -> (r: Option<Error<SpiError<SPI, CS, BUSY, RESET>>>)
    ensures
            e == Error::<ReplyError>::Transport(ReplyError::Incomplete) ==> r is None,
            e == Error::<ReplyError>::Transport(ReplyError::ErrorResponse) ==> r == Some(
                Error::<SpiError<SPI, CS, BUSY, RESET>>::Transport(SpiError::ErrorResponse),
            ),
            e matches Error::Transport(ReplyError::UnexpectedReplyByte(b, p)) ==> r == Some(
                Error::<SpiError<SPI, CS, BUSY, RESET>>::Transport(SpiError::UnexpectedReplyByte(b, p)),
            ),
            e matches Error::Transport(ReplyError::Malformed(c)) ==> r == Some(
                Error::<SpiError<SPI, CS, BUSY, RESET>>::Transport(SpiError::Malformed(c)),
            ),
            e matches Error::Tcp(t) ==> r == Some(Error::<SpiError<SPI, CS, BUSY, RESET>>::Tcp(t)),
            e == Error::<ReplyError>::NotIpv4 ==> r == Some(Error::<SpiError<SPI, CS, BUSY, RESET>>::NotIpv4),
            e == Error::<ReplyError>::Delay ==> r == Some(Error::<SpiError<SPI, CS, BUSY, RESET>>::Delay),
            e == Error::<ReplyError>::SetNetwork ==> r == Some(Error::<SpiError<SPI, CS, BUSY, RESET>>::SetNetwork),
            e == Error::<ReplyError>::SetPassphrase ==> r == Some(Error::<SpiError<SPI, CS, BUSY, RESET>>::SetPassphrase),
            e == Error::<ReplyError>::SetKey ==> r == Some(Error::<SpiError<SPI, CS, BUSY, RESET>>::SetKey),
            e == Error::<ReplyError>::SetIpConfig ==> r == Some(Error::<SpiError<SPI, CS, BUSY, RESET>>::SetIpConfig),
            e == Error::<ReplyError>::SetDnsConfig ==> r == Some(Error::<SpiError<SPI, CS, BUSY, RESET>>::SetDnsConfig),
            e == Error::<ReplyError>::SetHostname ==> r == Some(Error::<SpiError<SPI, CS, BUSY, RESET>>::SetHostname),
            e == Error::<ReplyError>::Disconnect ==> r == Some(Error::<SpiError<SPI, CS, BUSY, RESET>>::Disconnect),
            e == Error::<ReplyError>::ReqHostByName ==> r == Some(Error::<SpiError<SPI, CS, BUSY, RESET>>::ReqHostByName),
            e == Error::<ReplyError>::StartScanNetworks ==> r == Some(Error::<SpiError<SPI, CS, BUSY, RESET>>::StartScanNetworks),
            e == Error::<ReplyError>::StartClientByIp ==> r == Some(Error::<SpiError<SPI, CS, BUSY, RESET>>::StartClientByIp),
            e == Error::<ReplyError>::StopClient ==> r == Some(Error::<SpiError<SPI, CS, BUSY, RESET>>::StopClient),
            e == Error::<ReplyError>::CheckDataSent ==> r == Some(Error::<SpiError<SPI, CS, BUSY, RESET>>::CheckDataSent),
            e == Error::<ReplyError>::PinMode ==> r == Some(Error::<SpiError<SPI, CS, BUSY, RESET>>::PinMode),
            e == Error::<ReplyError>::DigitalWrite ==> r == Some(Error::<SpiError<SPI, CS, BUSY, RESET>>::DigitalWrite),
            e == Error::<ReplyError>::AnalogWrite ==> r == Some(Error::<SpiError<SPI, CS, BUSY, RESET>>::AnalogWrite),
            e == Error::<ReplyError>::BadLength ==> r == Some(Error::<SpiError<SPI, CS, BUSY, RESET>>::BadLength),
{
    match e {
        Error::Transport(x) => match SpiError::<SPI, CS, BUSY, RESET>::from_reply(x) {
            Some(s) => Some(Error::Transport(s)),
            None => None,
        },
        Error::Tcp(t) => Some(Error::Tcp(t)),
        Error::NotIpv4 => Some(Error::NotIpv4),
        Error::Delay => Some(Error::Delay),
        Error::SetNetwork => Some(Error::SetNetwork),
        Error::SetPassphrase => Some(Error::SetPassphrase),
        Error::SetKey => Some(Error::SetKey),
        Error::SetIpConfig => Some(Error::SetIpConfig),
        Error::SetDnsConfig => Some(Error::SetDnsConfig),
        Error::SetHostname => Some(Error::SetHostname),
        Error::Disconnect => Some(Error::Disconnect),
        Error::ReqHostByName => Some(Error::ReqHostByName),
        Error::StartScanNetworks => Some(Error::StartScanNetworks),
        Error::StartClientByIp => Some(Error::StartClientByIp),
        Error::StopClient => Some(Error::StopClient),
        Error::CheckDataSent => Some(Error::CheckDataSent),
        Error::PinMode => Some(Error::PinMode),
        Error::DigitalWrite => Some(Error::DigitalWrite),
        Error::AnalogWrite => Some(Error::AnalogWrite),
        Error::BadLength => Some(Error::BadLength),
    }
}

/// The bursts that carry a request over the bus: as many full write buffers
/// as it takes, then the rest.
pub fn request_bursts(request: &Vec<u8>) -> (r: Vec<Vec<u8>>)
    ensures
        concat(views(r@)) == request@,
        forall|i: int| 0 <= i < r@.len() ==> 0 < (#[trigger] r@[i])@.len() <= WRITE_CAPACITY,
        forall|i: int| 0 <= i < r@.len() - 1 ==> (#[trigger] r@[i])@.len() == WRITE_CAPACITY,
{
    split_bursts(request, WRITE_CAPACITY)
}

} // verus!
