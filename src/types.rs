//! Small value types exchanged with the coprocessor.
use vstd::prelude::*;

verus! {

/// The WiFi connection state that the coprocessor reports.
#[derive(Clone, Copy, Debug, PartialEq, Eq, Structural)]
pub enum ConnectionState {
    NoShield,
    Idle,
    NoSsidAvail,
    ScanCompleted,
    Connected,
    ConnectFailed,
    ConnectionLost,
    Disconnected,
    ApListening,
    ApConnected,
    ApFailed,
}

impl ConnectionState {
    /// The byte that stands for the value on the wire.
    pub open spec fn byte(self) -> u8 {
        match self {
            ConnectionState::NoShield => 255,
            ConnectionState::Idle => 0,
            ConnectionState::NoSsidAvail => 1,
            ConnectionState::ScanCompleted => 2,
            ConnectionState::Connected => 3,
            ConnectionState::ConnectFailed => 4,
            ConnectionState::ConnectionLost => 5,
            ConnectionState::Disconnected => 6,
            ConnectionState::ApListening => 7,
            ConnectionState::ApConnected => 8,
            ConnectionState::ApFailed => 9,
        }
    }

    pub fn to_u8(self) -> (r: u8)
        ensures
            r == self.byte(),
    {
        match self {
            ConnectionState::NoShield => 255,
            ConnectionState::Idle => 0,
            ConnectionState::NoSsidAvail => 1,
            ConnectionState::ScanCompleted => 2,
            ConnectionState::Connected => 3,
            ConnectionState::ConnectFailed => 4,
            ConnectionState::ConnectionLost => 5,
            ConnectionState::Disconnected => 6,
            ConnectionState::ApListening => 7,
            ConnectionState::ApConnected => 8,
            ConnectionState::ApFailed => 9,
        }
    }

    /// The value that `b` stands for, if any.
    pub fn from_u8(b: u8) -> (r: Option<ConnectionState>)
        ensures
            r matches Some(s) ==> s.byte() == b,
            r is None ==> forall|s: ConnectionState| s.byte() != b,
    {
        match b {
            255 => Some(ConnectionState::NoShield),
            0 => Some(ConnectionState::Idle),
            1 => Some(ConnectionState::NoSsidAvail),
            2 => Some(ConnectionState::ScanCompleted),
            3 => Some(ConnectionState::Connected),
            4 => Some(ConnectionState::ConnectFailed),
            5 => Some(ConnectionState::ConnectionLost),
            6 => Some(ConnectionState::Disconnected),
            7 => Some(ConnectionState::ApListening),
            8 => Some(ConnectionState::ApConnected),
            9 => Some(ConnectionState::ApFailed),
            _ => None,
        }
    }
}

/// The state of a TCP socket on the coprocessor.
#[derive(Clone, Copy, Debug, PartialEq, Eq, Structural)]
pub enum TcpState {
    Closed,
    Listen,
    SynSent,
    SynRcvd,
    Established,
    FinWait1,
    FinWait2,
    CloseWait,
    Closing,
    LastAck,
    TimeWait,
}

impl TcpState {
    /// The byte that stands for the value on the wire.
    pub open spec fn byte(self) -> u8 {
        match self {
            TcpState::Closed => 0,
            TcpState::Listen => 1,
            TcpState::SynSent => 2,
            TcpState::SynRcvd => 3,
            TcpState::Established => 4,
            TcpState::FinWait1 => 5,
            TcpState::FinWait2 => 6,
            TcpState::CloseWait => 7,
            TcpState::Closing => 8,
            TcpState::LastAck => 9,
            TcpState::TimeWait => 10,
        }
    }

    pub fn to_u8(self) -> (r: u8)
        ensures
            r == self.byte(),
    {
        match self {
            TcpState::Closed => 0,
            TcpState::Listen => 1,
            TcpState::SynSent => 2,
            TcpState::SynRcvd => 3,
            TcpState::Established => 4,
            TcpState::FinWait1 => 5,
            TcpState::FinWait2 => 6,
            TcpState::CloseWait => 7,
            TcpState::Closing => 8,
            TcpState::LastAck => 9,
            TcpState::TimeWait => 10,
        }
    }

    /// The value that `b` stands for, if any.
    pub fn from_u8(b: u8) -> (r: Option<TcpState>)
        ensures
            r matches Some(s) ==> s.byte() == b,
            r is None ==> forall|s: TcpState| s.byte() != b,
    {
        match b {
            0 => Some(TcpState::Closed),
            1 => Some(TcpState::Listen),
            2 => Some(TcpState::SynSent),
            3 => Some(TcpState::SynRcvd),
            4 => Some(TcpState::Established),
            5 => Some(TcpState::FinWait1),
            6 => Some(TcpState::FinWait2),
            7 => Some(TcpState::CloseWait),
            8 => Some(TcpState::Closing),
            9 => Some(TcpState::LastAck),
            10 => Some(TcpState::TimeWait),
            _ => None,
        }
    }
}

/// The encryption that a WiFi network uses.
#[derive(Clone, Copy, Debug, PartialEq, Eq, Structural)]
pub enum EncryptionType {
    Tkip,
    Ccmp,
    Wep,
    Open,
    Auto,
}

impl EncryptionType {
    /// The byte that stands for the value on the wire.
    pub open spec fn byte(self) -> u8 {
        match self {
            EncryptionType::Tkip => 2,
            EncryptionType::Ccmp => 4,
            EncryptionType::Wep => 5,
            EncryptionType::Open => 7,
            EncryptionType::Auto => 8,
        }
    }

    pub fn to_u8(self) -> (r: u8)
        ensures
            r == self.byte(),
    {
        match self {
            EncryptionType::Tkip => 2,
            EncryptionType::Ccmp => 4,
            EncryptionType::Wep => 5,
            EncryptionType::Open => 7,
            EncryptionType::Auto => 8,
        }
    }

    /// The value that `b` stands for, if any.
    pub fn from_u8(b: u8) -> (r: Option<EncryptionType>)
        ensures
            r matches Some(s) ==> s.byte() == b,
            r is None ==> forall|s: EncryptionType| s.byte() != b,
    {
        match b {
            2 => Some(EncryptionType::Tkip),
            4 => Some(EncryptionType::Ccmp),
            5 => Some(EncryptionType::Wep),
            7 => Some(EncryptionType::Open),
            8 => Some(EncryptionType::Auto),
            _ => None,
        }
    }
}

/// The mode of a GPIO pin of the coprocessor.
#[derive(Clone, Copy, Debug, PartialEq, Eq, Structural)]
pub enum PinMode {
    Input,
    Output,
    InputPullup,
}

impl PinMode {
    /// The byte that stands for the value on the wire.
    pub open spec fn byte(self) -> u8 {
        match self {
            PinMode::Input => 0,
            PinMode::Output => 1,
            PinMode::InputPullup => 2,
        }
    }

    pub fn to_u8(self) -> (r: u8)
        ensures
            r == self.byte(),
    {
        match self {
            PinMode::Input => 0,
            PinMode::Output => 1,
            PinMode::InputPullup => 2,
        }
    }

    /// The value that `b` stands for, if any.
    pub fn from_u8(b: u8) -> (r: Option<PinMode>)
        ensures
            r matches Some(s) ==> s.byte() == b,
            r is None ==> forall|s: PinMode| s.byte() != b,
    {
        match b {
            0 => Some(PinMode::Input),
            1 => Some(PinMode::Output),
            2 => Some(PinMode::InputPullup),
            _ => None,
        }
    }
}

/// The protocol of a client socket.
#[derive(Clone, Copy, Debug, PartialEq, Eq, Structural)]
pub enum ProtocolMode {
    Tcp,
    Udp,
    Tls,
    UdpMulticast,
    TlsBearSsl,
}

impl ProtocolMode {
    /// The byte that stands for the value on the wire.
    pub open spec fn byte(self) -> u8 {
        match self {
            ProtocolMode::Tcp => 0,
            ProtocolMode::Udp => 1,
            ProtocolMode::Tls => 2,
            ProtocolMode::UdpMulticast => 3,
            ProtocolMode::TlsBearSsl => 4,
        }
    }

    pub fn to_u8(self) -> (r: u8)
        ensures
            r == self.byte(),
    {
        match self {
            ProtocolMode::Tcp => 0,
            ProtocolMode::Udp => 1,
            ProtocolMode::Tls => 2,
            ProtocolMode::UdpMulticast => 3,
            ProtocolMode::TlsBearSsl => 4,
        }
    }

    /// The value that `b` stands for, if any.
    pub fn from_u8(b: u8) -> (r: Option<ProtocolMode>)
        ensures
            r matches Some(s) ==> s.byte() == b,
            r is None ==> forall|s: ProtocolMode| s.byte() != b,
    {
        match b {
            0 => Some(ProtocolMode::Tcp),
            1 => Some(ProtocolMode::Udp),
            2 => Some(ProtocolMode::Tls),
            3 => Some(ProtocolMode::UdpMulticast),
            4 => Some(ProtocolMode::TlsBearSsl),
            _ => None,
        }
    }
}

/// A socket handle that the coprocessor hands out.
#[derive(Clone, Copy, Debug, PartialEq, Eq, Structural)]
pub struct Socket(pub u8);

/// An IPv4 address, held as the 32-bit number whose most significant byte
/// comes first on the wire.
#[derive(Clone, Copy, Debug, PartialEq, Eq, Structural)]
pub struct Ipv4Addr(pub u32);

/// An address of a remote host: IPv4 or IPv6, with a port.
#[derive(Clone, Copy, Debug, PartialEq, Eq, Structural)]
pub enum SocketAddr {
    V4(Ipv4Addr, u16),
    V6(u16),
}

impl SocketAddr {
    pub fn is_ipv4(&self) -> (r: bool)
        ensures
            r == self is V4,
    {
        match self {
            SocketAddr::V4(_, _) => true,
            SocketAddr::V6(_) => false,
        }
    }
}

/// The addresses of the coprocessor on its network.
#[derive(Clone, Copy, Debug, PartialEq, Eq, Structural)]
pub struct NetworkData {
    pub ip: Ipv4Addr,
    pub mask: Ipv4Addr,
    pub gateway: Ipv4Addr,
}

/// The remote end of a socket.
#[derive(Clone, Copy, Debug, PartialEq, Eq, Structural)]
pub struct RemoteData {
    pub ip: Ipv4Addr,
    pub port: u32,
}

} // verus!
