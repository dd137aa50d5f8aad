//! The commands that the coprocessor firmware accepts.
use vstd::prelude::*;

verus! {

/// A command that the coprocessor firmware can take over the bus.
#[derive(Clone, Copy, Debug, PartialEq, Eq, Structural)]
pub enum Command {
    SetNetCmd,
    SetPassphraseCmd,
    SetKeyCmd,
    SetIpConfigCmd,
    SetDnsConfigCmd,
    SetHostnameCmd,
    SetPowerModeCmd,
    SetApNetCmd,
    SetApPassphraseCmd,
    SetDebugCmd,
    GetTemperatureCmd,
    GetConnStatusCmd,
    GetIpaddrCmd,
    GetMacaddrCmd,
    GetCurrSsidCmd,
    GetCurrBssidCmd,
    GetCurrRssiCmd,
    GetCurrEnctCmd,
    ScanNetworks,
    StartServerTcpCmd,
    GetStateTcpCmd,
    DataSentTcpCmd,
    AvailDataTcpCmd,
    GetDataTcpCmd,
    StartClientTcpCmd,
    StopClientTcpCmd,
    GetClientStateTcpCmd,
    DisconnectCmd,
    GetIdxRssiCmd,
    GetIdxEnctCmd,
    ReqHostByNameCmd,
    GetHostByNameCmd,
    StartScanNetworks,
    GetFwVersionCmd,
    SendDataUdpCmd,
    GetRemoteDataCmd,
    GetTimeCmd,
    GetIdxBssid,
    GetIdxChannelCmd,
    PingCmd,
    GetSocketCmd,
    SendDataTcpCmd,
    GetDatabufTcpCmd,
    InsertDatabufCmd,
    SetPinMode,
    SetDigitalWrite,
    SetAnalogWrite,
}

impl Command {
    /// The command's opcode.
    pub open spec fn opcode_spec(self) -> u8 {
        match self {
            Command::SetNetCmd => 0x10,
            Command::SetPassphraseCmd => 0x11,
            Command::SetKeyCmd => 0x12,
            Command::SetIpConfigCmd => 0x14,
            Command::SetDnsConfigCmd => 0x15,
            Command::SetHostnameCmd => 0x16,
            Command::SetPowerModeCmd => 0x17,
            Command::SetApNetCmd => 0x18,
            Command::SetApPassphraseCmd => 0x19,
            Command::SetDebugCmd => 0x1A,
            Command::GetTemperatureCmd => 0x1B,
            Command::GetConnStatusCmd => 0x20,
            Command::GetIpaddrCmd => 0x21,
            Command::GetMacaddrCmd => 0x22,
            Command::GetCurrSsidCmd => 0x23,
            Command::GetCurrBssidCmd => 0x24,
            Command::GetCurrRssiCmd => 0x25,
            Command::GetCurrEnctCmd => 0x26,
            Command::ScanNetworks => 0x27,
            Command::StartServerTcpCmd => 0x28,
            Command::GetStateTcpCmd => 0x29,
            Command::DataSentTcpCmd => 0x2A,
            Command::AvailDataTcpCmd => 0x2B,
            Command::GetDataTcpCmd => 0x2C,
            Command::StartClientTcpCmd => 0x2D,
            Command::StopClientTcpCmd => 0x2E,
            Command::GetClientStateTcpCmd => 0x2F,
            Command::DisconnectCmd => 0x30,
            Command::GetIdxRssiCmd => 0x32,
            Command::GetIdxEnctCmd => 0x33,
            Command::ReqHostByNameCmd => 0x34,
            Command::GetHostByNameCmd => 0x35,
            Command::StartScanNetworks => 0x36,
            Command::GetFwVersionCmd => 0x37,
            Command::SendDataUdpCmd => 0x39,
            Command::GetRemoteDataCmd => 0x3A,
            Command::GetTimeCmd => 0x3B,
            Command::GetIdxBssid => 0x3C,
            Command::GetIdxChannelCmd => 0x3D,
            Command::PingCmd => 0x3E,
            Command::GetSocketCmd => 0x3F,
            Command::SendDataTcpCmd => 0x44,
            Command::GetDatabufTcpCmd => 0x45,
            Command::InsertDatabufCmd => 0x46,
            Command::SetPinMode => 0x50,
            Command::SetDigitalWrite => 0x51,
            Command::SetAnalogWrite => 0x52,
        }
    }

    pub fn opcode(self) -> (r: u8)
        ensures
            r == self.opcode_spec(),
    {
        match self {
            Command::SetNetCmd => 0x10,
            Command::SetPassphraseCmd => 0x11,
            Command::SetKeyCmd => 0x12,
            Command::SetIpConfigCmd => 0x14,
            Command::SetDnsConfigCmd => 0x15,
            Command::SetHostnameCmd => 0x16,
            Command::SetPowerModeCmd => 0x17,
            Command::SetApNetCmd => 0x18,
            Command::SetApPassphraseCmd => 0x19,
            Command::SetDebugCmd => 0x1A,
            Command::GetTemperatureCmd => 0x1B,
            Command::GetConnStatusCmd => 0x20,
            Command::GetIpaddrCmd => 0x21,
            Command::GetMacaddrCmd => 0x22,
            Command::GetCurrSsidCmd => 0x23,
            Command::GetCurrBssidCmd => 0x24,
            Command::GetCurrRssiCmd => 0x25,
            Command::GetCurrEnctCmd => 0x26,
            Command::ScanNetworks => 0x27,
            Command::StartServerTcpCmd => 0x28,
            Command::GetStateTcpCmd => 0x29,
            Command::DataSentTcpCmd => 0x2A,
            Command::AvailDataTcpCmd => 0x2B,
            Command::GetDataTcpCmd => 0x2C,
            Command::StartClientTcpCmd => 0x2D,
            Command::StopClientTcpCmd => 0x2E,
            Command::GetClientStateTcpCmd => 0x2F,
            Command::DisconnectCmd => 0x30,
            Command::GetIdxRssiCmd => 0x32,
            Command::GetIdxEnctCmd => 0x33,
            Command::ReqHostByNameCmd => 0x34,
            Command::GetHostByNameCmd => 0x35,
            Command::StartScanNetworks => 0x36,
            Command::GetFwVersionCmd => 0x37,
            Command::SendDataUdpCmd => 0x39,
            Command::GetRemoteDataCmd => 0x3A,
            Command::GetTimeCmd => 0x3B,
            Command::GetIdxBssid => 0x3C,
            Command::GetIdxChannelCmd => 0x3D,
            Command::PingCmd => 0x3E,
            Command::GetSocketCmd => 0x3F,
            Command::SendDataTcpCmd => 0x44,
            Command::GetDatabufTcpCmd => 0x45,
            Command::InsertDatabufCmd => 0x46,
            Command::SetPinMode => 0x50,
            Command::SetDigitalWrite => 0x51,
            Command::SetAnalogWrite => 0x52,
        }
    }

    /// The command whose opcode is `op`, if there is one.
    pub fn from_opcode(op: u8) -> (r: Option<Command>)
        ensures
            r matches Some(c) ==> c.opcode_spec() == op,
            r is None ==> forall|c: Command| c.opcode_spec() != op,
    {
        match op {
            0x10 => Some(Command::SetNetCmd),
            0x11 => Some(Command::SetPassphraseCmd),
            0x12 => Some(Command::SetKeyCmd),
            0x14 => Some(Command::SetIpConfigCmd),
            0x15 => Some(Command::SetDnsConfigCmd),
            0x16 => Some(Command::SetHostnameCmd),
            0x17 => Some(Command::SetPowerModeCmd),
            0x18 => Some(Command::SetApNetCmd),
            0x19 => Some(Command::SetApPassphraseCmd),
            0x1A => Some(Command::SetDebugCmd),
            0x1B => Some(Command::GetTemperatureCmd),
            0x20 => Some(Command::GetConnStatusCmd),
            0x21 => Some(Command::GetIpaddrCmd),
            0x22 => Some(Command::GetMacaddrCmd),
            0x23 => Some(Command::GetCurrSsidCmd),
            0x24 => Some(Command::GetCurrBssidCmd),
            0x25 => Some(Command::GetCurrRssiCmd),
            0x26 => Some(Command::GetCurrEnctCmd),
            0x27 => Some(Command::ScanNetworks),
            0x28 => Some(Command::StartServerTcpCmd),
            0x29 => Some(Command::GetStateTcpCmd),
            0x2A => Some(Command::DataSentTcpCmd),
            0x2B => Some(Command::AvailDataTcpCmd),
            0x2C => Some(Command::GetDataTcpCmd),
            0x2D => Some(Command::StartClientTcpCmd),
            0x2E => Some(Command::StopClientTcpCmd),
            0x2F => Some(Command::GetClientStateTcpCmd),
            0x30 => Some(Command::DisconnectCmd),
            0x32 => Some(Command::GetIdxRssiCmd),
            0x33 => Some(Command::GetIdxEnctCmd),
            0x34 => Some(Command::ReqHostByNameCmd),
            0x35 => Some(Command::GetHostByNameCmd),
            0x36 => Some(Command::StartScanNetworks),
            0x37 => Some(Command::GetFwVersionCmd),
            0x39 => Some(Command::SendDataUdpCmd),
            0x3A => Some(Command::GetRemoteDataCmd),
            0x3B => Some(Command::GetTimeCmd),
            0x3C => Some(Command::GetIdxBssid),
            0x3D => Some(Command::GetIdxChannelCmd),
            0x3E => Some(Command::PingCmd),
            0x3F => Some(Command::GetSocketCmd),
            0x44 => Some(Command::SendDataTcpCmd),
            0x45 => Some(Command::GetDatabufTcpCmd),
            0x46 => Some(Command::InsertDatabufCmd),
            0x50 => Some(Command::SetPinMode),
            0x51 => Some(Command::SetDigitalWrite),
            0x52 => Some(Command::SetAnalogWrite),
            _ => None,
        }
    }
}

} // verus!
