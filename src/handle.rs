//! The commands of the coprocessor, one by one: the request that each sends,
//! and what each makes of its reply. Nothing here touches the bus; a reply is
//! handed in as the bytes received so far.
use vstd::prelude::*;

use crate::command::Command;
use crate::encoding::{
    be16, be32, be32_value, le16, le16_value, le32_value, lemma_be16, lemma_be32, lemma_le16,
    push_all,
};
use crate::error::{Error, TcpError};
use crate::frame::{decode_reply, reply_error, request_frame, request_spec, ReplyError};
use crate::param::{slot_payload, slot_wire, BigEndian, LittleEndian, NullTerminated, Scalar};
use crate::params::{ParseParams, SerializeParams};
use crate::types::{
    ConnectionState, EncryptionType, Ipv4Addr, NetworkData, PinMode, ProtocolMode, RemoteData,
    Socket, SocketAddr, TcpState,
};

verus! {

/// The errors of the commands, with the frame errors as their transport errors.
pub type DriverError = Error<ReplyError>;

/// The payload of the first slot of a reply.
pub open spec fn first_payload(bytes: Seq<u8>, long: bool) -> Seq<u8> {
    slot_payload(bytes, 3, long)
}

/// The block of a single one-byte parameter.
pub open spec fn byte_block(b: u8) -> Seq<u8> {
    seq![1u8, 1u8, b]
}

/// A copy of `src`.
pub fn copy_bytes(src: &Vec<u8>) -> (r: Vec<u8>)
    ensures
        r@ == src@,
{
    let mut r: Vec<u8> = Vec::new();
    push_all(&mut r, src);
    assert(r@ =~= src@);
    r
}

/// Builds the request for `command`, refusing parameters that do not fit their
/// length prefixes.
pub fn request<SP: SerializeParams>(command: Command, params: &SP, long: bool) -> (r: Result<
    Vec<u8>,
    DriverError,
>)
    ensures
        params.fits_spec(long) ==> r is Ok && r->Ok_0@ == request_spec(
            command.opcode_spec(),
            params.block_wire(long),
        ),
        !params.fits_spec(long) ==> r == Err::<Vec<u8>, DriverError>(
            Error::Tcp(TcpError::DataTooLong),
        ),
{
    if params.fits(long) {
        Ok(request_frame(command, params, long))
    } else {
        Err(Error::Tcp(TcpError::DataTooLong))
    }
}

/// The request for a command without parameters.
pub fn empty_request(command: Command) -> (r: Vec<u8>)
    ensures
        r@ == request_spec(command.opcode_spec(), seq![0u8]),
{
    request_frame(command, &(), false)
}

/// The request for a command with one one-byte parameter.
pub fn byte_request(command: Command, b: u8) -> (r: Vec<u8>)
    ensures
        r@ == request_spec(command.opcode_spec(), byte_block(b)),
{
    let params = (b,);
    assert(params.block_wire(false) =~= byte_block(b));
    request_frame(command, &params, false)
}

/// The request for a command with two one-byte parameters.
pub fn two_byte_request(command: Command, a: u8, b: u8) -> (r: Vec<u8>)
    ensures
        r@ == request_spec(command.opcode_spec(), seq![2u8, 1u8, a, 1u8, b]),
{
    let params = (a, b);
    assert(params.block_wire(false) =~= seq![2u8, 1u8, a, 1u8, b]);
    request_frame(command, &params, false)
}

/// Reads the reply to `command`.
pub fn reply<RP: ParseParams>(command: Command, bytes: Vec<u8>, long: bool) -> (r: Result<
    RP,
    DriverError,
>)
    ensures
        match reply_error::<RP>(command.opcode_spec(), bytes@, long) {
            None => r is Ok && RP::block_parsed(bytes@, 2, long, r->Ok_0),
            Some(e) => r == Err::<RP, DriverError>(Error::Transport(e)),
        },
{
    match decode_reply(command, bytes, long) {
        Ok(p) => Ok(p),
        Err(e) => Err(Error::Transport(e)),
    }
}

/// Reads a reply of one status byte: `1` is success, anything else is `failure`.
pub fn status_reply(command: Command, bytes: Vec<u8>, failure: DriverError) -> (r: Result<
    (),
    DriverError,
>)
    ensures
        match reply_error::<(u8,)>(command.opcode_spec(), bytes@, false) {
            None => r == if first_payload(bytes@, false)[0] == 1 {
                Ok::<(), DriverError>(())
            } else {
                Err::<(), DriverError>(failure)
            },
            Some(e) => r == Err::<(), DriverError>(Error::Transport(e)),
        },
{
    match reply::<(u8,)>(command, bytes, false) {
        Err(e) => Err(e),
        Ok(p) => if p.0 == 1 {
            Ok(())
        } else {
            Err(failure)
        },
    }
}

/// Reads a reply of one byte.
pub fn byte_reply(command: Command, bytes: Vec<u8>) -> (r: Result<u8, DriverError>)
    ensures
        match reply_error::<(u8,)>(command.opcode_spec(), bytes@, false) {
            None => r == Ok::<u8, DriverError>(first_payload(bytes@, false)[0]),
            Some(e) => r == Err::<u8, DriverError>(Error::Transport(e)),
        },
{
    match reply::<(u8,)>(command, bytes, false) {
        Err(e) => Err(e),
        Ok(p) => Ok(p.0),
    }
}

/// Reads a reply of one run of bytes.
pub fn bytes_reply(command: Command, bytes: Vec<u8>, long: bool) -> (r: Result<
    Vec<u8>,
    DriverError,
>)
    ensures
        match reply_error::<(Vec<u8>,)>(command.opcode_spec(), bytes@, long) {
            None => r is Ok && r->Ok_0@ == first_payload(bytes@, long),
            Some(e) => r == Err::<Vec<u8>, DriverError>(Error::Transport(e)),
        },
{
    match reply::<(Vec<u8>,)>(command, bytes, long) {
        Err(e) => Err(e),
        Ok(p) => Ok(p.0),
    }
}

/// The longest firmware version kept.
pub const FIRMWARE_VERSION_CAPACITY: usize = 16;

/// The longest network name kept.
pub const SSID_CAPACITY: usize = 32;

/// The longest BSSID kept.
pub const BSSID_CAPACITY: usize = 6;

/// The most scanned networks kept.
pub const SCAN_CAPACITY: usize = 32;

/// Reads a reply of one run of at most `cap` bytes.
pub fn capped_bytes_reply(command: Command, bytes: Vec<u8>, cap: usize) -> (r: Result<
    Vec<u8>,
    DriverError,
>)
    ensures
        match reply_error::<(Vec<u8>,)>(command.opcode_spec(), bytes@, false) {
            None => if first_payload(bytes@, false).len() <= cap {
                r is Ok && r->Ok_0@ == first_payload(bytes@, false)
            } else {
                r == Err::<Vec<u8>, DriverError>(Error::BadLength)
            },
            Some(e) => r == Err::<Vec<u8>, DriverError>(Error::Transport(e)),
        },
{
    match bytes_reply(command, bytes, false) {
        Err(e) => Err(e),
        Ok(v) => if v.len() <= cap {
            Ok(v)
        } else {
            Err(Error::BadLength)
        },
    }
}

/// Reads a reply of six bytes, such as a hardware address.
pub fn six_bytes_reply(command: Command, bytes: Vec<u8>) -> (r: Result<[u8; 6], DriverError>)
    ensures
        match reply_error::<(Vec<u8>,)>(command.opcode_spec(), bytes@, false) {
            None => if first_payload(bytes@, false).len() == 6 {
                r is Ok && r->Ok_0@ == first_payload(bytes@, false)
            } else {
                r == Err::<[u8; 6], DriverError>(Error::BadLength)
            },
            Some(e) => r == Err::<[u8; 6], DriverError>(Error::Transport(e)),
        },
{
    match bytes_reply(command, bytes, false) {
        Err(e) => Err(e),
        Ok(v) => if v.len() == 6 {
            let a = [v[0], v[1], v[2], v[3], v[4], v[5]];
            assert(a@ =~= v@);
            Ok(a)
        } else {
            Err(Error::BadLength)
        },
    }
}

/// Reads a reply of one big-endian 32-bit scalar.
pub fn be32_reply(command: Command, bytes: Vec<u8>) -> (r: Result<u32, DriverError>)
    ensures
        match reply_error::<(Scalar<BigEndian, u32>,)>(command.opcode_spec(), bytes@, false) {
            None => r == Ok::<u32, DriverError>(be32_value(first_payload(bytes@, false)) as u32),
            Some(e) => r == Err::<u32, DriverError>(Error::Transport(e)),
        },
{
    match reply::<(Scalar<BigEndian, u32>,)>(command, bytes, false) {
        Err(e) => Err(e),
        Ok(p) => Ok(p.0.into_inner()),
    }
}

/// Reads a reply of one little-endian 32-bit scalar.
pub fn le32_reply(command: Command, bytes: Vec<u8>) -> (r: Result<u32, DriverError>)
    ensures
        match reply_error::<(Scalar<LittleEndian, u32>,)>(command.opcode_spec(), bytes@, false) {
            None => r == Ok::<u32, DriverError>(le32_value(first_payload(bytes@, false)) as u32),
            Some(e) => r == Err::<u32, DriverError>(Error::Transport(e)),
        },
{
    match reply::<(Scalar<LittleEndian, u32>,)>(command, bytes, false) {
        Err(e) => Err(e),
        Ok(p) => Ok(p.0.into_inner()),
    }
}

/// Reads a reply of one little-endian 16-bit scalar.
pub fn le16_reply(command: Command, bytes: Vec<u8>) -> (r: Result<u16, DriverError>)
    ensures
        match reply_error::<(Scalar<LittleEndian, u16>,)>(command.opcode_spec(), bytes@, false) {
            None => r == Ok::<u16, DriverError>(le16_value(first_payload(bytes@, false)) as u16),
            Some(e) => r == Err::<u16, DriverError>(Error::Transport(e)),
        },
{
    match reply::<(Scalar<LittleEndian, u16>,)>(command, bytes, false) {
        Err(e) => Err(e),
        Ok(p) => Ok(p.0.into_inner()),
    }
}

/// The request for the WiFi connection state.
pub fn get_connection_state_request() -> (r: Vec<u8>)
    ensures
        r@ == request_spec(Command::GetConnStatusCmd.opcode_spec(), seq![0u8]),
{
    empty_request(Command::GetConnStatusCmd)
}

/// The WiFi connection state in a reply.
pub fn get_connection_state_reply(bytes: Vec<u8>) -> (r: Result<ConnectionState, DriverError>)
    ensures
        match reply_error::<(u8,)>(Command::GetConnStatusCmd.opcode_spec(), bytes@, false) {
            None => {
                let b = first_payload(bytes@, false)[0];
                &&& r matches Ok(s) ==> s.byte() == b
                &&& r is Err ==> r == Err::<ConnectionState, DriverError>(Error::Tcp(TcpError::BadConnectionStatus(b)))
                    && forall|s: ConnectionState| s.byte() != b
            },
            Some(e) => r == Err::<ConnectionState, DriverError>(Error::Transport(e)),
        },
{
    match byte_reply(Command::GetConnStatusCmd, bytes) {
        Err(e) => Err(e),
        Ok(b) => match ConnectionState::from_u8(b) {
            Some(s) => Ok(s),
            None => Err(Error::Tcp(TcpError::BadConnectionStatus(b))),
        },
    }
}

/// The request for the firmware version.
pub fn get_firmware_version_request() -> (r: Vec<u8>)
    ensures
        r@ == request_spec(Command::GetFwVersionCmd.opcode_spec(), byte_block(0u8)),
{
    byte_request(Command::GetFwVersionCmd, 0u8)
}

/// `b` without one trailing zero byte, if it ends in one.
pub open spec fn without_terminator(b: Seq<u8>) -> Seq<u8> {
    if b.len() > 0 && b.last() == 0 {
        b.drop_last()
    } else {
        b
    }
}

/// The firmware version in a reply: the bytes of the slot, without a trailing
/// zero byte if the firmware sends one, and at most
/// `FIRMWARE_VERSION_CAPACITY` of them.
pub fn get_firmware_version_reply(bytes: Vec<u8>) -> (r: Result<Vec<u8>, DriverError>)
    ensures
        match reply_error::<(Vec<u8>,)>(Command::GetFwVersionCmd.opcode_spec(), bytes@, false) {
            None => if without_terminator(first_payload(bytes@, false)).len()
                <= FIRMWARE_VERSION_CAPACITY {
                r is Ok && r->Ok_0@ == without_terminator(first_payload(bytes@, false))
            } else {
                r == Err::<Vec<u8>, DriverError>(Error::BadLength)
            },
            Some(e) => r == Err::<Vec<u8>, DriverError>(Error::Transport(e)),
        },
{
    match bytes_reply(Command::GetFwVersionCmd, bytes, false) {
        Err(e) => Err(e),
        Ok(mut v) => {
            let n = v.len();
            if n > 0 && v[n - 1] == 0 {
                v.pop();
            }
            assert(v@ =~= without_terminator(first_payload(bytes@, false)));
            if v.len() <= FIRMWARE_VERSION_CAPACITY {
                Ok(v)
            } else {
                Err(Error::BadLength)
            }
        },
    }
}

/// The request for the hardware address.
pub fn get_mac_address_request() -> (r: Vec<u8>)
    ensures
        r@ == request_spec(Command::GetMacaddrCmd.opcode_spec(), byte_block(0u8)),
{
    byte_request(Command::GetMacaddrCmd, 0u8)
}

/// The hardware address in a reply.
pub fn get_mac_address_reply(bytes: Vec<u8>) -> (r: Result<[u8; 6], DriverError>)
    ensures
        match reply_error::<(Vec<u8>,)>(Command::GetMacaddrCmd.opcode_spec(), bytes@, false) {
            None => if first_payload(bytes@, false).len() == 6 {
                r is Ok && r->Ok_0@ == first_payload(bytes@, false)
            } else {
                r == Err::<[u8; 6], DriverError>(Error::BadLength)
            },
            Some(e) => r == Err::<[u8; 6], DriverError>(Error::Transport(e)),
        },
{
    six_bytes_reply(Command::GetMacaddrCmd, bytes)
}

/// The request that starts a network scan.
pub fn start_scan_networks_request() -> (r: Vec<u8>)
    ensures
        r@ == request_spec(Command::StartScanNetworks.opcode_spec(), seq![0u8]),
{
    empty_request(Command::StartScanNetworks)
}

/// Whether the scan started.
pub fn start_scan_networks_reply(bytes: Vec<u8>) -> (r: Result<(), DriverError>)
    ensures
        match reply_error::<(u8,)>(Command::StartScanNetworks.opcode_spec(), bytes@, false) {
            None => r == if first_payload(bytes@, false)[0] == 1 {
                Ok::<(), DriverError>(())
            } else {
                Err::<(), DriverError>(Error::StartScanNetworks)
            },
            Some(e) => r == Err::<(), DriverError>(Error::Transport(e)),
        },
{
    status_reply(Command::StartScanNetworks, bytes, Error::StartScanNetworks)
}

/// The request for the names of the scanned networks.
pub fn get_scanned_networks_request() -> (r: Vec<u8>)
    ensures
        r@ == request_spec(Command::ScanNetworks.opcode_spec(), seq![0u8]),
{
    empty_request(Command::ScanNetworks)
}

/// Whether a list of network names is within the capacities.
pub open spec fn names_fit(names: Vec<Vec<u8>>) -> bool {
    &&& names@.len() <= SCAN_CAPACITY
    &&& forall|i: int| 0 <= i < names@.len() ==> (#[trigger] names@[i])@.len() <= SSID_CAPACITY
}

/// The names of the scanned networks in a reply: each name is one slot. At
/// most `SCAN_CAPACITY` names of at most `SSID_CAPACITY` bytes are kept.
pub fn get_scanned_networks_reply(bytes: Vec<u8>) -> (r: Result<Vec<Vec<u8>>, DriverError>)
    ensures
        match reply_error::<Vec<Vec<u8>>>(Command::ScanNetworks.opcode_spec(), bytes@, false) {
            None => match r {
                Ok(names) => <Vec<Vec<u8>> as ParseParams>::block_parsed(bytes@, 2, false, names)
                    && names_fit(names),
                Err(e) => e == Error::<ReplyError>::BadLength && forall|names: Vec<Vec<u8>>|
                    #[trigger] <Vec<Vec<u8>> as ParseParams>::block_parsed(bytes@, 2, false, names)
                        ==> !names_fit(names),
            },
            Some(e) => r == Err::<Vec<Vec<u8>>, DriverError>(Error::Transport(e)),
        },
{
    match reply::<Vec<Vec<u8>>>(Command::ScanNetworks, bytes, false) {
        Err(e) => Err(e),
        Ok(names) => {
            if names_within_capacity(&names) {
                Ok(names)
            } else {
                assert forall|other: Vec<Vec<u8>>|
                    #[trigger] <Vec<Vec<u8>> as ParseParams>::block_parsed(
                        bytes@,
                        2,
                        false,
                        other,
                    ) implies !names_fit(other) by {
                    assert(other@.len() == names@.len());
                    if other@.len() <= SCAN_CAPACITY {
                        let i = choose|i: int|
                            0 <= i < names@.len() && (#[trigger] names@[i])@.len() > SSID_CAPACITY;
                        assert(other@[i]@ == names@[i]@);
                    }
                }
                Err(Error::BadLength)
            }
        },
    }
}

/// Whether `names` are within the capacities.
pub fn names_within_capacity(names: &Vec<Vec<u8>>) -> (r: bool)
    ensures
        r == names_fit(*names),
{
    if names.len() > SCAN_CAPACITY {
        return false;
    }
    let mut i: usize = 0;
    while i < names.len()
        invariant
            i <= names@.len(),
            forall|j: int| 0 <= j < i ==> (#[trigger] names@[j])@.len() <= SSID_CAPACITY,
        decreases names@.len() - i,
    {
        if names[i].len() > SSID_CAPACITY {
            return false;
        }
        i += 1;
    }
    true
}

/// The request for the signal strength of a scanned network.
pub fn get_scanned_network_rssi_request(network: u8) -> (r: Vec<u8>)
    ensures
        r@ == request_spec(Command::GetIdxRssiCmd.opcode_spec(), byte_block(network)),
{
    byte_request(Command::GetIdxRssiCmd, network)
}

/// The signal strength of a scanned network in a reply.
pub fn get_scanned_network_rssi_reply(bytes: Vec<u8>) -> (r: Result<i32, DriverError>)
    ensures
        match reply_error::<(Scalar<LittleEndian, u32>,)>(
            Command::GetIdxRssiCmd.opcode_spec(),
            bytes@,
            false,
        ) {
            None => r == Ok::<i32, DriverError>(
                (le32_value(first_payload(bytes@, false)) as u32) as i32,
            ),
            Some(e) => r == Err::<i32, DriverError>(Error::Transport(e)),
        },
{
    match le32_reply(Command::GetIdxRssiCmd, bytes) {
        Err(e) => Err(e),
        Ok(v) => Ok(v as i32),
    }
}

/// The request for the encryption of a scanned network.
pub fn get_scanned_network_encryption_type_request(network: u8) -> (r: Vec<u8>)
    ensures
        r@ == request_spec(Command::GetIdxEnctCmd.opcode_spec(), byte_block(network)),
{
    byte_request(Command::GetIdxEnctCmd, network)
}

/// The encryption of a scanned network in a reply.
pub fn get_scanned_network_encryption_type_reply(bytes: Vec<u8>) -> (r: Result<EncryptionType, DriverError>)
    ensures
        match reply_error::<(u8,)>(Command::GetIdxEnctCmd.opcode_spec(), bytes@, false) {
            None => {
                let b = first_payload(bytes@, false)[0];
                &&& r matches Ok(s) ==> s.byte() == b
                &&& r is Err ==> r == Err::<EncryptionType, DriverError>(Error::Tcp(TcpError::BadEncryptionType(b)))
                    && forall|s: EncryptionType| s.byte() != b
            },
            Some(e) => r == Err::<EncryptionType, DriverError>(Error::Transport(e)),
        },
{
    match byte_reply(Command::GetIdxEnctCmd, bytes) {
        Err(e) => Err(e),
        Ok(b) => match EncryptionType::from_u8(b) {
            Some(s) => Ok(s),
            None => Err(Error::Tcp(TcpError::BadEncryptionType(b))),
        },
    }
}

/// The request for the BSSID of a scanned network.
pub fn get_scanned_network_bssid_request(network: u8) -> (r: Vec<u8>)
    ensures
        r@ == request_spec(Command::GetIdxBssid.opcode_spec(), byte_block(network)),
{
    byte_request(Command::GetIdxBssid, network)
}

/// The BSSID of a scanned network in a reply.
pub fn get_scanned_network_bssid_reply(bytes: Vec<u8>) -> (r: Result<[u8; 6], DriverError>)
    ensures
        match reply_error::<(Vec<u8>,)>(Command::GetIdxBssid.opcode_spec(), bytes@, false) {
            None => if first_payload(bytes@, false).len() == 6 {
                r is Ok && r->Ok_0@ == first_payload(bytes@, false)
            } else {
                r == Err::<[u8; 6], DriverError>(Error::BadLength)
            },
            Some(e) => r == Err::<[u8; 6], DriverError>(Error::Transport(e)),
        },
{
    six_bytes_reply(Command::GetIdxBssid, bytes)
}

/// The request for the channel of a scanned network.
pub fn get_scanned_network_channel_request(network: u8) -> (r: Vec<u8>)
    ensures
        r@ == request_spec(Command::GetIdxChannelCmd.opcode_spec(), byte_block(network)),
{
    byte_request(Command::GetIdxChannelCmd, network)
}

/// The channel of a scanned network in a reply.
pub fn get_scanned_network_channel_reply(bytes: Vec<u8>) -> (r: Result<u8, DriverError>)
    ensures
        match reply_error::<(u8,)>(Command::GetIdxChannelCmd.opcode_spec(), bytes@, false) {
            None => r == Ok::<u8, DriverError>(first_payload(bytes@, false)[0]),
            Some(e) => r == Err::<u8, DriverError>(Error::Transport(e)),
        },
{
    byte_reply(Command::GetIdxChannelCmd, bytes)
}

/// The request that asks the coprocessor to resolve `hostname`.
pub fn request_host_by_name_request(hostname: &Vec<u8>) -> (r: Result<Vec<u8>, DriverError>)
    ensures
        hostname@.len() <= 254 ==> r is Ok && r->Ok_0@ == request_spec(
            Command::ReqHostByNameCmd.opcode_spec(),
            seq![1u8] + slot_wire(hostname@.push(0u8), false),
        ),
        hostname@.len() > 254 ==> r == Err::<Vec<u8>, DriverError>(Error::Tcp(TcpError::DataTooLong)),
{
    let params = (NullTerminated::new(copy_bytes(hostname)),);
    assert(params.block_wire(false) =~= seq![1u8] + slot_wire(hostname@.push(0u8), false));
    request(Command::ReqHostByNameCmd, &params, false)
}

/// Whether the coprocessor took the name to resolve.
pub fn request_host_by_name_reply(bytes: Vec<u8>) -> (r: Result<(), DriverError>)
    ensures
        match reply_error::<(u8,)>(Command::ReqHostByNameCmd.opcode_spec(), bytes@, false) {
            None => r == if first_payload(bytes@, false)[0] == 1 {
                Ok::<(), DriverError>(())
            } else {
                Err::<(), DriverError>(Error::ReqHostByName)
            },
            Some(e) => r == Err::<(), DriverError>(Error::Transport(e)),
        },
{
    status_reply(Command::ReqHostByNameCmd, bytes, Error::ReqHostByName)
}

/// The request for the address that the last name resolved to.
pub fn get_host_by_name_request() -> (r: Vec<u8>)
    ensures
        r@ == request_spec(Command::GetHostByNameCmd.opcode_spec(), seq![0u8]),
{
    empty_request(Command::GetHostByNameCmd)
}

/// The resolved address in a reply.
pub fn get_host_by_name_reply(bytes: Vec<u8>) -> (r: Result<Ipv4Addr, DriverError>)
    ensures
        match reply_error::<(Scalar<BigEndian, u32>,)>(
            Command::GetHostByNameCmd.opcode_spec(),
            bytes@,
            false,
        ) {
            None => r == Ok::<Ipv4Addr, DriverError>(
                Ipv4Addr(be32_value(first_payload(bytes@, false)) as u32),
            ),
            Some(e) => r == Err::<Ipv4Addr, DriverError>(Error::Transport(e)),
        },
{
    match be32_reply(Command::GetHostByNameCmd, bytes) {
        Err(e) => Err(e),
        Ok(v) => Ok(Ipv4Addr(v)),
    }
}

/// The request that joins the open network `ssid`.
pub fn set_network_request(ssid: &Vec<u8>) -> (r: Result<Vec<u8>, DriverError>)
    ensures
        ssid@.len() <= 254 ==> r is Ok && r->Ok_0@ == request_spec(
            Command::SetNetCmd.opcode_spec(),
            seq![1u8] + slot_wire(ssid@.push(0u8), false),
        ),
        ssid@.len() > 254 ==> r == Err::<Vec<u8>, DriverError>(Error::Tcp(TcpError::DataTooLong)),
{
    let params = (NullTerminated::new(copy_bytes(ssid)),);
    assert(params.block_wire(false) =~= seq![1u8] + slot_wire(ssid@.push(0u8), false));
    request(Command::SetNetCmd, &params, false)
}

/// Whether the coprocessor took the network.
pub fn set_network_reply(bytes: Vec<u8>) -> (r: Result<(), DriverError>)
    ensures
        match reply_error::<(u8,)>(Command::SetNetCmd.opcode_spec(), bytes@, false) {
            None => r == if first_payload(bytes@, false)[0] == 1 {
                Ok::<(), DriverError>(())
            } else {
                Err::<(), DriverError>(Error::SetNetwork)
            },
            Some(e) => r == Err::<(), DriverError>(Error::Transport(e)),
        },
{
    status_reply(Command::SetNetCmd, bytes, Error::SetNetwork)
}

/// The request that joins the network `ssid` with `passphrase`.
pub fn set_passphrase_request(ssid: &Vec<u8>, passphrase: &Vec<u8>) -> (r: Result<
    Vec<u8>,
    DriverError,
>)
    ensures
        ssid@.len() <= 254 && passphrase@.len() <= 254 ==> r is Ok && r->Ok_0@ == request_spec(
            Command::SetPassphraseCmd.opcode_spec(),
            seq![2u8] + slot_wire(ssid@.push(0u8), false) + slot_wire(passphrase@.push(0u8), false),
        ),
        !(ssid@.len() <= 254 && passphrase@.len() <= 254) ==> r == Err::<Vec<u8>, DriverError>(
            Error::Tcp(TcpError::DataTooLong),
        ),
{
    let params = (NullTerminated::new(copy_bytes(ssid)), NullTerminated::new(copy_bytes(passphrase)));
    assert(params.block_wire(false) =~= seq![2u8] + slot_wire(ssid@.push(0u8), false) + slot_wire(
        passphrase@.push(0u8),
        false,
    ));
    request(Command::SetPassphraseCmd, &params, false)
}

/// Whether the coprocessor took the network and passphrase.
pub fn set_passphrase_reply(bytes: Vec<u8>) -> (r: Result<(), DriverError>)
    ensures
        match reply_error::<(u8,)>(Command::SetPassphraseCmd.opcode_spec(), bytes@, false) {
            None => r == if first_payload(bytes@, false)[0] == 1 {
                Ok::<(), DriverError>(())
            } else {
                Err::<(), DriverError>(Error::SetPassphrase)
            },
            Some(e) => r == Err::<(), DriverError>(Error::Transport(e)),
        },
{
    status_reply(Command::SetPassphraseCmd, bytes, Error::SetPassphrase)
}

/// The request that joins the WEP network `ssid` with key number `key_idx`.
///
/// The network name is null-terminated. For the key there are two options:
/// send it as it is, its slot length being the key length, or null-terminate
/// it like the name, adding one byte. The key is sent as it is: a WEP key is
/// a fixed-length binary value that may itself hold zero bytes, so its length
/// is carried by the slot and a terminator would add a byte the firmware does
/// not count as part of the key.
pub fn set_key_request(ssid: &Vec<u8>, key_idx: u8, key: &Vec<u8>) -> (r: Result<
    Vec<u8>,
    DriverError,
>)
    ensures
        ssid@.len() <= 254 && key@.len() <= 255 ==> r is Ok && r->Ok_0@ == request_spec(
            Command::SetKeyCmd.opcode_spec(),
            seq![3u8] + slot_wire(ssid@.push(0u8), false) + slot_wire(seq![key_idx], false)
                + slot_wire(key@, false),
        ),
        !(ssid@.len() <= 254 && key@.len() <= 255) ==> r == Err::<Vec<u8>, DriverError>(
            Error::Tcp(TcpError::DataTooLong),
        ),
{
    let params = (NullTerminated::new(copy_bytes(ssid)), key_idx, copy_bytes(key));
    assert(params.block_wire(false) =~= seq![3u8] + slot_wire(ssid@.push(0u8), false) + slot_wire(
        seq![key_idx],
        false,
    ) + slot_wire(key@, false));
    request(Command::SetKeyCmd, &params, false)
}

/// Whether the coprocessor took the network and key.
pub fn set_key_reply(bytes: Vec<u8>) -> (r: Result<(), DriverError>)
    ensures
        match reply_error::<(u8,)>(Command::SetKeyCmd.opcode_spec(), bytes@, false) {
            None => r == if first_payload(bytes@, false)[0] == 1 {
                Ok::<(), DriverError>(())
            } else {
                Err::<(), DriverError>(Error::SetKey)
            },
            Some(e) => r == Err::<(), DriverError>(Error::Transport(e)),
        },
{
    status_reply(Command::SetKeyCmd, bytes, Error::SetKey)
}

/// The request that sets a static address, gateway and subnet mask.
pub fn config_request(valid_params: u8, local_ip: Ipv4Addr, gateway: Ipv4Addr, subnet: Ipv4Addr) -> (r:
    Vec<u8>)
    ensures
        r@ == request_spec(
            Command::SetIpConfigCmd.opcode_spec(),
            seq![4u8] + slot_wire(seq![valid_params], false) + slot_wire(be32(local_ip.0), false)
                + slot_wire(be32(gateway.0), false) + slot_wire(be32(subnet.0), false),
        ),
{
    let params = (
        valid_params,
        Scalar::be(local_ip.0),
        Scalar::be(gateway.0),
        Scalar::be(subnet.0),
    );
    proof {
        lemma_be32(local_ip.0);
        lemma_be32(gateway.0);
        lemma_be32(subnet.0);
    }
    request_frame(Command::SetIpConfigCmd, &params, false)
}

/// Whether the coprocessor took the static configuration.
pub fn config_reply(bytes: Vec<u8>) -> (r: Result<(), DriverError>)
    ensures
        match reply_error::<(u8,)>(Command::SetIpConfigCmd.opcode_spec(), bytes@, false) {
            None => r == if first_payload(bytes@, false)[0] == 1 {
                Ok::<(), DriverError>(())
            } else {
                Err::<(), DriverError>(Error::SetIpConfig)
            },
            Some(e) => r == Err::<(), DriverError>(Error::Transport(e)),
        },
{
    status_reply(Command::SetIpConfigCmd, bytes, Error::SetIpConfig)
}

/// The request that sets the DNS servers.
pub fn set_dns_request(valid_params: u8, dns_server1: Ipv4Addr, dns_server2: Ipv4Addr) -> (r: Vec<
    u8,
>)
    ensures
        r@ == request_spec(
            Command::SetDnsConfigCmd.opcode_spec(),
            seq![3u8] + slot_wire(seq![valid_params], false) + slot_wire(be32(dns_server1.0), false)
                + slot_wire(be32(dns_server2.0), false),
        ),
{
    let params = (valid_params, Scalar::be(dns_server1.0), Scalar::be(dns_server2.0));
    proof {
        lemma_be32(dns_server1.0);
        lemma_be32(dns_server2.0);
    }
    request_frame(Command::SetDnsConfigCmd, &params, false)
}

/// Whether the coprocessor took the DNS servers.
pub fn set_dns_reply(bytes: Vec<u8>) -> (r: Result<(), DriverError>)
    ensures
        match reply_error::<(u8,)>(Command::SetDnsConfigCmd.opcode_spec(), bytes@, false) {
            None => r == if first_payload(bytes@, false)[0] == 1 {
                Ok::<(), DriverError>(())
            } else {
                Err::<(), DriverError>(Error::SetDnsConfig)
            },
            Some(e) => r == Err::<(), DriverError>(Error::Transport(e)),
        },
{
    status_reply(Command::SetDnsConfigCmd, bytes, Error::SetDnsConfig)
}

/// The request that sets the coprocessor's own host name.
pub fn set_hostname_request(hostname: &Vec<u8>) -> (r: Result<Vec<u8>, DriverError>)
    ensures
        hostname@.len() <= 254 ==> r is Ok && r->Ok_0@ == request_spec(
            Command::SetHostnameCmd.opcode_spec(),
            seq![1u8] + slot_wire(hostname@.push(0u8), false),
        ),
        hostname@.len() > 254 ==> r == Err::<Vec<u8>, DriverError>(Error::Tcp(TcpError::DataTooLong)),
{
    let params = (NullTerminated::new(copy_bytes(hostname)),);
    assert(params.block_wire(false) =~= seq![1u8] + slot_wire(hostname@.push(0u8), false));
    request(Command::SetHostnameCmd, &params, false)
}

/// Whether the coprocessor took the host name.
pub fn set_hostname_reply(bytes: Vec<u8>) -> (r: Result<(), DriverError>)
    ensures
        match reply_error::<(u8,)>(Command::SetHostnameCmd.opcode_spec(), bytes@, false) {
            None => r == if first_payload(bytes@, false)[0] == 1 {
                Ok::<(), DriverError>(())
            } else {
                Err::<(), DriverError>(Error::SetHostname)
            },
            Some(e) => r == Err::<(), DriverError>(Error::Transport(e)),
        },
{
    status_reply(Command::SetHostnameCmd, bytes, Error::SetHostname)
}

/// The request that leaves the network.
pub fn disconnect_request() -> (r: Vec<u8>)
    ensures
        r@ == request_spec(Command::DisconnectCmd.opcode_spec(), byte_block(0u8)),
{
    byte_request(Command::DisconnectCmd, 0u8)
}

/// Whether the coprocessor left the network.
pub fn disconnect_reply(bytes: Vec<u8>) -> (r: Result<(), DriverError>)
    ensures
        match reply_error::<(u8,)>(Command::DisconnectCmd.opcode_spec(), bytes@, false) {
            None => r == if first_payload(bytes@, false)[0] == 1 {
                Ok::<(), DriverError>(())
            } else {
                Err::<(), DriverError>(Error::Disconnect)
            },
            Some(e) => r == Err::<(), DriverError>(Error::Transport(e)),
        },
{
    status_reply(Command::DisconnectCmd, bytes, Error::Disconnect)
}

/// The request for the name of the current network.
pub fn get_current_ssid_request() -> (r: Vec<u8>)
    ensures
        r@ == request_spec(Command::GetCurrSsidCmd.opcode_spec(), byte_block(0u8)),
{
    byte_request(Command::GetCurrSsidCmd, 0u8)
}

/// The name of the current network in a reply, at most `SSID_CAPACITY` bytes.
pub fn get_current_ssid_reply(bytes: Vec<u8>) -> (r: Result<Vec<u8>, DriverError>)
    ensures
        match reply_error::<(Vec<u8>,)>(Command::GetCurrSsidCmd.opcode_spec(), bytes@, false) {
            None => if first_payload(bytes@, false).len() <= SSID_CAPACITY {
                r is Ok && r->Ok_0@ == first_payload(bytes@, false)
            } else {
                r == Err::<Vec<u8>, DriverError>(Error::BadLength)
            },
            Some(e) => r == Err::<Vec<u8>, DriverError>(Error::Transport(e)),
        },
{
    capped_bytes_reply(Command::GetCurrSsidCmd, bytes, SSID_CAPACITY)
}

/// The request for the BSSID of the current network.
pub fn get_current_bssid_request() -> (r: Vec<u8>)
    ensures
        r@ == request_spec(Command::GetCurrBssidCmd.opcode_spec(), byte_block(0u8)),
{
    byte_request(Command::GetCurrBssidCmd, 0u8)
}

/// The BSSID of the current network in a reply, at most `BSSID_CAPACITY` bytes.
pub fn get_current_bssid_reply(bytes: Vec<u8>) -> (r: Result<Vec<u8>, DriverError>)
    ensures
        match reply_error::<(Vec<u8>,)>(Command::GetCurrBssidCmd.opcode_spec(), bytes@, false) {
            None => if first_payload(bytes@, false).len() <= BSSID_CAPACITY {
                r is Ok && r->Ok_0@ == first_payload(bytes@, false)
            } else {
                r == Err::<Vec<u8>, DriverError>(Error::BadLength)
            },
            Some(e) => r == Err::<Vec<u8>, DriverError>(Error::Transport(e)),
        },
{
    capped_bytes_reply(Command::GetCurrBssidCmd, bytes, BSSID_CAPACITY)
}

/// The request for the signal strength of the current network.
pub fn get_current_rssi_request() -> (r: Vec<u8>)
    ensures
        r@ == request_spec(Command::GetCurrRssiCmd.opcode_spec(), byte_block(0u8)),
{
    byte_request(Command::GetCurrRssiCmd, 0u8)
}

/// The signal strength of the current network in a reply.
pub fn get_current_rssi_reply(bytes: Vec<u8>) -> (r: Result<i32, DriverError>)
    ensures
        match reply_error::<(Scalar<BigEndian, u32>,)>(
            Command::GetCurrRssiCmd.opcode_spec(),
            bytes@,
            false,
        ) {
            None => r == Ok::<i32, DriverError>(
                (be32_value(first_payload(bytes@, false)) as u32) as i32,
            ),
            Some(e) => r == Err::<i32, DriverError>(Error::Transport(e)),
        },
{
    match be32_reply(Command::GetCurrRssiCmd, bytes) {
        Err(e) => Err(e),
        Ok(v) => Ok(v as i32),
    }
}

/// The request for the encryption of the current network.
pub fn get_current_encryption_type_request() -> (r: Vec<u8>)
    ensures
        r@ == request_spec(Command::GetCurrEnctCmd.opcode_spec(), byte_block(0u8)),
{
    byte_request(Command::GetCurrEnctCmd, 0u8)
}

/// The encryption of the current network in a reply.
pub fn get_current_encryption_type_reply(bytes: Vec<u8>) -> (r: Result<EncryptionType, DriverError>)
    ensures
        match reply_error::<(u8,)>(Command::GetCurrEnctCmd.opcode_spec(), bytes@, false) {
            None => {
                let b = first_payload(bytes@, false)[0];
                &&& r matches Ok(s) ==> s.byte() == b
                &&& r is Err ==> r == Err::<EncryptionType, DriverError>(Error::Tcp(TcpError::BadEncryptionType(b)))
                    && forall|s: EncryptionType| s.byte() != b
            },
            Some(e) => r == Err::<EncryptionType, DriverError>(Error::Transport(e)),
        },
{
    match byte_reply(Command::GetCurrEnctCmd, bytes) {
        Err(e) => Err(e),
        Ok(b) => match EncryptionType::from_u8(b) {
            Some(s) => Ok(s),
            None => Err(Error::Tcp(TcpError::BadEncryptionType(b))),
        },
    }
}

/// The request for the coprocessor's address, subnet mask and gateway.
pub fn get_network_data_request() -> (r: Vec<u8>)
    ensures
        r@ == request_spec(Command::GetIpaddrCmd.opcode_spec(), byte_block(0u8)),
{
    byte_request(Command::GetIpaddrCmd, 0u8)
}

/// The block of a reply with three big-endian 32-bit values.
pub open spec fn three_addresses(bytes: Seq<u8>) -> (int, int, int) {
    let at1 = 3int;
    let at2 = crate::param::slot_end(bytes, at1, false);
    let at3 = crate::param::slot_end(bytes, at2, false);
    (
        be32_value(slot_payload(bytes, at1, false)),
        be32_value(slot_payload(bytes, at2, false)),
        be32_value(slot_payload(bytes, at3, false)),
    )
}

/// The coprocessor's address, subnet mask and gateway in a reply.
pub fn get_network_data_reply(bytes: Vec<u8>) -> (r: Result<NetworkData, DriverError>)
    ensures
        match reply_error::<(Scalar<BigEndian, u32>, Scalar<BigEndian, u32>, Scalar<BigEndian, u32>)>(
            Command::GetIpaddrCmd.opcode_spec(),
            bytes@,
            false,
        ) {
            None => r == Ok::<NetworkData, DriverError>(
                NetworkData {
                    ip: Ipv4Addr(three_addresses(bytes@).0 as u32),
                    mask: Ipv4Addr(three_addresses(bytes@).1 as u32),
                    gateway: Ipv4Addr(three_addresses(bytes@).2 as u32),
                },
            ),
            Some(e) => r == Err::<NetworkData, DriverError>(Error::Transport(e)),
        },
{
    match reply::<(Scalar<BigEndian, u32>, Scalar<BigEndian, u32>, Scalar<BigEndian, u32>)>(
        Command::GetIpaddrCmd,
        bytes,
        false,
    ) {
        Err(e) => Err(e),
        Ok(p) => Ok(
            NetworkData {
                ip: Ipv4Addr(p.0.into_inner()),
                mask: Ipv4Addr(p.1.into_inner()),
                gateway: Ipv4Addr(p.2.into_inner()),
            },
        ),
    }
}

/// The request for the remote end of `socket`.
pub fn get_remote_data_request(socket: Socket) -> (r: Vec<u8>)
    ensures
        r@ == request_spec(Command::GetRemoteDataCmd.opcode_spec(), byte_block(socket.0)),
{
    byte_request(Command::GetRemoteDataCmd, socket.0)
}

/// The remote end of a socket in a reply: an address and a port, both sent as
/// big-endian 32-bit values.
pub fn get_remote_data_reply(bytes: Vec<u8>) -> (r: Result<RemoteData, DriverError>)
    ensures
        match reply_error::<(Scalar<BigEndian, u32>, Scalar<BigEndian, u32>)>(
            Command::GetRemoteDataCmd.opcode_spec(),
            bytes@,
            false,
        ) {
            None => r == Ok::<RemoteData, DriverError>(
                RemoteData {
                    ip: Ipv4Addr(three_addresses(bytes@).0 as u32),
                    port: three_addresses(bytes@).1 as u32,
                },
            ),
            Some(e) => r == Err::<RemoteData, DriverError>(Error::Transport(e)),
        },
{
    match reply::<(Scalar<BigEndian, u32>, Scalar<BigEndian, u32>)>(
        Command::GetRemoteDataCmd,
        bytes,
        false,
    ) {
        Err(e) => Err(e),
        Ok(p) => Ok(RemoteData { ip: Ipv4Addr(p.0.into_inner()), port: p.1.into_inner() }),
    }
}

/// The request that connects `socket` to `ip` and `port`.
pub fn start_client_by_ip_request(
    ip: Ipv4Addr,
    port: u16,
    socket: Socket,
    protocol_mode: ProtocolMode,
) -> (r: Vec<u8>)
    ensures
        r@ == request_spec(
            Command::StartClientTcpCmd.opcode_spec(),
            seq![4u8] + slot_wire(be32(ip.0), false) + slot_wire(be16(port), false) + slot_wire(
                seq![socket.0],
                false,
            ) + slot_wire(seq![protocol_mode.byte()], false),
        ),
{
    let params = (Scalar::be(ip.0), Scalar::be(port), socket.0, protocol_mode.to_u8());
    proof {
        lemma_be32(ip.0);
        lemma_be16(port);
    }
    request_frame(Command::StartClientTcpCmd, &params, false)
}

/// The request that connects `socket` to `addr`; only IPv4 addresses can be used.
pub fn start_client_by_addr_request(
    addr: SocketAddr,
    socket: Socket,
    protocol_mode: ProtocolMode,
) -> (r: Result<Vec<u8>, DriverError>)
    ensures
        match addr {
            SocketAddr::V4(ip, port) => r is Ok && r->Ok_0@ == request_spec(
                Command::StartClientTcpCmd.opcode_spec(),
                seq![4u8] + slot_wire(be32(ip.0), false) + slot_wire(be16(port), false) + slot_wire(
                    seq![socket.0],
                    false,
                ) + slot_wire(seq![protocol_mode.byte()], false),
            ),
            SocketAddr::V6(_) => r == Err::<Vec<u8>, DriverError>(Error::NotIpv4),
        },
{
    match addr {
        SocketAddr::V4(ip, port) => Ok(start_client_by_ip_request(ip, port, socket, protocol_mode)),
        SocketAddr::V6(_) => Err(Error::NotIpv4),
    }
}

/// Whether the connection started.
pub fn start_client_by_addr_reply(bytes: Vec<u8>) -> (r: Result<(), DriverError>)
    ensures
        match reply_error::<(u8,)>(Command::StartClientTcpCmd.opcode_spec(), bytes@, false) {
            None => r == if first_payload(bytes@, false)[0] == 1 {
                Ok::<(), DriverError>(())
            } else {
                Err::<(), DriverError>(Error::StartClientByIp)
            },
            Some(e) => r == Err::<(), DriverError>(Error::Transport(e)),
        },
{
    status_reply(Command::StartClientTcpCmd, bytes, Error::StartClientByIp)
}

/// The request that closes `socket`.
pub fn stop_client_request(socket: Socket) -> (r: Vec<u8>)
    ensures
        r@ == request_spec(Command::StopClientTcpCmd.opcode_spec(), byte_block(socket.0)),
{
    byte_request(Command::StopClientTcpCmd, socket.0)
}

/// Whether the socket closed.
pub fn stop_client_reply(bytes: Vec<u8>) -> (r: Result<(), DriverError>)
    ensures
        match reply_error::<(u8,)>(Command::StopClientTcpCmd.opcode_spec(), bytes@, false) {
            None => r == if first_payload(bytes@, false)[0] == 1 {
                Ok::<(), DriverError>(())
            } else {
                Err::<(), DriverError>(Error::StopClient)
            },
            Some(e) => r == Err::<(), DriverError>(Error::Transport(e)),
        },
{
    status_reply(Command::StopClientTcpCmd, bytes, Error::StopClient)
}

/// The request for the TCP state of `socket`.
pub fn get_client_state_request(socket: Socket) -> (r: Vec<u8>)
    ensures
        r@ == request_spec(Command::GetClientStateTcpCmd.opcode_spec(), byte_block(socket.0)),
{
    byte_request(Command::GetClientStateTcpCmd, socket.0)
}

/// The TCP state in a reply.
pub fn get_client_state_reply(bytes: Vec<u8>) -> (r: Result<TcpState, DriverError>)
    ensures
        match reply_error::<(u8,)>(Command::GetClientStateTcpCmd.opcode_spec(), bytes@, false) {
            None => {
                let b = first_payload(bytes@, false)[0];
                &&& r matches Ok(s) ==> s.byte() == b
                &&& r is Err ==> r == Err::<TcpState, DriverError>(Error::Tcp(TcpError::BadTcpState(b)))
                    && forall|s: TcpState| s.byte() != b
            },
            Some(e) => r == Err::<TcpState, DriverError>(Error::Transport(e)),
        },
{
    match byte_reply(Command::GetClientStateTcpCmd, bytes) {
        Err(e) => Err(e),
        Ok(b) => match TcpState::from_u8(b) {
            Some(s) => Ok(s),
            None => Err(Error::Tcp(TcpError::BadTcpState(b))),
        },
    }
}

/// The request for the number of bytes waiting on `socket`.
pub fn avail_data_request(socket: Socket) -> (r: Vec<u8>)
    ensures
        r@ == request_spec(Command::AvailDataTcpCmd.opcode_spec(), byte_block(socket.0)),
{
    byte_request(Command::AvailDataTcpCmd, socket.0)
}

/// The number of waiting bytes in a reply.
pub fn avail_data_reply(bytes: Vec<u8>) -> (r: Result<u16, DriverError>)
    ensures
        match reply_error::<(Scalar<LittleEndian, u16>,)>(
            Command::AvailDataTcpCmd.opcode_spec(),
            bytes@,
            false,
        ) {
            None => r == Ok::<u16, DriverError>(le16_value(first_payload(bytes@, false)) as u16),
            Some(e) => r == Err::<u16, DriverError>(Error::Transport(e)),
        },
{
    le16_reply(Command::AvailDataTcpCmd, bytes)
}

/// The request for at most `len` bytes of `socket`, with two-byte lengths.
pub fn get_data_buf_request(socket: Socket, len: usize) -> (r: Result<Vec<u8>, DriverError>)
    ensures
        len <= 65535 ==> r is Ok && r->Ok_0@ == request_spec(
            Command::GetDatabufTcpCmd.opcode_spec(),
            seq![2u8] + slot_wire(seq![socket.0], true) + slot_wire(le16(len as u16), true),
        ),
        len > 65535 ==> r == Err::<Vec<u8>, DriverError>(Error::Tcp(TcpError::DataTooLong)),
{
    if len > 65535 {
        return Err(Error::Tcp(TcpError::DataTooLong));
    }
    let params = (socket.0, Scalar::le(len as u16));
    proof {
        lemma_le16(len as u16);
    }
    Ok(request_frame(Command::GetDatabufTcpCmd, &params, true))
}

/// The bytes of a socket in a reply, with two-byte lengths.
pub fn get_data_buf_reply(bytes: Vec<u8>) -> (r: Result<Vec<u8>, DriverError>)
    ensures
        match reply_error::<(Vec<u8>,)>(Command::GetDatabufTcpCmd.opcode_spec(), bytes@, true) {
            None => r is Ok && r->Ok_0@ == first_payload(bytes@, true),
            Some(e) => r == Err::<Vec<u8>, DriverError>(Error::Transport(e)),
        },
{
    bytes_reply(Command::GetDatabufTcpCmd, bytes, true)
}

/// The request that sends `data` over `socket`, with two-byte lengths.
pub fn send_data_request(socket: Socket, data: &Vec<u8>) -> (r: Result<Vec<u8>, DriverError>)
    ensures
        data@.len() <= 65535 ==> r is Ok && r->Ok_0@ == request_spec(
            Command::SendDataTcpCmd.opcode_spec(),
            seq![2u8] + slot_wire(seq![socket.0], true) + slot_wire(data@, true),
        ),
        data@.len() > 65535 ==> r == Err::<Vec<u8>, DriverError>(
            Error::Tcp(TcpError::DataTooLong),
        ),
{
    let params = (socket.0, copy_bytes(data));
    assert(params.block_wire(true) =~= seq![2u8] + slot_wire(seq![socket.0], true) + slot_wire(
        data@,
        true,
    ));
    request(Command::SendDataTcpCmd, &params, true)
}

/// The number of bytes sent, in a reply.
pub fn send_data_reply(bytes: Vec<u8>) -> (r: Result<usize, DriverError>)
    ensures
        match reply_error::<(Scalar<LittleEndian, u16>,)>(
            Command::SendDataTcpCmd.opcode_spec(),
            bytes@,
            false,
        ) {
            None => r == Ok::<usize, DriverError>(
                le16_value(first_payload(bytes@, false)) as usize,
            ),
            Some(e) => r == Err::<usize, DriverError>(Error::Transport(e)),
        },
{
    match le16_reply(Command::SendDataTcpCmd, bytes) {
        Err(e) => Err(e),
        Ok(v) => Ok(v as usize),
    }
}

/// The request that asks whether the data of `socket` went out.
pub fn check_data_sent_request(socket: Socket) -> (r: Vec<u8>)
    ensures
        r@ == request_spec(Command::DataSentTcpCmd.opcode_spec(), byte_block(socket.0)),
{
    byte_request(Command::DataSentTcpCmd, socket.0)
}

/// Whether the data went out.
pub fn check_data_sent_reply(bytes: Vec<u8>) -> (r: Result<(), DriverError>)
    ensures
        match reply_error::<(u8,)>(Command::DataSentTcpCmd.opcode_spec(), bytes@, false) {
            None => r == if first_payload(bytes@, false)[0] == 1 {
                Ok::<(), DriverError>(())
            } else {
                Err::<(), DriverError>(Error::CheckDataSent)
            },
            Some(e) => r == Err::<(), DriverError>(Error::Transport(e)),
        },
{
    status_reply(Command::DataSentTcpCmd, bytes, Error::CheckDataSent)
}

/// The request for a free socket.
pub fn get_socket_request() -> (r: Vec<u8>)
    ensures
        r@ == request_spec(Command::GetSocketCmd.opcode_spec(), seq![0u8]),
{
    empty_request(Command::GetSocketCmd)
}

/// The socket handed out, in a reply.
pub fn get_socket_reply(bytes: Vec<u8>) -> (r: Result<Socket, DriverError>)
    ensures
        match reply_error::<(u8,)>(Command::GetSocketCmd.opcode_spec(), bytes@, false) {
            None => r == Ok::<Socket, DriverError>(Socket(first_payload(bytes@, false)[0])),
            Some(e) => r == Err::<Socket, DriverError>(Error::Transport(e)),
        },
{
    match byte_reply(Command::GetSocketCmd, bytes) {
        Err(e) => Err(e),
        Ok(b) => Ok(Socket(b)),
    }
}

/// The request that sets the mode of a pin.
pub fn pin_mode_request(pin: u8, mode: PinMode) -> (r: Vec<u8>)
    ensures
        r@ == request_spec(Command::SetPinMode.opcode_spec(), seq![2u8, 1u8, pin, 1u8, mode.byte()]),
{
    two_byte_request(Command::SetPinMode, pin, mode.to_u8())
}

/// Whether the pin mode was set.
pub fn pin_mode_reply(bytes: Vec<u8>) -> (r: Result<(), DriverError>)
    ensures
        match reply_error::<(u8,)>(Command::SetPinMode.opcode_spec(), bytes@, false) {
            None => r == if first_payload(bytes@, false)[0] == 1 {
                Ok::<(), DriverError>(())
            } else {
                Err::<(), DriverError>(Error::PinMode)
            },
            Some(e) => r == Err::<(), DriverError>(Error::Transport(e)),
        },
{
    status_reply(Command::SetPinMode, bytes, Error::PinMode)
}

/// The request that drives a pin to a digital level.
pub fn digital_write_request(pin: u8, value: u8) -> (r: Vec<u8>)
    ensures
        r@ == request_spec(Command::SetDigitalWrite.opcode_spec(), seq![2u8, 1u8, pin, 1u8, value]),
{
    two_byte_request(Command::SetDigitalWrite, pin, value)
}

/// Whether the pin was driven.
pub fn digital_write_reply(bytes: Vec<u8>) -> (r: Result<(), DriverError>)
    ensures
        match reply_error::<(u8,)>(Command::SetDigitalWrite.opcode_spec(), bytes@, false) {
            None => r == if first_payload(bytes@, false)[0] == 1 {
                Ok::<(), DriverError>(())
            } else {
                Err::<(), DriverError>(Error::DigitalWrite)
            },
            Some(e) => r == Err::<(), DriverError>(Error::Transport(e)),
        },
{
    status_reply(Command::SetDigitalWrite, bytes, Error::DigitalWrite)
}

/// The request that drives a pin to an analog level.
pub fn analog_write_request(pin: u8, value: u8) -> (r: Vec<u8>)
    ensures
        r@ == request_spec(Command::SetAnalogWrite.opcode_spec(), seq![2u8, 1u8, pin, 1u8, value]),
{
    two_byte_request(Command::SetAnalogWrite, pin, value)
}

/// Whether the pin was driven.
pub fn analog_write_reply(bytes: Vec<u8>) -> (r: Result<(), DriverError>)
    ensures
        match reply_error::<(u8,)>(Command::SetAnalogWrite.opcode_spec(), bytes@, false) {
            None => r == if first_payload(bytes@, false)[0] == 1 {
                Ok::<(), DriverError>(())
            } else {
                Err::<(), DriverError>(Error::AnalogWrite)
            },
            Some(e) => r == Err::<(), DriverError>(Error::Transport(e)),
        },
{
    status_reply(Command::SetAnalogWrite, bytes, Error::AnalogWrite)
}

} // verus!
