//! Decisions of the top-level driver: which command joins a network, and how
//! long to keep polling the connection state.
use vstd::prelude::*;

use crate::command::Command;
use crate::error::{Error, TcpError};
use crate::frame::{reply_error, request_spec};
use crate::handle::{
    first_payload, set_network_reply, set_network_request, set_passphrase_reply,
    set_passphrase_request, DriverError,
};
use crate::param::slot_wire;
use crate::types::ConnectionState;

verus! {

/// How to join a network.
#[derive(Clone, Debug, PartialEq, Eq)]
pub enum NetworkConfig {
    /// An open network.
    Open { ssid: Vec<u8> },
    /// A network with a passphrase.
    Password { ssid: Vec<u8>, password: Vec<u8> },
}

/// The request that joins the network of `config`.
pub fn join_request(config: &NetworkConfig) -> (r: Result<Vec<u8>, DriverError>)
    ensures
        match config {
            NetworkConfig::Open { ssid } => {
                &&& ssid@.len() <= 254 ==> r is Ok && r->Ok_0@ == request_spec(
                    Command::SetNetCmd.opcode_spec(),
                    seq![1u8] + slot_wire(ssid@.push(0u8), false),
                )
                &&& ssid@.len() > 254 ==> r == Err::<Vec<u8>, DriverError>(
                    Error::Tcp(TcpError::DataTooLong),
                )
            },
            NetworkConfig::Password { ssid, password } => {
                &&& ssid@.len() <= 254 && password@.len() <= 254 ==> r is Ok && r->Ok_0@
                    == request_spec(
                    Command::SetPassphraseCmd.opcode_spec(),
                    seq![2u8] + slot_wire(ssid@.push(0u8), false) + slot_wire(
                        password@.push(0u8),
                        false,
                    ),
                )
                &&& !(ssid@.len() <= 254 && password@.len() <= 254) ==> r == Err::<
                    Vec<u8>,
                    DriverError,
                >(Error::Tcp(TcpError::DataTooLong))
            },
        },
{
    match config {
        NetworkConfig::Open { ssid } => set_network_request(ssid),
        NetworkConfig::Password { ssid, password } => set_passphrase_request(ssid, password),
    }
}

/// What the reply to the join request of `config` says.
pub fn join_reply(config: &NetworkConfig, bytes: Vec<u8>) -> (r: Result<(), DriverError>)
    ensures
        ({
            let (cmd, failure) = match config {
                NetworkConfig::Open { .. } => (Command::SetNetCmd, Error::SetNetwork),
                NetworkConfig::Password { .. } => (Command::SetPassphraseCmd, Error::SetPassphrase),
            };
            match reply_error::<(u8,)>(cmd.opcode_spec(), bytes@, false) {
                None => r == if first_payload(bytes@, false)[0] == 1 {
                    Ok::<(), DriverError>(())
                } else {
                    Err::<(), DriverError>(failure)
                },
                Some(e) => r == Err::<(), DriverError>(Error::Transport(e)),
            }
        }),
{
    match config {
        NetworkConfig::Open { .. } => set_network_reply(bytes),
        NetworkConfig::Password { .. } => set_passphrase_reply(bytes),
    }
}

/// The next move while waiting for a connection state.
#[derive(Clone, Copy, Debug, PartialEq, Eq, Structural)]
pub enum PollStep {
    /// The awaited state is reached.
    Reached,
    /// Wait one interval, then poll again; the time waited by then.
    DelayThenPoll(u64),
    /// Wait one interval, then give up with this error.
    DelayThenFail(TcpError),
}

/// Decides what follows a poll that saw `actual` while waiting for `awaited`,
/// after `elapsed` milliseconds: stop when the state is reached; otherwise wait
/// `interval` more, and give up once the time waited exceeds `timeout`.
pub fn connection_poll_step(
    awaited: ConnectionState,
    actual: ConnectionState,
    elapsed: u64,
    interval: u32,
    timeout: u32,
) -> (r: PollStep)
    requires
        elapsed <= timeout,
    ensures
        actual == awaited ==> r == PollStep::Reached,
        actual != awaited && elapsed + interval > timeout ==> r == PollStep::DelayThenFail(
            TcpError::ConnectionFailure(actual),
        ),
        actual != awaited && elapsed + interval <= timeout ==> r == PollStep::DelayThenPoll(
            (elapsed + interval) as u64,
        ),
{
    if actual == awaited {
        return PollStep::Reached;
    }
    let total = elapsed + interval as u64;
    if total > timeout as u64 {
        PollStep::DelayThenFail(TcpError::ConnectionFailure(actual))
    } else {
        PollStep::DelayThenPoll(total)
    }
}

/// The pin of the red part of the RGB LED.
pub const LED_RED_PIN: u8 = 25;

/// The pin of the green part of the RGB LED.
pub const LED_GREEN_PIN: u8 = 26;

/// The pin of the blue part of the RGB LED.
pub const LED_BLUE_PIN: u8 = 27;

} // verus!
