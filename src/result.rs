//! The single error taxonomy of the library.
use vstd::prelude::*;

use crate::message::Command;

verus! {

/// Everything that can go wrong while talking to a device.
#[derive(Debug)]
pub enum AdbError {
    /// A transport or local file failure, with its description.
    Io(String),
    /// The handshake payload does not match its additive checksum.
    Crc,
    /// The device asked for authentication, which this client does not do.
    AuthNotSupported,
    /// An opcode that is not a known connection-level command.
    UnknownCommand(u32),
    /// A known command arrived where another one was required.
    UnexpectedCommand(Command),
    /// A payload of the wrong shape.
    UnexpectedData(Vec<u8>),
    /// The peer or the transport went away.
    Disconnected,
    /// A SYNC-level FAIL message sent by the device.
    Fail(String),
}

pub type AdbResult<T> = Result<T, AdbError>;

/// The error for a received opcode that was not the one required.
pub open spec fn unexpected_opcode_error(cmd: u32) -> AdbError {
    match Command::spec_from_u32(cmd) {
        Some(c) => AdbError::UnexpectedCommand(c),
        None => AdbError::UnknownCommand(cmd),
    }
}

impl AdbError {
    /// `UnexpectedCommand` for a known opcode, `UnknownCommand` otherwise.
    pub fn from_unexpected_command_u32(cmd: u32) -> (r: Self)
        ensures
            r == unexpected_opcode_error(cmd),
    {
        match Command::from_u32(cmd) {
            Some(c) => AdbError::UnexpectedCommand(c),
            None => AdbError::UnknownCommand(cmd),
        }
    }
}

} // verus!
