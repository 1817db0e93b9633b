//! Running a command through the `shell:` service.
use vstd::prelude::*;
use vstd::utf8::encode_utf8;

use crate::client::AdbStreamPacket;
use crate::message::Command;
use crate::result::{AdbError, AdbResult};
use crate::utils::append_bytes;

verus! {

/// Runs a shell command on the device and collects what it printed.
pub trait AdbShell {
    fn shell_exec(&mut self, cmd: &str) -> AdbResult<Vec<u8>>;
}

/// The destination `shell:<cmd>`.
pub open spec fn shell_destination_bytes(cmd: Seq<u8>) -> Seq<u8> {
    seq![115u8, 104u8, 101u8, 108u8, 108u8, 58u8] + cmd
}

/// The destination a shell stream is opened with.
pub fn shell_destination(cmd: &str) -> (r: Vec<u8>)
    ensures
        r@ == shell_destination_bytes(encode_utf8(cmd@)),
{
    let mut out: Vec<u8> = Vec::new();
    out.push(115u8);
    out.push(104u8);
    out.push(101u8);
    out.push(108u8);
    out.push(108u8);
    out.push(58u8);
    append_bytes(&mut out, cmd.as_bytes());
    assert(out@ =~= shell_destination_bytes(encode_utf8(cmd@)));
    out
}

/// What to do after a packet of a shell stream.
#[derive(Debug, Clone, Copy, PartialEq, Eq, Structural)]
pub enum ShellStep {
    /// Output arrived: acknowledge it with OKAY and keep reading.
    Acknowledge,
    /// The device closed the stream: the output is complete.
    Finished,
}

/// The output of a shell command collected so far.
#[derive(Debug)]
pub struct ShellOutput {
    buf: Vec<u8>,
}

impl View for ShellOutput {
    type V = Seq<u8>;

    closed spec fn view(&self) -> Seq<u8> {
        self.buf@
    }
}

impl ShellOutput {
    pub fn new() -> (r: Self)
        ensures
            r@ == Seq::<u8>::empty(),
    {
        ShellOutput { buf: Vec::new() }
    }

    /// Takes the next packet of the stream: WRTE payloads are collected, a
    /// CLSE ends the output, anything else is unexpected.
    pub fn on_packet(&mut self, packet: &AdbStreamPacket) -> (r: AdbResult<ShellStep>)
        ensures
            packet.command == Command::A_WRTE ==> r == Ok::<ShellStep, AdbError>(
                ShellStep::Acknowledge,
            ) && final(self)@ == old(self)@ + packet.payload@,
            packet.command == Command::A_CLSE ==> r == Ok::<ShellStep, AdbError>(
                ShellStep::Finished,
            ) && final(self)@ == old(self)@,
            packet.command != Command::A_WRTE && packet.command != Command::A_CLSE ==> r
                == Err::<ShellStep, AdbError>(AdbError::UnexpectedCommand(packet.command))
                && final(self)@ == old(self)@,
    {
        match packet.command {
            Command::A_WRTE => {
                append_bytes(&mut self.buf, packet.payload.as_slice());
                Ok(ShellStep::Acknowledge)
            },
            Command::A_CLSE => Ok(ShellStep::Finished),
            cmd => Err(AdbError::UnexpectedCommand(cmd)),
        }
    }

    /// The collected output.
    pub fn into_bytes(self) -> (r: Vec<u8>)
        ensures
            r@ == self@,
    {
        self.buf
    }
}

} // verus!
