//! The handshake decisions, the packets of a logical stream, and how a
//! stream is opened and addressed.
use vstd::prelude::*;
use vstd::utf8::encode_utf8;

use crate::connect::Connect;
use crate::message::{header_bytes, magic_of, Command, Header};
use crate::result::{unexpected_opcode_error, AdbError, AdbResult};
use crate::session::Session;
use crate::utils::{append_bytes, checksum, lossy_string, utf8_lossy};

verus! {

/// A host that is about to connect, known by its system identity.
#[derive(Debug)]
pub struct AdbClient {
    system_identity: String,
}

impl View for AdbClient {
    type V = Seq<char>;

    closed spec fn view(&self) -> Seq<char> {
        self.system_identity@
    }
}

/// What a handshake reply with opcode `command` means: only CNXN lets the
/// session proceed.
pub open spec fn handshake_outcome(command: u32) -> Result<(), AdbError> {
    match Command::spec_from_u32(command) {
        Some(Command::A_CNXN) => Ok(()),
        Some(Command::A_AUTH) => Err(AdbError::AuthNotSupported),
        Some(c) => Err(AdbError::UnexpectedCommand(c)),
        None => Err(AdbError::UnknownCommand(command)),
    }
}

impl AdbClient {
    pub fn new(system_identity: &str) -> (r: Self)
        ensures
            r@ == system_identity@,
    {
        AdbClient { system_identity: system_identity.to_owned() }
    }

    pub fn system_identity(&self) -> (r: &String)
        ensures
            r@ == self@,
    {
        &self.system_identity
    }

    /// The bytes of the CNXN packet this client opens a session with.
    pub fn handshake_request(&self) -> (r: Vec<u8>)
        requires
            encode_utf8(self@).len() <= u32::MAX,
        ensures
            r@ == header_bytes(crate::connect::cnxn_header(encode_utf8(self@))) + encode_utf8(
                self@,
            ),
    {
        Connect::new(self.system_identity.as_str()).encode()
    }

    /// Judges the header the device answered the handshake with.
    pub fn handshake_reply(reply: &Header) -> (r: AdbResult<()>)
        ensures
            r == handshake_outcome(reply.command),
    {
        match Command::from_u32(reply.command) {
            Some(Command::A_CNXN) => Ok(()),
            Some(Command::A_AUTH) => Err(AdbError::AuthNotSupported),
            Some(c) => Err(AdbError::UnexpectedCommand(c)),
            None => Err(AdbError::UnknownCommand(reply.command)),
        }
    }

    /// Finishes the handshake from the device's reply and its payload: the
    /// session records the device's version and maximum payload.
    pub fn establish(self, reply: &Header, payload: Vec<u8>) -> (r: AdbResult<Session>)
        ensures
            handshake_outcome(reply.command) is Err ==> r == Err::<Session, AdbError>(
                handshake_outcome(reply.command)->Err_0,
            ),
            handshake_outcome(reply.command) is Ok && checksum(payload@, 0) != reply.data_crc32
                ==> r == Err::<Session, AdbError>(AdbError::Crc),
            handshake_outcome(reply.command) is Ok && checksum(payload@, 0) == reply.data_crc32
                ==> (r matches Ok(s) && s.device_version() == reply.arg0 && s.device_max_data()
                == reply.arg1 && s.device_identity() == utf8_lossy(payload@) && s.identity()
                == self@ && s.last_local_id() == 0),
    {
        match Self::handshake_reply(reply) {
            Err(e) => return Err(e),
            Ok(()) => {},
        }
        let data = match reply.decode_data(payload) {
            Err(e) => return Err(e),
            Ok(d) => d,
        };
        let device = lossy_string(data.as_slice());
        Ok(Session::new(self.system_identity, device, reply.arg0, reply.arg1))
    }
}

/// A packet as the transport carries it: a header and its payload.
#[derive(Debug)]
pub struct ConnectionPacket {
    pub header: Header,
    pub payload: Vec<u8>,
}

/// The bytes of one packet on the wire: header, then payload.
pub open spec fn frame_bytes(p: (Header, Seq<u8>)) -> Seq<u8> {
    header_bytes(p.0) + p.1
}

/// The bytes the writer emits for `packets`, taken in order, each written
/// whole before the next.
pub open spec fn wire(packets: Seq<(Header, Seq<u8>)>) -> Seq<u8>
    decreases packets.len(),
{
    if packets.len() == 0 {
        Seq::empty()
    } else {
        wire(packets.drop_last()) + frame_bytes(packets.last())
    }
}

/// On the wire, all bytes of the first `i` packets come before any byte of
/// the packets after them: the output for the first `j` packets is the
/// output for the first `i`, followed by the output for packets `i..j`.
pub proof fn lemma_wire_in_order(packets: Seq<(Header, Seq<u8>)>, i: int, j: int)
    requires
        0 <= i <= j <= packets.len(),
    ensures
        wire(packets.take(j)) == wire(packets.take(i)) + wire(packets.subrange(i, j)),
    decreases j - i,
{
    if i == j {
        assert(packets.subrange(i, j) =~= Seq::<(Header, Seq<u8>)>::empty());
        assert(wire(packets.take(i)) + Seq::<u8>::empty() =~= wire(packets.take(i)));
    } else {
        lemma_wire_in_order(packets, i, j - 1);
        assert(packets.take(j).drop_last() =~= packets.take(j - 1));
        assert(packets.subrange(i, j).drop_last() =~= packets.subrange(i, j - 1));
        assert(packets.take(j).last() == packets[j - 1]);
        assert(packets.subrange(i, j).last() == packets[j - 1]);
        assert(wire(packets.take(j)) =~= wire(packets.take(i)) + wire(packets.subrange(i, j)));
    }
}

impl ConnectionPacket {
    /// The packet's bytes as one contiguous write: header, then payload.
    pub fn frame(&self) -> (r: Vec<u8>)
        ensures
            r@ == frame_bytes((self.header, self.payload@)),
    {
        let mut out = self.header.encode();
        append_bytes(&mut out, self.payload.as_slice());
        out
    }
}

/// A packet as a stream's user sees it: a known command and a payload.
#[derive(Debug)]
pub struct AdbStreamPacket {
    pub command: Command,
    pub payload: Vec<u8>,
}

impl AdbStreamPacket {
    /// A WRTE carrying `payload`.
    pub fn new_write(payload: &[u8]) -> (r: Self)
        ensures
            r.command == Command::A_WRTE,
            r.payload@ == payload@,
    {
        let mut bytes: Vec<u8> = Vec::new();
        append_bytes(&mut bytes, payload);
        AdbStreamPacket { command: Command::A_WRTE, payload: bytes }
    }

    /// An OKAY with no payload.
    pub fn okay() -> (r: Self)
        ensures
            r.command == Command::A_OKAY,
            r.payload@ == Seq::<u8>::empty(),
    {
        let r = AdbStreamPacket { command: Command::A_OKAY, payload: Vec::new() };
        assert(r.payload@ =~= Seq::<u8>::empty());
        r
    }

    /// A CLSE with no payload.
    pub fn close() -> (r: Self)
        ensures
            r.command == Command::A_CLSE,
            r.payload@ == Seq::<u8>::empty(),
    {
        let r = AdbStreamPacket { command: Command::A_CLSE, payload: Vec::new() };
        assert(r.payload@ =~= Seq::<u8>::empty());
        r
    }

    /// Fails with `UnexpectedCommand` unless this packet carries `cmd`.
    pub fn check_command(&self, cmd: Command) -> (r: AdbResult<()>)
        ensures
            self.command == cmd ==> r == Ok::<(), AdbError>(()),
            self.command != cmd ==> r == Err::<(), AdbError>(
                AdbError::UnexpectedCommand(self.command),
            ),
    {
        if self.command != cmd {
            Err(AdbError::UnexpectedCommand(self.command))
        } else {
            Ok(())
        }
    }

    /// What a stream's user receives for an inbound packet: its command, or
    /// `UnknownCommand` for an opcode outside the enumeration.
    pub fn from_wire(header: &Header, payload: Vec<u8>) -> (r: AdbResult<AdbStreamPacket>)
        ensures
            Command::spec_from_u32(header.command) is None ==> r == Err::<
                AdbStreamPacket,
                AdbError,
            >(AdbError::UnknownCommand(header.command)),
            Command::spec_from_u32(header.command) matches Some(c) ==> (r matches Ok(p)
                && p.command == c && p.payload@ == payload@),
    {
        match Command::from_u32(header.command) {
            Some(c) => Ok(AdbStreamPacket { command: c, payload }),
            None => Err(AdbError::UnknownCommand(header.command)),
        }
    }
}

/// The header that carries `payload` with `command` from `local` to `remote`.
pub open spec fn stream_header(command: Command, local: u32, remote: u32, payload: Seq<u8>) -> Header {
    Header {
        command: command.opcode(),
        arg0: local,
        arg1: remote,
        data_length: payload.len() as u32,
        data_crc32: checksum(payload, 0),
        magic: magic_of(command.opcode()),
    }
}

/// The two ends of an open stream.
#[derive(Debug, Clone, Copy, PartialEq, Eq, Structural)]
pub struct StreamIds {
    /// The id this host assigned.
    pub local_id: u32,
    /// The id the device assigned.
    pub remote_id: u32,
}

/// The payload of an OPEN: the destination and one NUL byte.
pub open spec fn open_payload(destination: Seq<u8>) -> Seq<u8> {
    destination.push(0u8)
}

impl StreamIds {
    /// The packet that asks the device to open `destination` under `local_id`.
    pub fn open_request(local_id: u32, destination: &[u8]) -> (r: ConnectionPacket)
        requires
            destination@.len() < u32::MAX,
        ensures
            r.payload@ == open_payload(destination@),
            r.header == stream_header(Command::A_OPEN, local_id, 0, open_payload(destination@)),
    {
        let mut payload: Vec<u8> = Vec::new();
        append_bytes(&mut payload, destination);
        payload.push(0u8);
        assert(payload@ =~= open_payload(destination@));
        let header = Header::new(Command::A_OPEN).arg0(local_id).data(payload.as_slice()).finalize();
        ConnectionPacket { header, payload }
    }

    /// Judges the answer to an OPEN: an OKAY names both ends of the stream.
    pub fn open_reply(reply: &Header) -> (r: AdbResult<StreamIds>)
        ensures
            reply.command == Command::A_OKAY.opcode() ==> r == Ok::<StreamIds, AdbError>(
                StreamIds { local_id: reply.arg1, remote_id: reply.arg0 },
            ),
            reply.command != Command::A_OKAY.opcode() ==> r == Err::<StreamIds, AdbError>(
                unexpected_opcode_error(reply.command),
            ),
    {
        if reply.command != Command::A_OKAY.code() {
            return Err(AdbError::from_unexpected_command_u32(reply.command));
        }
        Ok(StreamIds { local_id: reply.arg1, remote_id: reply.arg0 })
    }

    /// The packet that sends `packet` on this stream.
    pub fn outbound(&self, packet: AdbStreamPacket) -> (r: ConnectionPacket)
        requires
            packet.payload@.len() <= u32::MAX,
        ensures
            r.header == stream_header(packet.command, self.local_id, self.remote_id, packet.payload@),
            r.payload@ == packet.payload@,
    {
        let header = Header::new(packet.command).arg0(self.local_id).arg1(self.remote_id).data(
            packet.payload.as_slice(),
        ).finalize();
        ConnectionPacket { header, payload: packet.payload }
    }
}

} // verus!
