//! The SYNC sub-protocol: 8-byte headers nested inside WRTE payloads.
use vstd::prelude::*;
use vstd::utf8::encode_utf8;

use crate::message::{le_bytes, le_u32_at, lemma_le_round_trip, push_u32_le, read_u32_le};
use crate::client::AdbStreamPacket;
use crate::message::Command;
use crate::result::{AdbError, AdbResult};
use crate::utils::{append_bytes, lossy_string, utf8_lossy};

verus! {

/// The SYNC request and response tags.
#[derive(Debug, Clone, Copy, PartialEq, Eq, Structural)]
pub enum SyncCommand {
    LIST,
    RECV,
    SEND,
    STAT,
    DATA,
    DENT,
    OKAY,
    DONE,
    QUIT,
    FAIL,
}

/// The mode a pushed file is created with: a regular file, `rw-r--r--`.
pub const DEFAULT_FILE_MODE: u32 = 0o100644;

/// The ASCII decimal digits of `n`.
pub open spec fn decimal_bytes(n: nat) -> Seq<u8>
    decreases n,
{
    if n < 10 {
        seq![(48 + n) as u8]
    } else {
        decimal_bytes(n / 10).push((48 + n % 10) as u8)
    }
}

/// Appends the decimal digits of `n`.
pub fn push_decimal(buf: &mut Vec<u8>, n: u32)
    ensures
        final(buf)@ == old(buf)@ + decimal_bytes(n as nat),
    decreases n,
{
    if n >= 10 {
        push_decimal(buf, n / 10);
    }
    buf.push((48 + n % 10) as u8);
    assert(final(buf)@ =~= old(buf)@ + decimal_bytes(n as nat));
}

/// The 8 bytes of a SYNC header.
pub open spec fn sync_header_bytes(h: SyncHeader) -> Seq<u8> {
    le_bytes(h.id) + le_bytes(h.length)
}

/// The body of a SEND request: `<path>,<mode>` with the mode in decimal.
pub open spec fn send_body(name: Seq<u8>, mode: u32) -> Seq<u8> {
    name + seq![44u8] + decimal_bytes(mode as nat)
}

/// The body of a STAT request: the path and a NUL byte.
pub open spec fn stat_body(name: Seq<u8>) -> Seq<u8> {
    name.push(0u8)
}

impl SyncCommand {
    /// The tag: four ASCII letters read little-endian.
    pub open spec fn spec_tag(self) -> u32 {
        match self {
            SyncCommand::LIST => 0x5453494c,
            SyncCommand::RECV => 0x56434552,
            SyncCommand::SEND => 0x444e4553,
            SyncCommand::STAT => 0x54415453,
            SyncCommand::DATA => 0x41544144,
            SyncCommand::DENT => 0x544e4544,
            SyncCommand::OKAY => 0x59414b4f,
            SyncCommand::DONE => 0x454e4f44,
            SyncCommand::QUIT => 0x54495551,
            SyncCommand::FAIL => 0x4c494146,
        }
    }

    pub fn tag(self) -> (r: u32)
        ensures
            r == self.spec_tag(),
    {
        match self {
            SyncCommand::LIST => 0x5453494c,
            SyncCommand::RECV => 0x56434552,
            SyncCommand::SEND => 0x444e4553,
            SyncCommand::STAT => 0x54415453,
            SyncCommand::DATA => 0x41544144,
            SyncCommand::DENT => 0x544e4544,
            SyncCommand::OKAY => 0x59414b4f,
            SyncCommand::DONE => 0x454e4f44,
            SyncCommand::QUIT => 0x54495551,
            SyncCommand::FAIL => 0x4c494146,
        }
    }

    /// A SEND request for `name`, to be created with `mode`.
    pub fn new_send(name: &str, mode: u32) -> (r: SyncPacket)
        requires
            encode_utf8(name@).len() + 19 <= u32::MAX,
        ensures
            r.header == (SyncHeader {
                id: SyncCommand::SEND.spec_tag(),
                length: send_body(encode_utf8(name@), mode).len() as u32,
            }),
            r.bytes@ == sync_header_bytes(r.header) + send_body(encode_utf8(name@), mode),
    {
        let name_bytes = name.as_bytes();
        let mut body: Vec<u8> = Vec::new();
        append_bytes(&mut body, name_bytes);
        body.push(44u8);
        push_decimal(&mut body, mode);
        assert(body@ =~= send_body(name_bytes@, mode));
        proof {
            reveal_with_fuel(pow10, 11);
            lemma_decimal_len(mode as nat, 10);
        }
        SyncPacket::framed(SyncCommand::SEND.tag(), body.as_slice())
    }

    /// A STAT request for `name`.
    pub fn new_stat(name: &str) -> (r: SyncPacket)
        requires
            encode_utf8(name@).len() + 9 <= u32::MAX,
        ensures
            r.header == (SyncHeader {
                id: SyncCommand::STAT.spec_tag(),
                length: stat_body(encode_utf8(name@)).len() as u32,
            }),
            r.bytes@ == sync_header_bytes(r.header) + stat_body(encode_utf8(name@)),
    {
        let name_bytes = name.as_bytes();
        let mut body: Vec<u8> = Vec::new();
        append_bytes(&mut body, name_bytes);
        body.push(0u8);
        assert(body@ =~= stat_body(name_bytes@));
        SyncPacket::framed(SyncCommand::STAT.tag(), body.as_slice())
    }

    /// An empty DATA chunk for packets of at most `max_size` bytes: only
    /// its header, announcing the largest body that fits.
    pub fn new_data(max_size: usize) -> (r: SyncPacket)
        requires
            8 <= max_size <= u32::MAX,
        ensures
            r.header == (SyncHeader {
                id: SyncCommand::DATA.spec_tag(),
                length: (max_size - 8) as u32,
            }),
            r.bytes@ == sync_header_bytes(r.header),
            r.capacity == max_size,
    {
        let header = SyncHeader { id: SyncCommand::DATA.tag(), length: (max_size - 8) as u32 };
        let bytes = header.bytes();
        SyncPacket { header, bytes, capacity: max_size }
    }

    /// The DONE marker that closes a file's data, carrying its mtime.
    pub fn new_done(mtime: u32) -> (r: Vec<u8>)
        ensures
            r@ == sync_header_bytes(SyncHeader { id: SyncCommand::DONE.spec_tag(), length: mtime }),
    {
        SyncHeader { id: SyncCommand::DONE.tag(), length: mtime }.bytes()
    }

    /// The QUIT request that ends a SYNC dialog.
    pub fn new_quit() -> (r: Vec<u8>)
        ensures
            r@ == sync_header_bytes(SyncHeader { id: SyncCommand::QUIT.spec_tag(), length: 0 }),
    {
        SyncHeader { id: SyncCommand::QUIT.tag(), length: 0 }.bytes()
    }
}

/// Ten to the power `k`.
pub open spec fn pow10(k: nat) -> nat
    decreases k,
{
    if k == 0 {
        1
    } else {
        10 * pow10((k - 1) as nat)
    }
}

/// A number below `10^k` has at most `k` digits.
pub proof fn lemma_decimal_len(n: nat, k: nat)
    requires
        1 <= k,
        n < pow10(k),
    ensures
        1 <= decimal_bytes(n).len() <= k,
    decreases n,
{
    if n >= 10 {
        if k == 1 {
            reveal_with_fuel(pow10, 2);
            assert(false);
        }
        let p = pow10((k - 1) as nat);
        assert(n / 10 < p) by (nonlinear_arith)
            requires
                n < 10 * p,
        ;
        lemma_decimal_len(n / 10, (k - 1) as nat);
    }
}

/// A SYNC header: a tag and a tag-dependent length.
#[derive(Debug, Clone, Copy, PartialEq, Eq, Structural)]
pub struct SyncHeader {
    pub id: u32,
    pub length: u32,
}

impl SyncHeader {
    /// Reads a header from exactly 8 bytes; `None` for any other length.
    pub fn from_bytes(bytes: &[u8]) -> (r: Option<Self>)
        ensures
            bytes@.len() == 8 ==> r == Some(parse_sync_header(bytes@)),
            bytes@.len() != 8 ==> r is None,
    {
        if bytes.len() != 8 {
            return None;
        }
        Some(SyncHeader { id: read_u32_le(bytes, 0), length: read_u32_le(bytes, 4) })
    }

    /// The 8 bytes of this header.
    pub fn bytes(&self) -> (r: Vec<u8>)
        ensures
            r@ == sync_header_bytes(*self),
    {
        let mut out: Vec<u8> = Vec::with_capacity(8);
        push_u32_le(&mut out, self.id);
        push_u32_le(&mut out, self.length);
        out
    }
}

/// The SYNC header read from 8 bytes.
pub open spec fn parse_sync_header(b: Seq<u8>) -> SyncHeader {
    SyncHeader { id: le_u32_at(b, 0), length: le_u32_at(b, 4) }
}

/// Parsing the 8-byte encoding of a SYNC header gives back the same tag and
/// length.
pub proof fn lemma_sync_header_round_trip(h: SyncHeader)
    ensures
        sync_header_bytes(h).len() == 8,
        parse_sync_header(sync_header_bytes(h)) == h,
{
    let b = sync_header_bytes(h);
    lemma_le_round_trip(h.id);
    lemma_le_round_trip(h.length);
    assert(b[0] == le_bytes(h.id)[0] && b[1] == le_bytes(h.id)[1] && b[2] == le_bytes(h.id)[2]
        && b[3] == le_bytes(h.id)[3]);
    assert(b[4] == le_bytes(h.length)[0] && b[5] == le_bytes(h.length)[1] && b[6] == le_bytes(
        h.length,
    )[2] && b[7] == le_bytes(h.length)[3]);
}

/// A SYNC request being assembled: its header, and its bytes on the wire
/// (header first), within a fixed capacity.
#[derive(Debug)]
pub struct SyncPacket {
    pub header: SyncHeader,
    pub bytes: Vec<u8>,
    /// The most bytes this packet may hold.
    pub capacity: usize,
}

impl SyncPacket {
    /// A packet with header `{id, len(body)}` followed by `body`.
    fn framed(id: u32, body: &[u8]) -> (r: SyncPacket)
        requires
            body@.len() + 8 <= u32::MAX,
        ensures
            r.header == (SyncHeader { id, length: body@.len() as u32 }),
            r.bytes@ == sync_header_bytes(r.header) + body@,
            r.capacity == body@.len() + 8,
    {
        let header = SyncHeader { id, length: body.len() as u32 };
        let mut bytes = header.bytes();
        append_bytes(&mut bytes, body);
        SyncPacket { header, bytes, capacity: body.len() + 8 }
    }

    /// Appends `data` to the packet's bytes.
    pub fn extend(&mut self, data: &[u8])
        ensures
            final(self).bytes@ == old(self).bytes@ + data@,
            final(self).header == old(self).header,
            final(self).capacity == old(self).capacity,
    {
        append_bytes(&mut self.bytes, data);
    }

    pub fn len(&self) -> (r: usize)
        ensures
            r == self.bytes@.len(),
    {
        self.bytes.len()
    }

    /// Replaces the body with `chunk`, which must fit after the 8-byte
    /// header, and updates the header's length to match; returns the body
    /// length.
    pub fn read_payload_from(&mut self, chunk: &[u8]) -> (r: usize)
        requires
            8 <= old(self).capacity <= u32::MAX,
            chunk@.len() <= old(self).capacity - 8,
        ensures
            r == chunk@.len(),
            final(self).header == (SyncHeader { id: old(self).header.id, length: r as u32 }),
            final(self).bytes@ == sync_header_bytes(final(self).header) + chunk@,
            final(self).capacity == old(self).capacity,
    {
        let header = SyncHeader { id: self.header.id, length: chunk.len() as u32 };
        let mut bytes = header.bytes();
        append_bytes(&mut bytes, chunk);
        self.header = header;
        self.bytes = bytes;
        chunk.len()
    }
}

/// The declared message length when `p` announces a SYNC failure: a WRTE
/// whose payload is exactly one SYNC header with the FAIL tag.
pub open spec fn fail_announcement(p: AdbStreamPacket) -> Option<u32> {
    if p.command == Command::A_WRTE && p.payload@.len() == 8 && le_u32_at(p.payload@, 0)
        == SyncCommand::FAIL.spec_tag() {
        Some(le_u32_at(p.payload@, 4))
    } else {
        None
    }
}

/// The failure text carried by `payload`: its first `len` bytes, or all of
/// it when shorter.
pub open spec fn fail_message(payload: Seq<u8>, len: u32) -> Seq<u8> {
    if len <= payload.len() {
        payload.take(len as int)
    } else {
        payload
    }
}

/// Peeks at an inbound packet of a SYNC stream for a FAIL announcement.
pub fn sync_fail_length(packet: &AdbStreamPacket) -> (r: Option<u32>)
    ensures
        r == fail_announcement(*packet),
{
    if packet.command == Command::A_WRTE && packet.payload.len() == 8 {
        let header = SyncHeader::from_bytes(packet.payload.as_slice());
        match header {
            Some(h) => {
                if h.id == SyncCommand::FAIL.tag() {
                    return Some(h.length);
                }
            },
            None => {},
        }
    }
    None
}

/// One step of draining after a FAIL announcement of length `len`: an OKAY
/// is acknowledged and draining goes on (`Ok`); the next WRTE carries the
/// failure text; anything else is unexpected.
pub fn fail_drain_step(packet: &AdbStreamPacket, len: u32) -> (r: AdbResult<()>)
    ensures
        packet.command == Command::A_OKAY ==> r == Ok::<(), AdbError>(()),
        packet.command == Command::A_WRTE ==> (r matches Err(AdbError::Fail(msg)) && msg@
            == utf8_lossy(fail_message(packet.payload@, len))),
        packet.command != Command::A_OKAY && packet.command != Command::A_WRTE ==> r == Err::<
            (),
            AdbError,
        >(AdbError::UnexpectedCommand(packet.command)),
{
    match packet.command {
        Command::A_OKAY => Ok(()),
        Command::A_WRTE => {
            let end: usize = if (len as usize) <= packet.payload.len() {
                len as usize
            } else {
                packet.payload.len()
            };
            let text = vstd::slice::slice_subrange(packet.payload.as_slice(), 0, end);
            assert(text@ =~= fail_message(packet.payload@, len));
            Err(AdbError::Fail(lossy_string(text)))
        },
        cmd => Err(AdbError::UnexpectedCommand(cmd)),
    }
}

/// Receiving on a SYNC stream, where any inbound packet may turn out to
/// announce a failure.
pub trait SyncStreamExt {
    /// Receives the next packet, surfacing a FAIL announcement as `Fail`.
    fn sync_recv(&self) -> AdbResult<AdbStreamPacket>;

    /// Receives the next packet and requires it to carry `cmd`.
    fn sync_recv_command(&self, cmd: Command) -> (r: AdbResult<AdbStreamPacket>)
        ensures
            r matches Ok(p) ==> p.command == cmd,
    {
        let packet = match self.sync_recv() {
            Ok(p) => p,
            Err(e) => return Err(e),
        };
        match packet.check_command(cmd) {
            Ok(()) => Ok(packet),
            Err(e) => Err(e),
        }
    }

    /// Receives the next packet and requires it to be an OKAY.
    fn sync_recv_ok(&self) -> AdbResult<()> {
        match self.sync_recv_command(Command::A_OKAY) {
            Ok(_) => Ok(()),
            Err(e) => Err(e),
        }
    }
}

} // verus!
