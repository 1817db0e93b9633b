//! Connection-level commands and the fixed 24-byte packet header.
use vstd::prelude::*;

use crate::result::{AdbError, AdbResult};
use crate::utils::{byte_sum, checksum, crc};

verus! {

/// The connection-level opcodes.
#[allow(non_camel_case_types)]
#[derive(Debug, Copy, Clone, PartialEq, Eq, Structural)]
pub enum Command {
    A_SYNC,
    A_CNXN,
    A_AUTH,
    A_OPEN,
    A_OKAY,
    A_CLSE,
    A_WRTE,
}

impl Command {
    /// The 32-bit opcode: the command's four-letter tag read little-endian.
    pub open spec fn opcode(self) -> u32 {
        match self {
            Command::A_SYNC => 0x434e5953,
            Command::A_CNXN => 0x4e584e43,
            Command::A_AUTH => 0x48545541,
            Command::A_OPEN => 0x4e45504f,
            Command::A_OKAY => 0x59414b4f,
            Command::A_CLSE => 0x45534c43,
            Command::A_WRTE => 0x45545257,
        }
    }

    /// The command whose opcode is `v`, if any.
    pub open spec fn spec_from_u32(v: u32) -> Option<Command> {
        if v == 0x434e5953 {
            Some(Command::A_SYNC)
        } else if v == 0x4e584e43 {
            Some(Command::A_CNXN)
        } else if v == 0x48545541 {
            Some(Command::A_AUTH)
        } else if v == 0x4e45504f {
            Some(Command::A_OPEN)
        } else if v == 0x59414b4f {
            Some(Command::A_OKAY)
        } else if v == 0x45534c43 {
            Some(Command::A_CLSE)
        } else if v == 0x45545257 {
            Some(Command::A_WRTE)
        } else {
            None
        }
    }

    pub fn code(self) -> (r: u32)
        ensures
            r == self.opcode(),
    {
        match self {
            Command::A_SYNC => 0x434e5953,
            Command::A_CNXN => 0x4e584e43,
            Command::A_AUTH => 0x48545541,
            Command::A_OPEN => 0x4e45504f,
            Command::A_OKAY => 0x59414b4f,
            Command::A_CLSE => 0x45534c43,
            Command::A_WRTE => 0x45545257,
        }
    }

    pub fn from_u32(v: u32) -> (r: Option<Command>)
        ensures
            r == Command::spec_from_u32(v),
    {
        if v == 0x434e5953 {
            Some(Command::A_SYNC)
        } else if v == 0x4e584e43 {
            Some(Command::A_CNXN)
        } else if v == 0x48545541 {
            Some(Command::A_AUTH)
        } else if v == 0x4e45504f {
            Some(Command::A_OPEN)
        } else if v == 0x59414b4f {
            Some(Command::A_OKAY)
        } else if v == 0x45534c43 {
            Some(Command::A_CLSE)
        } else if v == 0x45545257 {
            Some(Command::A_WRTE)
        } else {
            None
        }
    }
}

/// The four bytes of `v`, least significant first.
pub open spec fn le_bytes(v: u32) -> Seq<u8> {
    seq![
        (v & 0xff) as u8,
        ((v >> 8u32) & 0xff) as u8,
        ((v >> 16u32) & 0xff) as u8,
        ((v >> 24u32) & 0xff) as u8,
    ]
}

/// The little-endian `u32` stored in `s` at offset `off`.
pub open spec fn le_u32_at(s: Seq<u8>, off: int) -> u32 {
    (s[off] as u32) | ((s[off + 1] as u32) << 8u32) | ((s[off + 2] as u32) << 16u32) | ((
    s[off + 3] as u32) << 24u32)
}

pub proof fn lemma_le_round_trip(v: u32)
    ensures
        le_u32_at(le_bytes(v), 0) == v,
{
    let b0 = (v & 0xff) as u8;
    let b1 = ((v >> 8u32) & 0xff) as u8;
    let b2 = ((v >> 16u32) & 0xff) as u8;
    let b3 = ((v >> 24u32) & 0xff) as u8;
    assert((b0 as u32) | ((b1 as u32) << 8u32) | ((b2 as u32) << 16u32) | ((b3 as u32)
        << 24u32) == v) by (bit_vector)
        requires
            b0 == (v & 0xff) as u8,
            b1 == ((v >> 8u32) & 0xff) as u8,
            b2 == ((v >> 16u32) & 0xff) as u8,
            b3 == ((v >> 24u32) & 0xff) as u8,
    ;
}

/// Appends the little-endian bytes of `v`.
pub fn push_u32_le(buf: &mut Vec<u8>, v: u32)
    ensures
        final(buf)@ == old(buf)@ + le_bytes(v),
{
    buf.push((v & 0xff) as u8);
    buf.push(((v >> 8u32) & 0xff) as u8);
    buf.push(((v >> 16u32) & 0xff) as u8);
    buf.push(((v >> 24u32) & 0xff) as u8);
    assert(final(buf)@ =~= old(buf)@ + le_bytes(v));
}

/// Reads the little-endian `u32` at offset `off`.
pub fn read_u32_le(b: &[u8], off: usize) -> (r: u32)
    requires
        off + 4 <= b@.len(),
    ensures
        r == le_u32_at(b@, off as int),
{
    (b[off] as u32) | ((b[off + 1] as u32) << 8u32) | ((b[off + 2] as u32) << 16u32) | ((b[off
        + 3] as u32) << 24u32)
}

/// The fixed 24-byte packet header; all fields travel little-endian.
#[derive(Debug, Clone, Copy, PartialEq, Eq, Structural)]
pub struct Header {
    pub command: u32,
    pub arg0: u32,
    pub arg1: u32,
    pub data_length: u32,
    pub data_crc32: u32,
    pub magic: u32,
}

/// The magic that goes with an opcode.
pub open spec fn magic_of(command: u32) -> u32 {
    command ^ 0xffffffff
}

/// The 24 bytes of `h` on the wire; the magic is always derived from the opcode.
pub open spec fn header_bytes(h: Header) -> Seq<u8> {
    le_bytes(h.command) + le_bytes(h.arg0) + le_bytes(h.arg1) + le_bytes(h.data_length)
        + le_bytes(h.data_crc32) + le_bytes(magic_of(h.command))
}

/// The header read from 24 bytes.
pub open spec fn parse_header(b: Seq<u8>) -> Header {
    Header {
        command: le_u32_at(b, 0),
        arg0: le_u32_at(b, 4),
        arg1: le_u32_at(b, 8),
        data_length: le_u32_at(b, 12),
        data_crc32: le_u32_at(b, 16),
        magic: le_u32_at(b, 20),
    }
}

impl Header {
    /// Starts a header for `command`, with a matching magic and all other fields zero.
    pub fn new(command: Command) -> (r: HeaderBuilder)
        ensures
            r@ == (Header {
                command: command.opcode(),
                arg0: 0,
                arg1: 0,
                data_length: 0,
                data_crc32: 0,
                magic: magic_of(command.opcode()),
            }),
    {
        let code = command.code();
        HeaderBuilder {
            inner: Header {
                command: code,
                arg0: 0,
                arg1: 0,
                data_length: 0,
                data_crc32: 0,
                magic: code ^ 0xffffffff,
            },
        }
    }

    pub fn get_command(&self) -> (r: Option<Command>)
        ensures
            r == Command::spec_from_u32(self.command),
    {
        Command::from_u32(self.command)
    }

    /// The 24 bytes of this header on the wire.
    pub fn encode(&self) -> (r: Vec<u8>)
        ensures
            r@ == header_bytes(*self),
            r@.len() == 24,
    {
        let mut buf: Vec<u8> = Vec::with_capacity(24);
        push_u32_le(&mut buf, self.command);
        push_u32_le(&mut buf, self.arg0);
        push_u32_le(&mut buf, self.arg1);
        push_u32_le(&mut buf, self.data_length);
        push_u32_le(&mut buf, self.data_crc32);
        push_u32_le(&mut buf, self.command ^ 0xffffffff);
        buf
    }

    /// Reads a header from exactly 24 bytes; `None` for any other length.
    pub fn decode(buf: &[u8]) -> (r: Option<Header>)
        ensures
            buf@.len() == 24 ==> r == Some(parse_header(buf@)),
            buf@.len() != 24 ==> r.is_none(),
    {
        if buf.len() != 24 {
            return None;
        }
        Some(
            Header {
                command: read_u32_le(buf, 0),
                arg0: read_u32_le(buf, 4),
                arg1: read_u32_le(buf, 8),
                data_length: read_u32_le(buf, 12),
                data_crc32: read_u32_le(buf, 16),
                magic: read_u32_le(buf, 20),
            },
        )
    }

    /// Accepts a received payload when its checksum is the one this header announces.
    pub fn decode_data(&self, data: Vec<u8>) -> (r: AdbResult<Vec<u8>>)
        ensures
            checksum(data@, 0) == self.data_crc32 ==> r == Ok::<Vec<u8>, AdbError>(data),
            checksum(data@, 0) != self.data_crc32 ==> r == Err::<Vec<u8>, AdbError>(
                AdbError::Crc,
            ),
    {
        if crc(data.as_slice()) != self.data_crc32 {
            return Err(AdbError::Crc);
        }
        Ok(data)
    }
}

/// A header under construction.
#[derive(Debug, Clone, Copy)]
pub struct HeaderBuilder {
    /// The header as built so far.
    pub inner: Header,
}

impl View for HeaderBuilder {
    type V = Header;

    open spec fn view(&self) -> Header {
        self.inner
    }
}

impl<'a> From<&'a Header> for HeaderBuilder {
    /// A builder holding the fields of `header`, with the magic derived
    /// from its command.
    fn from(header: &'a Header) -> (r: HeaderBuilder) {
        HeaderBuilder { inner: Header { magic: header.command ^ 0xffffffff, ..*header } }
    }
}

impl<'a> vstd::std_specs::convert::FromSpecImpl<&'a Header> for HeaderBuilder {
    open spec fn obeys_from_spec() -> bool {
        true
    }

    open spec fn from_spec(header: &'a Header) -> HeaderBuilder {
        HeaderBuilder { inner: Header { magic: magic_of(header.command), ..*header } }
    }
}

impl HeaderBuilder {
    /// A builder holding the fields of `header`, with the magic derived
    /// from its command.
    pub fn from_header(header: &Header) -> (r: HeaderBuilder)
        ensures
            r@ == (Header { magic: magic_of(header.command), ..*header }),
    {
        HeaderBuilder::from(header)
    }

    pub fn arg0(self, v: u32) -> (r: Self)
        ensures
            r@ == (Header { arg0: v, ..self@ }),
    {
        HeaderBuilder { inner: Header { arg0: v, ..self.inner } }
    }

    pub fn arg1(self, v: u32) -> (r: Self)
        ensures
            r@ == (Header { arg1: v, ..self@ }),
    {
        HeaderBuilder { inner: Header { arg1: v, ..self.inner } }
    }

    /// Sets the payload length and checksum from `v`.
    pub fn data(self, v: &[u8]) -> (r: Self)
        requires
            v@.len() <= u32::MAX,
        ensures
            r@ == (Header {
                data_length: v@.len() as u32,
                data_crc32: checksum(v@, 0),
                ..self@
            }),
    {
        HeaderBuilder { inner: Header { data_length: v.len() as u32, data_crc32: crc(v), ..self.inner } }
    }

    pub fn finalize(self) -> (r: Header)
        ensures
            r == self@,
    {
        self.inner
    }
}

/// The bytes of an encoded header carry a magic that is the complement of the opcode.
pub proof fn lemma_encoded_magic(h: Header)
    ensures
        parse_header(header_bytes(h)).magic ^ parse_header(header_bytes(h)).command == 0xffffffffu32,
{
    lemma_header_bytes_fields(h);
    let c = h.command;
    assert((c ^ 0xffffffffu32) ^ c == 0xffffffffu32) by (bit_vector);
}

/// Every header built by this library, from `Header::new` or from an
/// existing header, and then any of `arg0`, `arg1` and `data`, carries a
/// magic whose XOR with the command is all ones.
pub proof fn lemma_built_header_magic(b: HeaderBuilder, v: u32, data: Seq<u8>)
    requires
        b@.magic == magic_of(b@.command),
    ensures
        (Header { arg0: v, ..b@ }).magic ^ (Header { arg0: v, ..b@ }).command == 0xffffffffu32,
        (Header { arg1: v, ..b@ }).magic ^ (Header { arg1: v, ..b@ }).command == 0xffffffffu32,
        (Header { data_length: data.len() as u32, data_crc32: checksum(data, 0), ..b@ }).magic
            ^ b@.command == 0xffffffffu32,
        forall|c: Command| #![auto] magic_of(c.opcode()) ^ c.opcode() == 0xffffffffu32,
        forall|h: Header| #![auto] magic_of(h.command) ^ h.command == 0xffffffffu32,
{
    assert forall|x: u32| #![auto] (x ^ 0xffffffffu32) ^ x == 0xffffffffu32 by {
        assert((x ^ 0xffffffffu32) ^ x == 0xffffffffu32) by (bit_vector);
    }
}

/// Decoding the encoding of a header gives back all six fields, for every
/// header whose magic matches its opcode (as every built header's does).
pub proof fn lemma_header_round_trip(h: Header)
    requires
        h.magic == magic_of(h.command),
    ensures
        parse_header(header_bytes(h)) == h,
{
    lemma_header_bytes_fields(h);
}

/// A header built with payload `data` carries, once encoded and decoded,
/// the byte sum of `data` modulo 2^32 as its checksum.
pub proof fn lemma_checksum_survives_encoding(base: Header, data: Seq<u8>)
    requires
        data.len() <= u32::MAX,
    ensures
        ({
            let h = Header { data_length: data.len() as u32, data_crc32: checksum(data, 0), ..base };
            parse_header(header_bytes(h)).data_crc32 == byte_sum(data) % 0x1_0000_0000
        }),
{
    let h = Header { data_length: data.len() as u32, data_crc32: checksum(data, 0), ..base };
    lemma_header_bytes_fields(h);
}

/// Each field read back from the encoding is the one written, the magic being derived.
pub proof fn lemma_header_bytes_fields(h: Header)
    ensures
        header_bytes(h).len() == 24,
        parse_header(header_bytes(h)) == (Header { magic: magic_of(h.command), ..h }),
{
    let b = header_bytes(h);
    assert(b.subrange(0, 4) =~= le_bytes(h.command));
    assert(b.subrange(4, 8) =~= le_bytes(h.arg0));
    assert(b.subrange(8, 12) =~= le_bytes(h.arg1));
    assert(b.subrange(12, 16) =~= le_bytes(h.data_length));
    assert(b.subrange(16, 20) =~= le_bytes(h.data_crc32));
    assert(b.subrange(20, 24) =~= le_bytes(magic_of(h.command)));
    lemma_le_at_offset(b, le_bytes(h.command), 0);
    lemma_le_at_offset(b, le_bytes(h.arg0), 4);
    lemma_le_at_offset(b, le_bytes(h.arg1), 8);
    lemma_le_at_offset(b, le_bytes(h.data_length), 12);
    lemma_le_at_offset(b, le_bytes(h.data_crc32), 16);
    lemma_le_at_offset(b, le_bytes(magic_of(h.command)), 20);
    lemma_le_round_trip(h.command);
    lemma_le_round_trip(h.arg0);
    lemma_le_round_trip(h.arg1);
    lemma_le_round_trip(h.data_length);
    lemma_le_round_trip(h.data_crc32);
    lemma_le_round_trip(magic_of(h.command));
}

/// Reading at `off` depends only on the four bytes there.
pub proof fn lemma_le_at_offset(b: Seq<u8>, part: Seq<u8>, off: int)
    requires
        part.len() == 4,
        0 <= off,
        off + 4 <= b.len(),
        b.subrange(off, off + 4) == part,
    ensures
        le_u32_at(b, off) == le_u32_at(part, 0),
{
    assert(b[off] == part[0]);
    assert(b[off + 1] == part[1]);
    assert(b[off + 2] == part[2]);
    assert(b[off + 3] == part[3]);
}

} // verus!
