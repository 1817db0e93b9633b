//! The CNXN handshake message that opens a session.
use vstd::prelude::*;
use vstd::utf8::encode_utf8;

use crate::message::{header_bytes, magic_of, Command, Header};
use crate::utils::{append_bytes, checksum};
use crate::{MAX_DATA, VERSION};

verus! {

/// The header of a CNXN packet that carries `identity` as its payload.
pub open spec fn cnxn_header(identity: Seq<u8>) -> Header {
    Header {
        command: Command::A_CNXN.opcode(),
        arg0: VERSION,
        arg1: MAX_DATA,
        data_length: identity.len() as u32,
        data_crc32: checksum(identity, 0),
        magic: magic_of(Command::A_CNXN.opcode()),
    }
}

/// The handshake announcing this host's system identity.
#[derive(Debug)]
pub struct Connect {
    system_identity: String,
}

impl View for Connect {
    type V = Seq<char>;

    closed spec fn view(&self) -> Seq<char> {
        self.system_identity@
    }
}

impl Connect {
    pub fn new(system_identity: &str) -> (r: Self)
        ensures
            r@ == system_identity@,
    {
        Connect { system_identity: system_identity.to_owned() }
    }

    /// The handshake on the wire: a CNXN header announcing the protocol
    /// version and maximum payload, then the identity without a trailing NUL.
    pub fn encode(&self) -> (r: Vec<u8>)
        requires
            encode_utf8(self@).len() <= u32::MAX,
        ensures
            r@ == header_bytes(cnxn_header(encode_utf8(self@))) + encode_utf8(self@),
    {
        let identity = self.system_identity.as_str().as_bytes();
        let header = Header::new(Command::A_CNXN).arg0(VERSION).arg1(MAX_DATA).data(
            identity,
        ).finalize();
        let mut out = header.encode();
        append_bytes(&mut out, identity);
        out
    }
}

} // verus!
