//! Host-side client for the Android Debug Bridge wire protocol: packet
//! framing, the multiplexing decisions of a session, and the SYNC
//! file-transfer sub-protocol.
use vstd::prelude::*;

pub mod utils;
pub mod result;
pub mod message;
pub mod connect;
pub mod session;
pub mod client;
pub mod sync;
pub mod push;
pub mod shell;

pub use client::AdbClient;
pub use message::{Command, Header};
pub use utils::{crc, crc_seed};

verus! {

/// Protocol version announced in the CNXN handshake.
pub const VERSION: u32 = 0x01000000;

/// Largest payload this host accepts in a single packet.
pub const MAX_DATA: u32 = 0x100000;

} // verus!
