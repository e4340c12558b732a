//! Core logic of a per-connection SOCKS5 proxy handler.
//!
//! The protocol decisions (handshake state machine, address decoding, reply
//! framing) live here as verified functions over plain bytes; the surrounding
//! network I/O drives them from outside the library.

use vstd::prelude::*;

pub mod fmt_num;
pub mod machine;
pub mod reply;
pub mod resolver;

verus! {

/// Protocol version byte common to every SOCKS5 message.
pub const SOCKS_VERSION: u8 = 0x05;

} // verus!
