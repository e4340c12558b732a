//! The fixed-format status reply frame sent after a connection request.

use vstd::prelude::*;

use crate::SOCKS_VERSION;
use crate::resolver::ATYP_IPV4;

verus! {

/// Status byte for a successful connect.
pub const STATUS_SUCCESS: u8 = 0x00;

/// Status byte for a refused connection: used alike for an unsupported
/// command, an unsupported address type, and a failed dial.
pub const STATUS_CONNECTION_REFUSED: u8 = 0x05;

/// The ten-byte reply frame for a status: version, status, reserved zero, the
/// IPv4 address-type marker, then a six-byte all-zero placeholder for the
/// bound address and port.
pub open spec fn reply_seq(status: u8) -> Seq<u8> {
    seq![SOCKS_VERSION, status, 0u8, ATYP_IPV4, 0u8, 0u8, 0u8, 0u8, 0u8, 0u8]
}

/// Builds the ten-byte reply frame for a status.
pub fn encode_reply(status: u8) -> (r: Vec<u8>)
    ensures
        r@ == reply_seq(status),
{
    let mut v: Vec<u8> = Vec::new();
    v.push(SOCKS_VERSION);
    v.push(status);
    v.push(0);
    v.push(ATYP_IPV4);
    v.push(0);
    v.push(0);
    v.push(0);
    v.push(0);
    v.push(0);
    v.push(0);
    proof {
        assert(v@ =~= reply_seq(status));
    }
    v
}

} // verus!
