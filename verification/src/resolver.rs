//! Decoding of a destination-address encoding (IPv4, domain name, or IPv6,
//! each followed by a two-byte big-endian port) into a connectable endpoint
//! string.

use vstd::prelude::*;

use crate::fmt_num::{dec_seq, hex_seq, u16_dec, u16_hex};

verus! {

/// Address-type tag for a four-byte IPv4 address.
pub const ATYP_IPV4: u8 = 0x01;

/// Address-type tag for a length-prefixed domain name.
pub const ATYP_DOMAIN: u8 = 0x03;

/// Address-type tag for a sixteen-byte IPv6 address.
pub const ATYP_IPV6: u8 = 0x04;

/// The 16-bit value of two big-endian bytes.
pub open spec fn be16(hi: u8, lo: u8) -> nat {
    (hi * 256 + lo) as nat
}

/// What `String::from_utf8_lossy` decodes a byte sequence to: UTF-8 text with
/// each invalid sequence replaced.
pub uninterp spec fn lossy_of(b: Seq<u8>) -> Seq<char>;

/// Relies on `String::from_utf8_lossy` (std): decodes bytes as UTF-8,
/// replacing invalid sequences with U+FFFD; the result depends on the bytes
/// alone, and valid UTF-8 (in particular, pure ASCII) decodes to itself.
#[verifier::external_body]
fn utf8_lossy(b: &Vec<u8>) -> (r: String)
    ensures
        r@ == lossy_of(b@),
        (forall|i: int| 0 <= i < b@.len() ==> b@[i] < 0x80) ==> r@ == b@.map_values(
            |x: u8| x as char,
        ),
{
    String::from_utf8_lossy(b).into_owned()
}

/// The endpoint text of a four-byte IPv4 address and a port:
/// `"a.b.c.d:port"`, every number in decimal.
pub open spec fn ipv4_endpoint(a: Seq<u8>, port: nat) -> Seq<char> {
    dec_seq(a[0] as nat) + seq!['.'] + dec_seq(a[1] as nat) + seq!['.'] + dec_seq(a[2] as nat)
        + seq!['.'] + dec_seq(a[3] as nat) + seq![':'] + dec_seq(port)
}

/// The endpoint text of a domain name and a port: `"name:port"`, the name
/// decoded lossily as UTF-8.
pub open spec fn domain_endpoint(name: Seq<u8>, port: nat) -> Seq<char> {
    lossy_of(name) + seq![':'] + dec_seq(port)
}

/// The endpoint text of a sixteen-byte IPv6 address and a port: the eight
/// big-endian 16-bit groups in lowercase hexadecimal, joined by colons and
/// wrapped in brackets, then `":port"`. No zero-compression is applied.
pub open spec fn ipv6_endpoint(a: Seq<u8>, port: nat) -> Seq<char> {
    seq!['['] + hex_seq(be16(a[0], a[1])) + seq![':'] + hex_seq(be16(a[2], a[3])) + seq![':']
        + hex_seq(be16(a[4], a[5])) + seq![':'] + hex_seq(be16(a[6], a[7])) + seq![':'] + hex_seq(
        be16(a[8], a[9]),
    ) + seq![':'] + hex_seq(be16(a[10], a[11])) + seq![':'] + hex_seq(be16(a[12], a[13])) + seq![
        ':',
    ] + hex_seq(be16(a[14], a[15])) + seq![']'] + seq![':'] + dec_seq(port)
}

/// How many raw bytes (address plus two port bytes) follow the request header
/// for an address type, given the domain length prefix where one applies:
/// `None` for an unsupported tag.
pub open spec fn raw_len_of(addr_type: u8, domain_len: u8) -> Option<nat> {
    if addr_type == ATYP_IPV4 {
        Some(6 as nat)
    } else if addr_type == ATYP_DOMAIN {
        Some((domain_len + 2) as nat)
    } else if addr_type == ATYP_IPV6 {
        Some(18 as nat)
    } else {
        None
    }
}

/// The endpoint text decoded from an address type and the raw bytes that
/// follow the header (address bytes, then two big-endian port bytes);
/// `None` when the tag is unsupported or the byte count does not fit it.
pub open spec fn spec_endpoint(addr_type: u8, raw: Seq<u8>) -> Option<Seq<char>> {
    if addr_type == ATYP_IPV4 && raw.len() == 6 {
        Some(ipv4_endpoint(raw.subrange(0, 4), be16(raw[4], raw[5])))
    } else if addr_type == ATYP_DOMAIN && raw.len() >= 2 {
        Some(
            domain_endpoint(
                raw.subrange(0, raw.len() - 2),
                be16(raw[raw.len() - 2], raw[raw.len() - 1]),
            ),
        )
    } else if addr_type == ATYP_IPV6 && raw.len() == 18 {
        Some(ipv6_endpoint(raw.subrange(0, 16), be16(raw[16], raw[17])))
    } else {
        None
    }
}

/// The 16-bit value of two big-endian bytes, as executable code.
pub fn be16_value(hi: u8, lo: u8) -> (r: u16)
    ensures
        r as nat == be16(hi, lo),
{
    (hi as u16) * 256 + (lo as u16)
}

/// Decodes an address type and the raw bytes that follow the request header
/// into the endpoint string to dial, or `None` for an unsupported tag or a
/// byte count that does not fit it.
pub fn resolve_endpoint(addr_type: u8, raw: &Vec<u8>) -> (r: Option<String>)
    ensures
        r is Some <==> spec_endpoint(addr_type, raw@) is Some,
        r matches Some(s) ==> spec_endpoint(addr_type, raw@) == Some(s@),
{
    if addr_type == ATYP_IPV4 && raw.len() == 6 {
        let mut s = u16_dec(raw[0] as u16);
        s.append(".");
        let o1 = u16_dec(raw[1] as u16);
        s.append(o1.as_str());
        s.append(".");
        let o2 = u16_dec(raw[2] as u16);
        s.append(o2.as_str());
        s.append(".");
        let o3 = u16_dec(raw[3] as u16);
        s.append(o3.as_str());
        s.append(":");
        let p = u16_dec(be16_value(raw[4], raw[5]));
        s.append(p.as_str());
        proof {
            reveal_strlit(".");
            reveal_strlit(":");
            assert(s@ =~= ipv4_endpoint(raw@.subrange(0, 4), be16(raw@[4], raw@[5])));
        }
        Some(s)
    } else if addr_type == ATYP_DOMAIN && raw.len() >= 2 {
        let name_len = raw.len() - 2;
        let mut name: Vec<u8> = Vec::new();
        let mut i: usize = 0;
        while i < name_len
            invariant
                i <= name_len,
                name_len == raw@.len() - 2,
                name@ == raw@.subrange(0, i as int),
            decreases name_len - i,
        {
            name.push(raw[i]);
            proof {
                assert(name@ =~= raw@.subrange(0, i + 1));
            }
            i += 1;
        }
        let mut s = utf8_lossy(&name);
        s.append(":");
        let p = u16_dec(be16_value(raw[name_len], raw[name_len + 1]));
        s.append(p.as_str());
        proof {
            reveal_strlit(":");
            assert(s@ =~= domain_endpoint(
                raw@.subrange(0, raw@.len() - 2),
                be16(raw@[raw@.len() - 2], raw@[raw@.len() - 1]),
            ));
        }
        Some(s)
    } else if addr_type == ATYP_IPV6 && raw.len() == 18 {
        let mut s = String::from_str("[");
        let g0 = u16_hex(be16_value(raw[0], raw[1]));
        s.append(g0.as_str());
        s.append(":");
        let g1 = u16_hex(be16_value(raw[2], raw[3]));
        s.append(g1.as_str());
        s.append(":");
        let g2 = u16_hex(be16_value(raw[4], raw[5]));
        s.append(g2.as_str());
        s.append(":");
        let g3 = u16_hex(be16_value(raw[6], raw[7]));
        s.append(g3.as_str());
        s.append(":");
        let g4 = u16_hex(be16_value(raw[8], raw[9]));
        s.append(g4.as_str());
        s.append(":");
        let g5 = u16_hex(be16_value(raw[10], raw[11]));
        s.append(g5.as_str());
        s.append(":");
        let g6 = u16_hex(be16_value(raw[12], raw[13]));
        s.append(g6.as_str());
        s.append(":");
        let g7 = u16_hex(be16_value(raw[14], raw[15]));
        s.append(g7.as_str());
        s.append("]");
        s.append(":");
        let p = u16_dec(be16_value(raw[16], raw[17]));
        s.append(p.as_str());
        proof {
            reveal_strlit("[");
            reveal_strlit("]");
            reveal_strlit(":");
            assert(s@ =~= ipv6_endpoint(raw@.subrange(0, 16), be16(raw@[16], raw@[17])));
        }
        Some(s)
    } else {
        None
    }
}

} // verus!
