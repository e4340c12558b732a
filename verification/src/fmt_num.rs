//! Rendering of small integers as decimal and hexadecimal text, used when
//! building endpoint strings such as `"127.0.0.1:9"`.

use vstd::prelude::*;

verus! {

/// The character for one digit value, `0..=9` decimal, `10..=15` lowercase hex.
pub open spec fn digit_char(d: nat) -> char {
    if d == 0 {
        '0'
    } else if d == 1 {
        '1'
    } else if d == 2 {
        '2'
    } else if d == 3 {
        '3'
    } else if d == 4 {
        '4'
    } else if d == 5 {
        '5'
    } else if d == 6 {
        '6'
    } else if d == 7 {
        '7'
    } else if d == 8 {
        '8'
    } else if d == 9 {
        '9'
    } else if d == 10 {
        'a'
    } else if d == 11 {
        'b'
    } else if d == 12 {
        'c'
    } else if d == 13 {
        'd'
    } else if d == 14 {
        'e'
    } else {
        'f'
    }
}

/// The decimal rendering of `n`, most significant digit first, no leading zeros
/// (a single `'0'` for zero).
pub open spec fn dec_seq(n: nat) -> Seq<char>
    decreases n,
{
    if n < 10 {
        seq![digit_char(n)]
    } else {
        dec_seq(n / 10).push(digit_char(n % 10))
    }
}

/// The lowercase hexadecimal rendering of `n`, most significant digit first,
/// no leading zeros (a single `'0'` for zero).
pub open spec fn hex_seq(n: nat) -> Seq<char>
    decreases n,
{
    if n < 16 {
        seq![digit_char(n)]
    } else {
        hex_seq(n / 16).push(digit_char(n % 16))
    }
}

/// A one-character string for one digit value.
fn digit_str(d: u8) -> (r: &'static str)
    requires
        d < 16,
    ensures
        r@ =~= seq![digit_char(d as nat)],
{
    proof {
        reveal_strlit("0");
        reveal_strlit("1");
        reveal_strlit("2");
        reveal_strlit("3");
        reveal_strlit("4");
        reveal_strlit("5");
        reveal_strlit("6");
        reveal_strlit("7");
        reveal_strlit("8");
        reveal_strlit("9");
        reveal_strlit("a");
        reveal_strlit("b");
        reveal_strlit("c");
        reveal_strlit("d");
        reveal_strlit("e");
        reveal_strlit("f");
    }
    match d {
        0 => "0",
        1 => "1",
        2 => "2",
        3 => "3",
        4 => "4",
        5 => "5",
        6 => "6",
        7 => "7",
        8 => "8",
        9 => "9",
        10 => "a",
        11 => "b",
        12 => "c",
        13 => "d",
        14 => "e",
        _ => "f",
    }
}

/// Renders `n` in decimal.
pub fn u16_dec(n: u16) -> (r: String)
    ensures
        r@ == dec_seq(n as nat),
    decreases n,
{
    if n < 10 {
        String::from_str(digit_str(n as u8))
    } else {
        let mut s = u16_dec(n / 10);
        let d = digit_str((n % 10) as u8);
        s.append(d);
        proof {
            assert(s@ =~= dec_seq(n as nat));
        }
        s
    }
}

/// Renders `n` in lowercase hexadecimal.
pub fn u16_hex(n: u16) -> (r: String)
    ensures
        r@ == hex_seq(n as nat),
    decreases n,
{
    if n < 16 {
        String::from_str(digit_str(n as u8))
    } else {
        let mut s = u16_hex(n / 16);
        let d = digit_str((n % 16) as u8);
        s.append(d);
        proof {
            assert(s@ =~= hex_seq(n as nat));
        }
        s
    }
}

} // verus!
