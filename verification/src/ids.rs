//! Short identifiers derived from 128-bit identities.
//!
//! Services, environments and projects are identified by a 128-bit id; the
//! short form used in namespaces and resource names is the letter `z`
//! followed by the first eight hexadecimal digits of the id.

use vstd::prelude::*;

verus! {

/// The lowercase hexadecimal digit for a value below sixteen.
pub open spec fn hex_digit(d: int) -> char {
    if d == 0 {
        '0'
    } else if d == 1 {
        '1'
    } else if d == 2 {
        '2'
    } else if d == 3 {
        '3'
    } else if d == 4 {
        '4'
    } else if d == 5 {
        '5'
    } else if d == 6 {
        '6'
    } else if d == 7 {
        '7'
    } else if d == 8 {
        '8'
    } else if d == 9 {
        '9'
    } else if d == 10 {
        'a'
    } else if d == 11 {
        'b'
    } else if d == 12 {
        'c'
    } else if d == 13 {
        'd'
    } else if d == 14 {
        'e'
    } else {
        'f'
    }
}

/// The top 32 bits of a 128-bit id, whose eight hexadecimal digits make up
/// the short form.
pub open spec fn id_head(long_id: u128) -> int {
    long_id as int / 0x1000000000000000000000000
}

/// The short form of a 128-bit id: `z` followed by the first eight
/// hexadecimal digits.
pub open spec fn short_id_view(long_id: u128) -> Seq<char> {
    let h = id_head(long_id);
    seq![
        'z',
        hex_digit(h / 0x10000000 % 16),
        hex_digit(h / 0x1000000 % 16),
        hex_digit(h / 0x100000 % 16),
        hex_digit(h / 0x10000 % 16),
        hex_digit(h / 0x1000 % 16),
        hex_digit(h / 0x100 % 16),
        hex_digit(h / 0x10 % 16),
        hex_digit(h % 16),
    ]
}

/// The one-character string for a hexadecimal digit.
pub(crate) fn hex_digit_str(d: u64) -> (r: &'static str)
    requires
        d < 16,
    ensures
        r@ =~= seq![hex_digit(d as int)],
{
    let r: &'static str = match d {
        0 => "0",
        1 => "1",
        2 => "2",
        3 => "3",
        4 => "4",
        5 => "5",
        6 => "6",
        7 => "7",
        8 => "8",
        9 => "9",
        10 => "a",
        11 => "b",
        12 => "c",
        13 => "d",
        14 => "e",
        _ => "f",
    };
    proof {
        reveal_strlit("0");
        reveal_strlit("1");
        reveal_strlit("2");
        reveal_strlit("3");
        reveal_strlit("4");
        reveal_strlit("5");
        reveal_strlit("6");
        reveal_strlit("7");
        reveal_strlit("8");
        reveal_strlit("9");
        reveal_strlit("a");
        reveal_strlit("b");
        reveal_strlit("c");
        reveal_strlit("d");
        reveal_strlit("e");
        reveal_strlit("f");
    }
    r
}

/// Derives the short id of a 128-bit id.
pub fn to_short_id(long_id: u128) -> (r: String)
    ensures
        r@ == short_id_view(long_id),
{
    let mut s = String::new();
    proof {
        reveal_strlit("z");
    }
    s.append("z");
    let head128: u128 = long_id / 0x1000000000000000000000000u128;
    assert(long_id / 0x1000000000000000000000000u128 < 0x100000000u128) by (nonlinear_arith);
    let head: u64 = head128 as u64;
    let d0: u64 = head / 0x10000000 % 16;
    let d1: u64 = head / 0x1000000 % 16;
    let d2: u64 = head / 0x100000 % 16;
    let d3: u64 = head / 0x10000 % 16;
    let d4: u64 = head / 0x1000 % 16;
    let d5: u64 = head / 0x100 % 16;
    let d6: u64 = head / 0x10 % 16;
    let d7: u64 = head % 16;
    s.append(hex_digit_str(d0));
    s.append(hex_digit_str(d1));
    s.append(hex_digit_str(d2));
    s.append(hex_digit_str(d3));
    s.append(hex_digit_str(d4));
    s.append(hex_digit_str(d5));
    s.append(hex_digit_str(d6));
    s.append(hex_digit_str(d7));
    assert(s@ =~= short_id_view(long_id));
    s
}

} // verus!
