//! Small verified text helpers: decimal and boolean rendering.

use vstd::prelude::*;
use crate::ids::hex_digit;

verus! {

/// The decimal digits of a number, most significant first.
pub open spec fn decimal_view(n: int) -> Seq<char>
    decreases n,
{
    if n < 0 {
        Seq::empty()
    } else if n < 10 {
        seq![hex_digit(n)]
    } else {
        decimal_view(n / 10) + seq![hex_digit(n % 10)]
    }
}

/// Renders a number in decimal.
pub fn u64_to_string(n: u64) -> (r: String)
    ensures
        r@ == decimal_view(n as int),
    decreases n,
{
    if n < 10 {
        let d = crate::ids::hex_digit_str(n);
        d.to_owned()
    } else {
        let mut s = u64_to_string(n / 10);
        s.append(crate::ids::hex_digit_str(n % 10));
        assert(s@ =~= decimal_view(n as int));
        s
    }
}

/// The text of a boolean: `true` or `false`.
pub open spec fn bool_view(b: bool) -> Seq<char> {
    if b {
        "true"@
    } else {
        "false"@
    }
}

/// Renders a boolean as `true` or `false`.
pub fn bool_to_string(b: bool) -> (r: &'static str)
    ensures
        r@ == bool_view(b),
{
    if b {
        "true"
    } else {
        "false"
    }
}

} // verus!
