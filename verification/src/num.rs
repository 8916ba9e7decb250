//! Decimal rendering of unsigned integers.

use vstd::prelude::*;
use vstd::string::*;

verus! {

/// The character for one decimal digit.
pub open spec fn dec_digit(d: nat) -> Seq<char> {
    if d == 0 {
        "0"@
    } else if d == 1 {
        "1"@
    } else if d == 2 {
        "2"@
    } else if d == 3 {
        "3"@
    } else if d == 4 {
        "4"@
    } else if d == 5 {
        "5"@
    } else if d == 6 {
        "6"@
    } else if d == 7 {
        "7"@
    } else if d == 8 {
        "8"@
    } else {
        "9"@
    }
}

/// The decimal rendering of a natural number, without leading zeros (except
/// for zero itself).
pub open spec fn dec_str_of(n: nat) -> Seq<char>
    decreases n,
{
    if n < 10 {
        dec_digit(n)
    } else {
        dec_str_of(n / 10) + dec_digit(n % 10)
    }
}

/// Renders an unsigned integer in decimal.
pub fn u64_dec_string(v: u64) -> (r: String)
    ensures
        r@ == dec_str_of(v as nat),
    decreases v,
{
    let d = v % 10;
    let piece: &'static str = if d == 0 {
        "0"
    } else if d == 1 {
        "1"
    } else if d == 2 {
        "2"
    } else if d == 3 {
        "3"
    } else if d == 4 {
        "4"
    } else if d == 5 {
        "5"
    } else if d == 6 {
        "6"
    } else if d == 7 {
        "7"
    } else if d == 8 {
        "8"
    } else {
        "9"
    };
    proof {
        assert(piece@ == dec_digit((v % 10) as nat));
    }
    if v < 10 {
        piece.to_owned()
    } else {
        let mut s = u64_dec_string(v / 10);
        s.append(piece);
        s
    }
}

} // verus!
