//! Decimal rendering of unsigned integers, as used in object names,
//! port values and replica-indexed pod names.
use vstd::prelude::*;

verus! {

/// The character for one decimal digit.
pub open spec fn dec_digit(d: nat) -> char {
    if d == 0 {
        '0'
    } else if d == 1 {
        '1'
    } else if d == 2 {
        '2'
    } else if d == 3 {
        '3'
    } else if d == 4 {
        '4'
    } else if d == 5 {
        '5'
    } else if d == 6 {
        '6'
    } else if d == 7 {
        '7'
    } else if d == 8 {
        '8'
    } else {
        '9'
    }
}

/// The decimal digits of `n`, most significant first, with no sign,
/// padding or separators; `0` is rendered as `"0"`.
pub open spec fn dec_str(n: nat) -> Seq<char>
    decreases n,
{
    if n < 10 {
        seq![dec_digit(n)]
    } else {
        dec_str(n / 10).push(dec_digit(n % 10))
    }
}

/// Relies on std's `Display` implementation for `u64`, which formats
/// the value as its plain decimal digits.
#[verifier::external_body]
pub fn fmt_u64(n: u64) -> (r: String)
    ensures
        r@ == dec_str(n as nat),
{
    format!("{n}")
}

/// Renders a `u16`, such as a port number or a pod index, in decimal.
pub fn fmt_u16(n: u16) -> (r: String)
    ensures
        r@ == dec_str(n as nat),
{
    fmt_u64(n as u64)
}

} // verus!
