//! Decimal rendering of machine integers, with an exact character-level
//! specification.

use vstd::prelude::*;

verus! {

/// The decimal digit character of `d`.
pub open spec fn digit_seq(d: nat) -> Seq<char> {
    if d == 0 {
        "0"@
    } else if d == 1 {
        "1"@
    } else if d == 2 {
        "2"@
    } else if d == 3 {
        "3"@
    } else if d == 4 {
        "4"@
    } else if d == 5 {
        "5"@
    } else if d == 6 {
        "6"@
    } else if d == 7 {
        "7"@
    } else if d == 8 {
        "8"@
    } else {
        "9"@
    }
}

/// The decimal rendering of `n`, most significant digit first.
pub open spec fn decimal_of(n: nat) -> Seq<char>
    decreases n,
{
    if n < 10 {
        digit_seq(n)
    } else {
        decimal_of(n / 10) + digit_seq(n % 10)
    }
}

/// The decimal rendering of a signed value: a minus sign, then the digits
/// of the magnitude.
pub open spec fn decimal_of_i64(n: int) -> Seq<char> {
    if n < 0 {
        "-"@ + decimal_of((-n) as nat)
    } else {
        decimal_of(n as nat)
    }
}

/// One decimal digit as a string.
fn digit_string(d: u64) -> (r: String)
    requires
        d < 10,
    ensures
        r@ == digit_seq(d as nat),
{
    if d == 0 {
        String::from_str("0")
    } else if d == 1 {
        String::from_str("1")
    } else if d == 2 {
        String::from_str("2")
    } else if d == 3 {
        String::from_str("3")
    } else if d == 4 {
        String::from_str("4")
    } else if d == 5 {
        String::from_str("5")
    } else if d == 6 {
        String::from_str("6")
    } else if d == 7 {
        String::from_str("7")
    } else if d == 8 {
        String::from_str("8")
    } else {
        String::from_str("9")
    }
}

/// Renders an unsigned value in decimal.
pub fn u64_to_string(n: u64) -> (r: String)
    ensures
        r@ == decimal_of(n as nat),
    decreases n,
{
    if n < 10 {
        digit_string(n)
    } else {
        let high = u64_to_string(n / 10);
        let low = digit_string(n % 10);
        high.concat(low.as_str())
    }
}

/// Renders a machine index in decimal.
pub fn usize_to_string(n: usize) -> (r: String)
    ensures
        r@ == decimal_of(n as nat),
{
    u64_to_string(n as u64)
}

/// Renders a signed 32-bit value in decimal.
pub fn i32_to_string(n: i32) -> (r: String)
    ensures
        r@ == decimal_of_i64(n as int),
{
    if n < 0 {
        let magnitude: u64 = (-(n as i64)) as u64;
        let sign = String::from_str("-");
        sign.concat(u64_to_string(magnitude).as_str())
    } else {
        u64_to_string(n as u64)
    }
}

} // verus!
