//! Verified building blocks for the human-readable forms of the library's
//! values: decimal numerals and pitch-class names.

use vstd::prelude::*;

verus! {

/// The single character naming a decimal digit.
pub open spec fn digit_seq(d: int) -> Seq<char> {
    if d == 0 {
        "0"@
    } else if d == 1 {
        "1"@
    } else if d == 2 {
        "2"@
    } else if d == 3 {
        "3"@
    } else if d == 4 {
        "4"@
    } else if d == 5 {
        "5"@
    } else if d == 6 {
        "6"@
    } else if d == 7 {
        "7"@
    } else if d == 8 {
        "8"@
    } else {
        "9"@
    }
}

/// The decimal numeral of a non-negative number, most significant digit
/// first and without leading zeroes.
pub open spec fn decimal_digits(n: int) -> Seq<char>
    recommends
        n >= 0,
    decreases n,
{
    if n < 10 {
        digit_seq(n)
    } else {
        decimal_digits(n / 10) + digit_seq(n % 10)
    }
}

/// The decimal numeral of a number, with a leading minus sign when it is
/// negative.
pub open spec fn decimal_str(v: int) -> Seq<char> {
    if v < 0 {
        "-"@ + decimal_digits(-v)
    } else {
        decimal_digits(v)
    }
}

/// Returns the name of a single decimal digit.
fn digit_str(d: u8) -> (r: &'static str)
    requires
        d < 10,
    ensures
        r@ == digit_seq(d as int),
{
    match d {
        0 => "0",
        1 => "1",
        2 => "2",
        3 => "3",
        4 => "4",
        5 => "5",
        6 => "6",
        7 => "7",
        8 => "8",
        _ => "9",
    }
}

/// Renders a non-negative number as its decimal numeral.
pub(crate) fn decimal_u32(n: u32) -> (r: String)
    ensures
        r@ == decimal_digits(n as int),
    decreases n,
{
    if n < 10 {
        String::from_str(digit_str(n as u8))
    } else {
        let prefix = decimal_u32(n / 10);
        prefix.concat(digit_str((n % 10) as u8))
    }
}

/// Renders a number as its decimal numeral, with a minus sign when it is
/// negative.
pub(crate) fn decimal_i32(v: i32) -> (r: String)
    ensures
        r@ == decimal_str(v as int),
{
    if v < 0 {
        let magnitude = (-(v as i64)) as u32;
        String::from_str("-").concat(decimal_u32(magnitude).as_str())
    } else {
        decimal_u32(v as u32)
    }
}

} // verus!
