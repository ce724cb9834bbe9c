//! Decimal text of integers, as log messages and answers show them.

use vstd::prelude::*;

verus! {

/// The decimal digit `d` (below ten) as text.
pub open spec fn digit_text(d: int) -> Seq<char> {
    if d == 0 {
        "0"@
    } else if d == 1 {
        "1"@
    } else if d == 2 {
        "2"@
    } else if d == 3 {
        "3"@
    } else if d == 4 {
        "4"@
    } else if d == 5 {
        "5"@
    } else if d == 6 {
        "6"@
    } else if d == 7 {
        "7"@
    } else if d == 8 {
        "8"@
    } else {
        "9"@
    }
}

/// The decimal text of `n`, without leading zeros.
pub open spec fn decimal_text(n: nat) -> Seq<char>
    decreases n,
{
    if n < 10 {
        digit_text(n as int)
    } else {
        decimal_text(n / 10) + digit_text((n % 10) as int)
    }
}

fn digit(d: u64) -> (t: String)
    requires
        d < 10,
    ensures
        t@ == digit_text(d as int),
{
    match d {
        0 => String::from_str("0"),
        1 => String::from_str("1"),
        2 => String::from_str("2"),
        3 => String::from_str("3"),
        4 => String::from_str("4"),
        5 => String::from_str("5"),
        6 => String::from_str("6"),
        7 => String::from_str("7"),
        8 => String::from_str("8"),
        _ => String::from_str("9"),
    }
}

/// The decimal text of `n`, without leading zeros.
pub fn decimal(n: u64) -> (t: String)
    ensures
        t@ == decimal_text(n as nat),
    decreases n,
{
    if n < 10 {
        digit(n)
    } else {
        let head = decimal(n / 10);
        let last = digit(n % 10);
        head.concat(last.as_str())
    }
}

/// The decimal text of `n`, with a minus sign when it is negative.
pub open spec fn signed_decimal_text(n: int) -> Seq<char> {
    if n < 0 {
        "-"@ + decimal_text((-n) as nat)
    } else {
        decimal_text(n as nat)
    }
}

/// The decimal text of `n`, with a minus sign when it is negative.
pub fn signed_decimal(n: i64) -> (t: String)
    ensures
        t@ == signed_decimal_text(n as int),
{
    if n < 0 {
        let magnitude: u64 = if n == i64::MIN {
            9_223_372_036_854_775_808u64
        } else {
            (-n) as u64
        };
        String::from_str("-").concat(decimal(magnitude).as_str())
    } else {
        decimal(n as u64)
    }
}

/// `opening`, then `inner`, then a closing bracket.
pub fn bracketed(opening: &str, inner: String) -> (t: String)
    ensures
        t@ == opening@ + inner@ + ")"@,
{
    let t = String::from_str(opening).concat(inner.as_str());
    t.concat(")")
}

} // verus!
