//! Rendering of small numbers as text, shared by the labels of the header's
//! fields.

use vstd::prelude::*;

verus! {

/// The decimal digit for `d` (`d < 10`).
pub open spec fn digit_text(d: nat) -> Seq<char> {
    if d == 0 {
        "0"@
    } else if d == 1 {
        "1"@
    } else if d == 2 {
        "2"@
    } else if d == 3 {
        "3"@
    } else if d == 4 {
        "4"@
    } else if d == 5 {
        "5"@
    } else if d == 6 {
        "6"@
    } else if d == 7 {
        "7"@
    } else if d == 8 {
        "8"@
    } else {
        "9"@
    }
}

/// The decimal representation of `n`, without leading zeros.
pub open spec fn decimal_text(n: nat) -> Seq<char>
    decreases n,
{
    if n < 10 {
        digit_text(n)
    } else {
        decimal_text(n / 10) + digit_text(n % 10)
    }
}

fn digit(d: u8) -> (r: &'static str)
    requires
        d < 10,
    ensures
        r@ == digit_text(d as nat),
{
    match d {
        0 => "0",
        1 => "1",
        2 => "2",
        3 => "3",
        4 => "4",
        5 => "5",
        6 => "6",
        7 => "7",
        8 => "8",
        _ => "9",
    }
}

/// Writes `n` in decimal.
pub fn decimal(n: u8) -> (r: String)
    ensures
        r@ == decimal_text(n as nat),
{
    if n < 10 {
        String::from_str(digit(n))
    } else if n < 100 {
        let mut s = String::from_str(digit(n / 10));
        s.append(digit(n % 10));
        assert(decimal_text(n as nat / 10) == digit_text(n as nat / 10));
        s
    } else {
        let mut s = String::from_str(digit(n / 100));
        s.append(digit(n / 10 % 10));
        s.append(digit(n % 10));
        let ghost m = n as nat / 10;
        assert(m / 10 == n as nat / 100);
        assert(decimal_text(m / 10) == digit_text(n as nat / 100));
        assert(decimal_text(m) == decimal_text(m / 10) + digit_text(m % 10));
        assert(decimal_text(n as nat) == decimal_text(m) + digit_text(n as nat % 10));
        assert(s@ == digit_text(n as nat / 100) + digit_text(m % 10) + digit_text(n as nat % 10));
        s
    }
}

/// `prefix` followed by the decimal form of `n` and a closing parenthesis,
/// as in `Oth(17)`.
pub open spec fn wrapped_number_text(prefix: Seq<char>, n: u8) -> Seq<char> {
    prefix + decimal_text(n as nat) + ")"@
}

/// The label of a fallback variant holding the raw byte `n`.
pub fn other_label(n: u8) -> (r: String)
    ensures
        r@ == wrapped_number_text("Oth("@, n),
{
    let mut s = String::from_str("Oth(");
    let d = decimal(n);
    s.append(d.as_str());
    s.append(")");
    s
}

} // verus!
