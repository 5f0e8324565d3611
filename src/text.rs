//! Decimal rendering of numbers inside alert messages.

use vstd::prelude::*;

verus! {

/// The character of a decimal digit.
pub open spec fn digit_char(d: nat) -> char
    recommends
        d < 10,
{
    ((d + '0' as nat) as u8) as char
}

/// The decimal digits of `n`, most significant first, without leading zeros.
pub open spec fn decimal(n: nat) -> Seq<char>
    decreases n,
{
    if n < 10 {
        seq![digit_char(n)]
    } else {
        decimal(n / 10).push(digit_char(n % 10))
    }
}

fn digit_str(d: u64) -> (s: &'static str)
    requires
        d < 10,
    ensures
        s@ == seq![digit_char(d as nat)],
{
    proof {
        reveal_strlit("0");
        reveal_strlit("1");
        reveal_strlit("2");
        reveal_strlit("3");
        reveal_strlit("4");
        reveal_strlit("5");
        reveal_strlit("6");
        reveal_strlit("7");
        reveal_strlit("8");
        reveal_strlit("9");
    }
    if d == 0 {
        "0"
    } else if d == 1 {
        "1"
    } else if d == 2 {
        "2"
    } else if d == 3 {
        "3"
    } else if d == 4 {
        "4"
    } else if d == 5 {
        "5"
    } else if d == 6 {
        "6"
    } else if d == 7 {
        "7"
    } else if d == 8 {
        "8"
    } else {
        "9"
    }
}

/// Appends the decimal digits of `n` to `s`.
pub fn push_decimal(s: &mut String, n: u64)
    ensures
        final(s)@ == old(s)@ + decimal(n as nat),
    decreases n,
{
    if n < 10 {
        s.append(digit_str(n));
    } else {
        push_decimal(s, n / 10);
        s.append(digit_str(n % 10));
    }
}

/// The message of a usage alert: what is measured, its usage and the
/// threshold it went over, both as whole percentages.
pub open spec fn over_threshold_message(subject: Seq<char>, usage: nat, threshold: nat) -> Seq<
    char,
> {
    subject + " usage is "@ + decimal(usage) + "%, over the threshold of "@ + decimal(threshold)
        + "%"@
}

/// Builds `over_threshold_message`.
pub fn over_threshold(subject: &str, usage: u64, threshold: u64) -> (r: String)
    ensures
        r@ == over_threshold_message(subject@, usage as nat, threshold as nat),
{
    let mut m = String::from_str(subject);
    m.append(" usage is ");
    push_decimal(&mut m, usage);
    m.append("%, over the threshold of ");
    push_decimal(&mut m, threshold);
    m.append("%");
    m
}

} // verus!
