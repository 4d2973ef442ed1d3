//! Display names of the indicators.

use vstd::prelude::*;

verus! {

/// The character of one decimal digit.
pub open spec fn digit_char(d: nat) -> char {
    if d == 0 {
        '0'
    } else if d == 1 {
        '1'
    } else if d == 2 {
        '2'
    } else if d == 3 {
        '3'
    } else if d == 4 {
        '4'
    } else if d == 5 {
        '5'
    } else if d == 6 {
        '6'
    } else if d == 7 {
        '7'
    } else if d == 8 {
        '8'
    } else {
        '9'
    }
}

/// `n` written in decimal, without leading zeros.
pub open spec fn decimal_digits(n: nat) -> Seq<char>
    decreases n,
{
    if n < 10 {
        seq![digit_char(n)]
    } else {
        decimal_digits(n / 10).push(digit_char(n % 10))
    }
}

/// A name followed by a period in round brackets, such as `SMA(9)`.
pub open spec fn label_text(name: Seq<char>, period: nat) -> Seq<char> {
    name + seq!['('] + decimal_digits(period) + seq![')']
}

/// `format!` of a name and a period.
///
/// Trusted: `format!` copies the name and writes the integer in decimal
/// without leading zeros.
#[verifier::external_body]
pub(crate) fn indicator_label(name: &str, period: usize) -> (r: String)
    ensures
        r@ == label_text(name@, period as nat),
{
    format!("{}({})", name, period)
}

} // verus!
