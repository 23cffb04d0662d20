//! The few strings that are put together at run time.

use vstd::prelude::*;

verus! {

/// The character for a single decimal digit.
pub open spec fn spec_digit(d: nat) -> char {
    if d == 0 {
        '0'
    } else if d == 1 {
        '1'
    } else if d == 2 {
        '2'
    } else if d == 3 {
        '3'
    } else if d == 4 {
        '4'
    } else if d == 5 {
        '5'
    } else if d == 6 {
        '6'
    } else if d == 7 {
        '7'
    } else if d == 8 {
        '8'
    } else {
        '9'
    }
}

/// A number written in decimal digits, without sign or leading zeros.
pub open spec fn spec_decimal(n: nat) -> Seq<char>
    decreases n,
{
    if n < 10 {
        seq![spec_digit(n)]
    } else {
        spec_decimal(n / 10).push(spec_digit(n % 10))
    }
}

/// The text of the brush size indicator.
pub open spec fn spec_size_label(size: u32) -> Seq<char> {
    "size: "@ + spec_decimal(size as nat)
}

/// The name of the `index`-th part of a widget that is made of several.
pub open spec fn spec_part_name(name: Seq<char>, index: nat) -> Seq<char> {
    name + "_"@ + spec_decimal(index)
}

/// `u64`'s `ToString`, which goes through `Display`: the number in decimal
/// digits, without sign, padding or leading zeros.
#[verifier::external_body]
pub(crate) fn decimal(n: u64) -> (s: String)
    ensures
        s@ == spec_decimal(n as nat),
{
    n.to_string()
}

/// `[&str]::concat` of std: the characters of `a`, then those of `b`.
#[verifier::external_body]
pub(crate) fn joined(a: &str, b: &str) -> (s: String)
    ensures
        s@ == a@ + b@,
{
    [a, b].concat()
}

/// The text of the brush size indicator: `size: ` and the size in decimal.
pub fn size_label(size: u32) -> (label: String)
    ensures
        label@ == spec_size_label(size),
{
    let digits = decimal(size as u64);
    joined("size: ", digits.as_str())
}

/// The name under which the `index`-th part of a widget made of several is
/// kept: the widget's name, an underscore, and the index in decimal.
pub fn part_name(name: &str, index: u16) -> (part: String)
    ensures
        part@ == spec_part_name(name@, index as nat),
{
    let head = joined(name, "_");
    let digits = decimal(index as u64);
    joined(head.as_str(), digits.as_str())
}

} // verus!
