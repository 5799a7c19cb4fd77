//! The string forms that non-string metadata values take when they cross to
//! the physical side, and the trusted serialization calls that produce them.

use vstd::prelude::*;

verus! {

/// One decimal digit as a character.
pub open spec fn digit_char(d: nat) -> char
    recommends
        d < 10,
{
    if d == 0 {
        '0'
    } else if d == 1 {
        '1'
    } else if d == 2 {
        '2'
    } else if d == 3 {
        '3'
    } else if d == 4 {
        '4'
    } else if d == 5 {
        '5'
    } else if d == 6 {
        '6'
    } else if d == 7 {
        '7'
    } else if d == 8 {
        '8'
    } else {
        '9'
    }
}

/// The decimal digits of a non-negative integer, most significant first,
/// with no leading zeros (a single `'0'` for zero).
pub open spec fn decimal_digits(n: nat) -> Seq<char>
    decreases n,
{
    if n < 10 {
        seq![digit_char(n)]
    } else {
        decimal_digits(n / 10) + seq![digit_char(n % 10)]
    }
}

/// The JSON text of an integer: its decimal representation, with a leading
/// `'-'` when negative.
pub open spec fn json_number(n: int) -> Seq<char> {
    if n < 0 {
        seq!['-'] + decimal_digits((-n) as nat)
    } else {
        decimal_digits(n as nat)
    }
}

/// The JSON text of a boolean.
pub open spec fn json_boolean(b: bool) -> Seq<char> {
    if b {
        "true"@
    } else {
        "false"@
    }
}

/// Relies on `serde_json::to_string` for `i64`: it writes the value's decimal
/// digits (with a leading `'-'` when negative) into an in-memory buffer, and
/// writing to that buffer cannot fail.
#[verifier::external_body]
pub(crate) fn serialize_number(n: i64) -> (r: Option<String>)
    ensures
        r is Some,
        r matches Some(s) ==> s@ == json_number(n as int),
{
    serde_json::to_string(&n).ok()
}

/// Relies on `serde_json::to_string` for `bool`: it writes exactly `true` or
/// `false` into an in-memory buffer, and writing to that buffer cannot fail.
#[verifier::external_body]
pub(crate) fn serialize_boolean(b: bool) -> (r: Option<String>)
    ensures
        r is Some,
        r matches Some(s) ==> s@ == json_boolean(b),
{
    serde_json::to_string(&b).ok()
}

} // verus!
