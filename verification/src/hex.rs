//! Hexadecimal digits: the mathematical meaning of a hex digit character,
//! conversions between nibble values and characters, and the round-trip
//! facts that the address formatting and parsing proofs rest on.
use vstd::prelude::*;

verus! {

/// A character that is a hexadecimal digit: `0`-`9`, `a`-`f` or `A`-`F`.
pub open spec fn is_hex_digit(c: char) -> bool {
    (48 <= c as u32 <= 57) || (97 <= c as u32 <= 102) || (65 <= c as u32 <= 70)
}

/// A character that is an uppercase hexadecimal digit: `0`-`9` or `A`-`F`.
pub open spec fn is_upper_hex_digit(c: char) -> bool {
    (48 <= c as u32 <= 57) || (65 <= c as u32 <= 70)
}

/// The numeric value of a hex digit character.
pub open spec fn hex_digit_value(c: char) -> u8
    recommends
        is_hex_digit(c),
{
    if 48 <= c as u32 <= 57 {
        (c as u32 - 48) as u8
    } else if 97 <= c as u32 <= 102 {
        (c as u32 - 87) as u8
    } else {
        (c as u32 - 55) as u8
    }
}

/// The uppercase hex digit character for a nibble value.
pub open spec fn upper_hex_digit(n: u8) -> char
    recommends
        n < 16,
{
    if n < 10 {
        ((48 + n) as u8) as char
    } else {
        ((55 + n) as u8) as char
    }
}

/// A nibble value always prints as an uppercase hex digit, and reading that
/// digit back yields the nibble.
pub proof fn lemma_upper_hex_digit_value(n: u8)
    requires
        n < 16,
    ensures
        is_upper_hex_digit(upper_hex_digit(n)),
        is_hex_digit(upper_hex_digit(n)),
        hex_digit_value(upper_hex_digit(n)) == n,
{
}

/// Printing the value of an uppercase hex digit yields the digit itself.
pub proof fn lemma_upper_hex_digit_round_trip(c: char)
    requires
        is_upper_hex_digit(c),
    ensures
        hex_digit_value(c) < 16,
        upper_hex_digit(hex_digit_value(c)) == c,
{
}

/// The numeric value of a hex digit character.
pub fn hex_digit_value_exec(c: char) -> (r: u8)
    requires
        is_hex_digit(c),
    ensures
        r == hex_digit_value(c),
        r < 16,
{
    let n = c as u32;
    if 48 <= n && n <= 57 {
        (n - 48) as u8
    } else if 97 <= n && n <= 102 {
        (n - 87) as u8
    } else {
        (n - 55) as u8
    }
}

/// The uppercase hex digit character for a nibble value.
pub fn upper_hex_digit_exec(n: u8) -> (r: char)
    requires
        n < 16,
    ensures
        r == upper_hex_digit(n),
{
    if n < 10 {
        (48 + n) as char
    } else {
        (55 + n) as char
    }
}

/// The high nibble of a byte.
pub fn high_nibble(b: u8) -> (r: u8)
    ensures
        r == b / 16,
        r < 16,
{
    proof {
        assert(b >> 4 == b / 16 && b >> 4 < 16) by (bit_vector);
    }
    b >> 4
}

/// The low nibble of a byte.
pub fn low_nibble(b: u8) -> (r: u8)
    ensures
        r == b % 16,
        r < 16,
{
    proof {
        assert((b & 0xF) == b % 16 && (b & 0xF) < 16) by (bit_vector);
    }
    b & 0xF
}

/// Relies on String::push: appends exactly the one character.
#[verifier::external_body]
pub(crate) fn push_char(s: &mut String, c: char)
    ensures
        final(s)@ == old(s)@.push(c),
{
    s.push(c);
}

/// Appends the uppercase hex pair for `b` to `s`.
pub(crate) fn push_hex_pair(s: &mut String, b: u8)
    ensures
        final(s)@ == old(s)@.push(upper_hex_digit(b / 16)).push(upper_hex_digit(b % 16)),
{
    push_char(s, upper_hex_digit_exec(high_nibble(b)));
    push_char(s, upper_hex_digit_exec(low_nibble(b)));
}

} // verus!
