//! Hexadecimal account addresses.
//!
//! An account is identified by 20 bytes, conventionally written as a
//! hexadecimal string. The grammar below is the one the blockchain crate's
//! fixed-hash parser accepts: an optional `0x` prefix, the whitespace
//! characters space, tab, carriage return and newline skipped anywhere, and
//! exactly 40 hex digits left over, read big-endian, two digits per byte.

use vstd::prelude::*;

verus! {

/// How many bytes an account address has.
pub const ADDRESS_BYTES: usize = 20;

pub open spec fn is_hex_digit(c: char) -> bool {
    ('0' <= c && c <= '9') || ('a' <= c && c <= 'f') || ('A' <= c && c <= 'F')
}

/// The numeric value of one hex digit.
pub open spec fn hex_digit_value(c: char) -> u8
    recommends
        is_hex_digit(c),
{
    if '0' <= c && c <= '9' {
        (c as int - '0' as int) as u8
    } else if 'a' <= c && c <= 'f' {
        (c as int - 'a' as int + 10) as u8
    } else {
        (c as int - 'A' as int + 10) as u8
    }
}

/// The whitespace characters the hex parser skips.
pub open spec fn is_skipped_whitespace(c: char) -> bool {
    c == ' ' || c == '\r' || c == '\n' || c == '\t'
}

/// The string with one leading `0x` removed, if it has one.
pub open spec fn strip_hex_prefix(s: Seq<char>) -> Seq<char> {
    if s.len() >= 2 && s[0] == '0' && s[1] == 'x' {
        s.skip(2)
    } else {
        s
    }
}

pub open spec fn all_hex_or_whitespace(s: Seq<char>) -> bool {
    forall|i: int| 0 <= i < s.len() ==> is_hex_digit(s[i]) || is_skipped_whitespace(s[i])
}

/// Just the hex digits of `s`, in order.
pub open spec fn hex_digits_of(s: Seq<char>) -> Seq<char> {
    s.filter(|c: char| is_hex_digit(c))
}

/// The bytes encoded by a sequence of hex digits, two digits per byte,
/// big-endian within each byte.
pub open spec fn bytes_of_hex_digits(d: Seq<char>) -> Seq<u8>
    decreases d.len(),
{
    if d.len() < 2 {
        Seq::empty()
    } else {
        seq![(hex_digit_value(d[0]) * 16 + hex_digit_value(d[1])) as u8] + bytes_of_hex_digits(
            d.skip(2),
        )
    }
}

/// What parsing an address token yields: its 20 bytes, or nothing when the
/// token is not a valid hexadecimal account address.
pub open spec fn spec_parse_address(s: Seq<char>) -> Option<Seq<u8>> {
    let t = strip_hex_prefix(s);
    if all_hex_or_whitespace(t) && hex_digits_of(t).len() == 2 * ADDRESS_BYTES {
        Some(bytes_of_hex_digits(hex_digits_of(t)))
    } else {
        None
    }
}

/// Relies on `<web3::types::H160 as core::str::FromStr>::from_str` (the
/// fixed-hash parser over rustc-hex digits): one leading `0x` is stripped,
/// space, tab, carriage return and newline are skipped anywhere, and the
/// input must hold exactly 40 hex digits, read big-endian as 20 bytes;
/// every other input is rejected.
#[verifier::external_body]
pub(crate) fn parse_eth_address(s: &str) -> (r: Option<Vec<u8>>)
    ensures
        match r {
            Some(b) => spec_parse_address(s@) == Some(b@),
            None => spec_parse_address(s@) is None,
        },
{
    match s.parse::<web3::types::H160>() {
        Ok(h) => Some(h.0.to_vec()),
        Err(_) => None,
    }
}

} // verus!
