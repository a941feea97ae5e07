//! Hexadecimal decoding of calldata and destination addresses.
//!
//! The configuration file carries calldata and addresses as hexadecimal
//! strings; this module gives their decoding an exact specification.

use std::str::FromStr;
use vstd::prelude::*;

verus! {

/// The value of one hexadecimal digit, or `None` for any other character.
pub open spec fn hex_digit_value(c: char) -> Option<u8> {
    let n = c as u32;
    if 48 <= n <= 57 {
        // '0' ..= '9'
        Some((n - 48) as u8)
    } else if 97 <= n <= 102 {
        // 'a' ..= 'f'
        Some((n - 87) as u8)
    } else if 65 <= n <= 70 {
        // 'A' ..= 'F'
        Some((n - 55) as u8)
    } else {
        None
    }
}

/// The byte sequence a hexadecimal string denotes: two digits per byte,
/// high digit first. A string of odd length or with a non-hexadecimal
/// character denotes nothing.
pub open spec fn spec_hex_decode(s: Seq<char>) -> Option<Seq<u8>>
    decreases s.len(),
{
    if s.len() % 2 != 0 {
        None
    } else if s.len() == 0 {
        Some(Seq::empty())
    } else if hex_digit_value(s[0]) is Some && hex_digit_value(s[1]) is Some {
        match spec_hex_decode(s.subrange(2, s.len() as int)) {
            Some(rest) => Some(
                seq![(hex_digit_value(s[0])->0 * 16 + hex_digit_value(s[1])->0) as u8].add(rest),
            ),
            None => None,
        }
    } else {
        None
    }
}

/// A decoded hexadecimal string yields exactly half as many bytes as it has
/// characters.
pub proof fn lemma_hex_decode_len(s: Seq<char>)
    requires
        spec_hex_decode(s) is Some,
    ensures
        spec_hex_decode(s)->0.len() == s.len() / 2,
    decreases s.len(),
{
    if s.len() != 0 {
        lemma_hex_decode_len(s.subrange(2, s.len() as int));
    }
}

/// The whitespace characters that the address parser skips between digits.
pub open spec fn is_hex_whitespace(c: char) -> bool {
    c == ' ' || c == '\r' || c == '\n' || c == '\t'
}

/// An address string may carry one leading "0x", which is not part of the
/// digits.
pub open spec fn strip_hex_prefix(s: Seq<char>) -> Seq<char> {
    if s.len() >= 2 && s[0] == '0' && s[1] == 'x' {
        s.subrange(2, s.len() as int)
    } else {
        s
    }
}

/// The 20 address bytes a string denotes: after stripping an optional "0x"
/// prefix and skipping whitespace, exactly 40 hexadecimal digits must
/// remain, decoded big-endian two digits per byte. Anything else denotes
/// nothing.
pub open spec fn spec_parse_address(s: Seq<char>) -> Option<Seq<u8>> {
    let digits = strip_hex_prefix(s).filter(|c: char| !is_hex_whitespace(c));
    if digits.len() == 40 {
        spec_hex_decode(digits)
    } else {
        None
    }
}

/// A parsed address is exactly 20 bytes.
pub proof fn lemma_parse_address_len(s: Seq<char>)
    requires
        spec_parse_address(s) is Some,
    ensures
        spec_parse_address(s)->0.len() == 20,
{
    let digits = strip_hex_prefix(s).filter(|c: char| !is_hex_whitespace(c));
    lemma_hex_decode_len(digits);
}

/// Relies on hex::decode: pairs of hexadecimal digits decode to bytes, high
/// digit first; an odd number of digits or a non-hexadecimal character is
/// an error.
#[verifier::external_body]
pub(crate) fn hex_decode(s: &str) -> (r: Option<Vec<u8>>)
    ensures
        r is Some <==> spec_hex_decode(s@) is Some,
        r matches Some(b) ==> Some(b@) == spec_hex_decode(s@),
{
    match hex::decode(s) {
        Ok(v) => Some(v),
        Err(_) => None,
    }
}

/// Relies on web3::types::Address::from_str: it strips one optional "0x"
/// prefix, skips ASCII whitespace, and requires exactly 40 hexadecimal
/// digits, read big-endian into 20 bytes.
#[verifier::external_body]
pub(crate) fn parse_address(s: &str) -> (r: Option<Vec<u8>>)
    ensures
        r is Some <==> spec_parse_address(s@) is Some,
        r matches Some(b) ==> Some(b@) == spec_parse_address(s@),
{
    match web3::types::Address::from_str(s) {
        Ok(a) => Some(a.as_bytes().to_vec()),
        Err(_) => None,
    }
}

} // verus!
