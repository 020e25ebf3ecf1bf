use vstd::prelude::*;
use primitive_types::{U128, U256};

verus! {

/// Whether `c` is a hexadecimal digit, in either case.
pub open spec fn is_hex_digit(c: char) -> bool {
    ('0' <= c && c <= '9') || ('a' <= c && c <= 'f') || ('A' <= c && c <= 'F')
}

/// The value of a hexadecimal digit.
pub open spec fn hex_digit_value(c: char) -> nat {
    if '0' <= c && c <= '9' {
        (c as nat - '0' as nat) as nat
    } else if 'a' <= c && c <= 'f' {
        (c as nat - 'a' as nat + 10) as nat
    } else {
        (c as nat - 'A' as nat + 10) as nat
    }
}

/// The value of a sequence of hexadecimal digits, most significant first.
pub open spec fn hex_value(s: Seq<char>) -> nat
    decreases s.len(),
{
    if s.len() == 0 {
        0
    } else {
        hex_value(s.drop_last()) * 16 + hex_digit_value(s.last())
    }
}

/// Whether every character of `s` is a hexadecimal digit.
pub open spec fn all_hex(s: Seq<char>) -> bool {
    forall|i: int| 0 <= i < s.len() ==> is_hex_digit(#[trigger] s[i])
}

/// The whitespace that the quantity decoder passes over.
pub open spec fn is_blank(c: char) -> bool {
    c == ' ' || c == '\r' || c == '\n' || c == '\t'
}

/// Whether `s` holds a character that is neither a hexadecimal digit nor
/// whitespace.
pub open spec fn has_stray_char(s: Seq<char>) -> bool {
    exists|i: int| 0 <= i < s.len() && !is_hex_digit(#[trigger] s[i]) && !is_blank(s[i])
}

/// The text of a quantity without its `0x` prefix, where it has one.
pub open spec fn hex_body(s: Seq<char>) -> Seq<char> {
    if s.len() >= 2 && s[0] == '0' && s[1] == 'x' {
        s.subrange(2, s.len() as int)
    } else {
        s
    }
}

/// Whether a JSON string is a quantity read as the value of its digits: an
/// optional `0x`, then one to `max_digits` hexadecimal digits.
pub open spec fn is_plain_quantity(s: Seq<char>, max_digits: nat) -> bool {
    0 < hex_body(s).len() <= max_digits && all_hex(hex_body(s))
}

/// Whether a JSON string is refused as a quantity of at most `max_digits`
/// digits: no digits, too many, or a character that is no digit.
pub open spec fn is_bad_quantity(s: Seq<char>, max_digits: nat) -> bool {
    hex_body(s).len() == 0 || hex_body(s).len() > max_digits || has_stray_char(hex_body(s))
}

/// The value of a quantity string.
pub open spec fn quantity_value(s: Seq<char>) -> nat {
    hex_value(hex_body(s))
}

/// The value of four 64-bit words, least significant first.
pub open spec fn words_value(w: Seq<u64>) -> nat {
    w[0] as nat + w[1] as nat * 0x1_0000_0000_0000_0000 + w[2] as nat
        * 0x1_0000_0000_0000_0000_0000_0000_0000_0000 + w[3] as nat
        * 0x1_0000_0000_0000_0000_0000_0000_0000_0000_0000_0000_0000_0000
}

/// Relies on `primitive_types::U128`'s `FromStr` (uint's hex parser): an
/// optional `0x`, then at most 32 hexadecimal digits; an empty digit string
/// reads as zero.
#[verifier::external_body]
pub(crate) fn parse_hex_u128(text: &str) -> (r: Option<u128>)
    ensures
        hex_body(text@).len() <= 32 && all_hex(hex_body(text@)) ==> r is Some
            && r.unwrap() as nat == quantity_value(text@),
        hex_body(text@).len() > 32 ==> r is None,
        !all_hex(hex_body(text@)) ==> r is None,
{
    text.parse::<U128>().ok().map(|v| v.as_u128())
}

/// Relies on primitive_types' serde decoding of `U128` (impl-serde's hex
/// reader) from a JSON string through `serde_json::from_value`.
#[verifier::external_body]
pub(crate) fn decode_u128(text: &str) -> (r: Result<u128, String>)
    ensures
        is_plain_quantity(text@, 32) ==> r is Ok && r.unwrap() as nat
            == quantity_value(text@),
        is_bad_quantity(text@, 32) ==> r is Err,
{
    let value = serde_json::Value::String(text.to_string());
    serde_json::from_value::<U128>(value).map(|v| v.as_u128()).map_err(|e| e.to_string())
}

/// Relies on primitive_types' serde decoding of `U256` (impl-serde's hex
/// reader) from a JSON string through `serde_json::from_value`; the result
/// is the number's four words, least significant first.
#[verifier::external_body]
pub(crate) fn decode_u256(text: &str) -> (r: Result<[u64; 4], String>)
    ensures
        is_plain_quantity(text@, 64) ==> r is Ok && words_value(r.unwrap()@)
            == quantity_value(text@),
        is_bad_quantity(text@, 64) ==> r is Err,
{
    let value = serde_json::Value::String(text.to_string());
    serde_json::from_value::<U256>(value).map(|v| v.0).map_err(|e| e.to_string())
}

} // verus!
