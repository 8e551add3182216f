//! Fresh identifiers for workspaces, panes and library items.

use vstd::prelude::*;

verus! {

/// Whether `c` is a lower-case hexadecimal digit.
pub open spec fn is_lower_hex(c: char) -> bool {
    ('0' <= c && c <= '9') || ('a' <= c && c <= 'f')
}

/// The hyphenated lower-case text form of a UUID (`8-4-4-4-12` hex digits).
pub open spec fn is_hyphenated_uuid(s: Seq<char>) -> bool {
    &&& s.len() == 36
    &&& forall|i: int|
        0 <= i < 36 ==> if i == 8 || i == 13 || i == 18 || i == 23 {
            s[i] == '-'
        } else {
            is_lower_hex(#[trigger] s[i])
        }
}

/// A fresh random (version 4) UUID in text form.
///
/// Calls `uuid::Uuid::new_v4()` and formats it with `Display`, which the
/// `uuid` crate writes as hyphenated lower-case hex. The value is random:
/// nothing is claimed about which UUID comes back, only its text shape.
#[verifier::external_body]
pub fn new_uuid() -> (s: String)
    ensures
        is_hyphenated_uuid(s@),
{
    uuid::Uuid::new_v4().to_string()
}

/// Lower-case hexadecimal digit of a value below 16.
pub open spec fn hex_digit(n: u8) -> char {
    if n < 10 {
        (('0' as u8) + n) as char
    } else {
        (('a' as u8) + (n - 10)) as char
    }
}

/// The two lower-case hex digits of a byte, high nibble first.
pub open spec fn byte_hex(b: u8) -> Seq<char> {
    seq![hex_digit(b / 16), hex_digit(b % 16)]
}

/// Hex digits of `bytes[from..to]`.
pub open spec fn hex_run(bytes: Seq<u8>, from: int, to: int) -> Seq<char>
    decreases to - from,
{
    if to <= from {
        Seq::empty()
    } else {
        hex_run(bytes, from, to - 1) + byte_hex(bytes[to - 1])
    }
}

/// The hyphenated lower-case text of the UUID with these 16 bytes.
pub open spec fn uuid_text(bytes: Seq<u8>) -> Seq<char> {
    hex_run(bytes, 0, 4) + seq!['-'] + hex_run(bytes, 4, 6) + seq!['-'] + hex_run(bytes, 6, 8) + seq!['-']
        + hex_run(bytes, 8, 10) + seq!['-'] + hex_run(bytes, 10, 16)
}

/// The text form of the UUID held in `bytes`, or `None` unless there are
/// exactly 16 bytes.
///
/// Calls `uuid::Uuid::from_slice`, which accepts exactly 16 bytes, and
/// formats the result with `Display`: each byte as two lower-case hex
/// digits, with hyphens after the 4th, 6th, 8th and 10th byte.
#[verifier::external_body]
pub fn uuid_text_from_bytes(bytes: &[u8]) -> (r: Option<String>)
    ensures
        r is Some <==> bytes@.len() == 16,
        r matches Some(s) ==> s@ == uuid_text(bytes@),
{
    match uuid::Uuid::from_slice(bytes) {
        Ok(u) => Some(u.to_string()),
        Err(_) => None,
    }
}

/// The value of a hexadecimal digit, in either case.
pub open spec fn hex_value(c: char) -> Option<u8> {
    if '0' <= c && c <= '9' {
        Some((c as u32 - '0' as u32) as u8)
    } else if 'a' <= c && c <= 'f' {
        Some((c as u32 - 'a' as u32 + 10) as u8)
    } else if 'A' <= c && c <= 'F' {
        Some((c as u32 - 'A' as u32 + 10) as u8)
    } else {
        None
    }
}

/// The 16 bytes spelled by 32 hexadecimal digits, high nibble first.
pub open spec fn hex_bytes(d: Seq<char>) -> Option<Seq<u8>> {
    if d.len() == 32 && forall|i: int| 0 <= i < 32 ==> (#[trigger] hex_value(d[i])) is Some {
        Some(Seq::new(16, |i: int| (hex_value(d[2 * i])->0 * 16 + hex_value(d[2 * i + 1])->0) as u8))
    } else {
        None
    }
}

/// The bytes of a hyphenated UUID text (`8-4-4-4-12` digits).
pub open spec fn hyphenated_bytes(s: Seq<char>) -> Option<Seq<u8>> {
    if s.len() == 36 && s[8] == '-' && s[13] == '-' && s[18] == '-' && s[23] == '-' {
        hex_bytes(s.subrange(0, 8) + s.subrange(9, 13) + s.subrange(14, 18) + s.subrange(19, 23) + s.subrange(24, 36))
    } else {
        None
    }
}

/// The bytes of a UUID text as `uuid::Uuid::parse_str` reads it: 32 hex
/// digits, the hyphenated form, the hyphenated form in braces, or the
/// hyphenated form after `urn:uuid:` (that prefix in any case); hex digits
/// in either case. Anything else is refused.
pub open spec fn uuid_from_text(s: Seq<char>) -> Option<Seq<u8>> {
    if s.len() == 32 {
        hex_bytes(s)
    } else if s.len() == 36 {
        hyphenated_bytes(s)
    } else if s.len() == 38 && s[0] == '{' && s[37] == '}' {
        hyphenated_bytes(s.subrange(1, 37))
    } else if s.len() == 45 && crate::text::lower(s.take(9)) == "urn:uuid:"@ {
        hyphenated_bytes(s.skip(9))
    } else {
        None
    }
}

/// Parse a UUID from text: its 16 bytes, or the parser's error message.
///
/// Calls `uuid::Uuid::parse_str`; an accepted text is all ASCII, so the
/// byte-level parser and `uuid_from_text` over characters agree. The error
/// message is the parser's own and is not described.
#[verifier::external_body]
pub fn parse_uuid_text(s: &str) -> (r: Result<Vec<u8>, String>)
    ensures
        r is Ok <==> uuid_from_text(s@) is Some,
        r matches Ok(b) ==> uuid_from_text(s@) == Some(b@),
{
    match uuid::Uuid::parse_str(s) {
        Ok(u) => Ok(u.as_bytes().to_vec()),
        Err(e) => Err(e.to_string()),
    }
}

} // verus!
