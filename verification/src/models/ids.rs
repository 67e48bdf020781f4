//! Identifiers as they appear in addresses: UUIDs in their hyphenated form.
use crate::models::hex::{all_hex, hex32, hex_number, lemma_hex32_parses};
use vstd::prelude::*;

verus! {

/// The hyphenated form of a UUID: its 32 lowercase hexadecimal digits, grouped 8-4-4-4-12.
pub open spec fn uuid_text(id: u128) -> Seq<char> {
    let h = hex32(id);
    h.subrange(0, 8) + seq!['-'] + h.subrange(8, 12) + seq!['-'] + h.subrange(12, 16) + seq![
        '-',
    ] + h.subrange(16, 20) + seq!['-'] + h.subrange(20, 32)
}

/// `c` in lower case, for ASCII letters; other characters stay.
pub open spec fn ascii_lower(c: char) -> char {
    if 'A' <= c <= 'Z' {
        ((c as u32) + 32) as char
    } else {
        c
    }
}

/// Whether `a` equals the lowercase ASCII text `b`, ignoring ASCII case.
pub open spec fn eq_ignore_ascii_case(a: Seq<char>, b: Seq<char>) -> bool {
    a.len() == b.len() && forall|i: int| 0 <= i < a.len() ==> ascii_lower(#[trigger] a[i]) == b[i]
}

/// The number that 32 hexadecimal digits of either case write, if `d` is such.
pub open spec fn uuid_digits_value(d: Seq<char>) -> Option<u128> {
    if d.len() == 32 && all_hex(d) {
        Some(hex_number(d) as u128)
    } else {
        None
    }
}

/// The 32 digits of a hyphenated UUID text, without its hyphens.
pub open spec fn hyphenated_digits(s: Seq<char>) -> Seq<char> {
    s.subrange(0, 8) + s.subrange(9, 13) + s.subrange(14, 18) + s.subrange(19, 23) + s.subrange(
        24,
        36,
    )
}

/// The UUID that a hyphenated text writes: 36 characters, hyphens at positions 8, 13, 18 and
/// 23, hexadecimal digits elsewhere.
pub open spec fn hyphenated_value(s: Seq<char>) -> Option<u128> {
    if s.len() == 36 && s[8] == '-' && s[13] == '-' && s[18] == '-' && s[23] == '-' {
        uuid_digits_value(hyphenated_digits(s))
    } else {
        None
    }
}

/// What `uuid::Uuid::try_parse` makes of `s`, as a `u128`: 32 hexadecimal digits; the
/// hyphenated form; the hyphenated form in braces; or "urn:uuid:" (in either case) followed by
/// the hyphenated form. Digits may be of either case. `None` for anything else.
pub open spec fn uuid_parsed(s: Seq<char>) -> Option<u128> {
    if s.len() == 32 {
        uuid_digits_value(s)
    } else if s.len() == 36 {
        hyphenated_value(s)
    } else if s.len() == 38 && s[0] == '{' && s[37] == '}' {
        hyphenated_value(s.subrange(1, 37))
    } else if s.len() == 45 && eq_ignore_ascii_case(s.subrange(0, 9), "urn:uuid:"@) {
        hyphenated_value(s.subrange(9, 45))
    } else {
        None
    }
}

/// The hyphenated form of an identifier parses back to it.
pub proof fn lemma_uuid_text_parses(id: u128)
    ensures
        uuid_parsed(uuid_text(id)) == Some(id),
{
    lemma_hex32_parses(id);
    let h = hex32(id);
    let t = uuid_text(id);
    assert(t.len() == 36);
    assert(t[8] == '-' && t[13] == '-' && t[18] == '-' && t[23] == '-');
    assert(hyphenated_digits(t) =~= h);
}

/// Calls `Display` of `uuid::Uuid::from_u128(id)`, which writes the hyphenated lowercase form.
#[verifier::external_body]
pub(crate) fn uuid_string(id: u128) -> (s: String)
    ensures
        s@ == uuid_text(id),
{
    uuid::Uuid::from_u128(id).to_string()
}

/// Calls `uuid::Uuid::try_parse` and gives the identifier as a `u128`; the result is
/// `uuid_parsed(s@)`. (The parser reads bytes; every text it accepts is ASCII, so counting
/// characters and counting bytes agree on it.)
#[verifier::external_body]
pub(crate) fn parse_uuid(s: &str) -> (r: Option<u128>)
    ensures
        r == uuid_parsed(s@),
{
    uuid::Uuid::try_parse(s).ok().map(|u| u.as_u128())
}

} // verus!
