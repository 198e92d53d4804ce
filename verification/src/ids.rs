//! Identifiers. Every identifier is a UUID, held as its 128-bit value; its text is the lowercase
//! hyphenated form the `uuid` crate renders, and text is read back through `uuid`'s own parser.

use crate::text::{trim, trimmed};
use vstd::prelude::*;

verus! {

/// The lowercase hexadecimal digit for a value below 16.
pub open spec fn hex_char(n: u128) -> char {
    if n < 10 {
        (48 + n) as char
    } else {
        (87 + n) as char
    }
}

/// The 32 hexadecimal digits of an identifier, most significant first.
pub open spec fn uuid_hex(id: u128) -> Seq<char> {
    Seq::new(32, |k: int| hex_char((id >> ((124 - 4 * k) as u128)) & 15u128))
}

/// The hyphenated lowercase text of an identifier: 8-4-4-4-12 hexadecimal digits.
pub open spec fn uuid_text(id: u128) -> Seq<char> {
    let h = uuid_hex(id);
    h.subrange(0, 8) + seq!['-'] + h.subrange(8, 12) + seq!['-'] + h.subrange(12, 16) + seq!['-']
        + h.subrange(16, 20) + seq!['-'] + h.subrange(20, 32)
}

/// What `uuid::Uuid::parse_str` reads from a text, as the identifier's 128-bit value.
pub uninterp spec fn uuid_parsed(text: Seq<char>) -> Option<u128>;

/// `uuid::Uuid::from_u128(id).to_string()`: the `Display` of a `Uuid` is its lowercase hyphenated
/// form, and `from_u128` takes the value big-endian, so the first digit is the most significant.
/// `Uuid::parse_str` reads that form back as the same identifier.
#[verifier::external_body]
pub(crate) fn uuid_to_string(id: u128) -> (r: String)
    ensures
        r@ == uuid_text(id),
        uuid_parsed(r@) == Some(id),
{
    uuid::Uuid::from_u128(id).to_string()
}

/// `uuid::Uuid::parse_str`, answering the parsed value. The parser accepts every format the crate
/// renders, so the hyphenated text of an identifier reads back as that identifier; which other
/// spellings it accepts (simple, braced, URN, either case) is left to the name.
#[verifier::external_body]
pub(crate) fn parse_uuid(text: &str) -> (r: Option<u128>)
    ensures
        r == uuid_parsed(text@),
        forall|id: u128| text@ == uuid_text(id) ==> r == Some(id),
{
    match uuid::Uuid::parse_str(text) {
        Ok(id) => Some(id.as_u128()),
        Err(_) => None,
    }
}

/// The text a requested target version is compared by: an identifier is re-rendered in its
/// canonical form, anything else is only trimmed.
pub open spec fn canonical_target_text(value: Option<Seq<char>>) -> Option<Seq<char>> {
    match value {
        None => None,
        Some(text) => match uuid_parsed(text) {
            Some(id) => Some(uuid_text(id)),
            None => Some(trimmed(text)),
        },
    }
}

/// The optional view of an optional string slice.
pub open spec fn opt_str_view(value: Option<&str>) -> Option<Seq<char>> {
    match value {
        Some(text) => Some(text@),
        None => None,
    }
}

/// The optional view of an optional string.
pub open spec fn opt_string_view(value: Option<String>) -> Option<Seq<char>> {
    match value {
        Some(text) => Some(text@),
        None => None,
    }
}

/// Canonicalizes a requested target version, so an upper-case or braced spelling of the same
/// identifier compares equal downstream.
pub fn canonical_target_version(value: Option<&str>) -> (r: Option<String>)
    ensures
        opt_string_view(r) == canonical_target_text(opt_str_view(value)),
{
    match value {
        None => None,
        Some(text) => match parse_uuid(text) {
            Some(id) => Some(uuid_to_string(id)),
            None => Some(String::from_str(trim(text))),
        },
    }
}

/// Whether an optional text is absent or reads as an identifier.
pub fn valid_optional_uuid(value: Option<&str>) -> (r: bool)
    ensures
        r == match value {
            None => true,
            Some(text) => uuid_parsed(text@) is Some,
        },
{
    match value {
        None => true,
        Some(text) => parse_uuid(text).is_some(),
    }
}

/// The text of an identifier holds only lowercase hexadecimal digits and hyphens, so no `|`.
pub proof fn uuid_text_is_bar_free(id: u128)
    ensures
        forall|i: int| 0 <= i < uuid_text(id).len() ==> #[trigger] uuid_text(id)[i] != '|',
        uuid_text(id).len() == 36,
{
    let h = uuid_hex(id);
    assert forall|x: u128| #[trigger] (x & 15u128) < 16u128 by {
        assert((x & 15u128) < 16u128) by (bit_vector);
    }
    assert forall|k: int| 0 <= k < 32 implies #[trigger] h[k] != '|' by {
        let n = (id >> ((124 - 4 * k) as u128)) & 15u128;
        assert(n < 16);
    }
    let t = uuid_text(id);
    assert forall|i: int| 0 <= i < t.len() implies #[trigger] t[i] != '|' by {
        if i < 8 {
            assert(t[i] == h[i]);
        } else if i == 8 || i == 13 || i == 18 || i == 23 {
        } else if i < 13 {
            assert(t[i] == h[i - 1]);
        } else if i < 18 {
            assert(t[i] == h[i - 2]);
        } else if i < 23 {
            assert(t[i] == h[i - 3]);
        } else {
            assert(t[i] == h[i - 4]);
        }
    }
}

} // verus!
