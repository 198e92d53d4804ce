//! The approval surface's cursors: a `|`-separated text of a version tag, the scope it was issued
//! for and the position it marks, carried as unpadded URL-safe base64 of its UTF-8 bytes. A cursor
//! decodes under the scope it was issued for to the position it was encoded from, and under no
//! other scope. Instants are what a `chrono::DateTime<Utc>` holds, written as RFC 3339 text.

use crate::ids::{opt_string_view, parse_uuid, uuid_parsed, uuid_text, uuid_text_is_bar_free, uuid_to_string};
use crate::text::{bar_free, split_bar_fields, split_bars, split_bars_append, str_equal, views_of};
use base64::Engine;
use vstd::prelude::*;
use vstd::utf8::{decode_utf8, encode_utf8, valid_utf8};

verus! {

/// The unpadded URL-safe base64 text `base64` renders for a byte sequence.
pub uninterp spec fn base64_text(bytes: Seq<u8>) -> Seq<char>;

/// The bytes `base64` reads from an unpadded URL-safe base64 text, if it is one.
pub uninterp spec fn base64_bytes(text: Seq<char>) -> Option<Seq<u8>>;

/// The RFC 3339 text `chrono` renders for the `DateTime<Utc>` at `seconds` since the Unix epoch
/// and `nanos` into that second, or nothing when no `DateTime<Utc>` is that instant.
pub uninterp spec fn rfc3339_rendered(seconds: i64, nanos: u32) -> Option<Seq<char>>;

/// The instant `chrono` reads from an RFC 3339 text, as its seconds since the Unix epoch and its
/// nanoseconds into that second, if the text is one.
pub uninterp spec fn rfc3339_instant(text: Seq<char>) -> Option<(i64, u32)>;

/// The seconds since the Unix epoch of the instants in years 0 to 9999, the years RFC 3339
/// writes with four digits.
pub open spec fn four_digit_year(seconds: i64) -> bool {
    -62_167_219_200 <= seconds <= 253_402_300_799
}

/// `base64::engine::general_purpose::URL_SAFE_NO_PAD.encode`. Decoding the text with the same
/// engine gives the bytes back. The engine panics when the encoded length overflows `usize`,
/// which the length bound rules out.
#[verifier::external_body]
fn base64_encode(bytes: &[u8]) -> (r: String)
    requires
        bytes@.len() <= usize::MAX / 4,
    ensures
        r@ == base64_text(bytes@),
        base64_bytes(r@) == Some(bytes@),
{
    base64::engine::general_purpose::URL_SAFE_NO_PAD.encode(bytes)
}

/// `base64::engine::general_purpose::URL_SAFE_NO_PAD.decode`, answering the bytes or nothing for a
/// text that is not unpadded URL-safe base64.
#[verifier::external_body]
fn base64_decode(text: &str) -> (r: Option<Vec<u8>>)
    ensures
        match r {
            Some(bytes) => base64_bytes(text@) == Some(bytes@),
            None => base64_bytes(text@) is None,
        },
{
    match base64::engine::general_purpose::URL_SAFE_NO_PAD.decode(text) {
        Ok(bytes) => Some(bytes),
        Err(_) => None,
    }
}

/// `String::from_utf8`: valid UTF-8 becomes the string it encodes, anything else an error.
#[verifier::external_body]
fn string_from_utf8(bytes: Vec<u8>) -> (r: Option<String>)
    ensures
        match r {
            Some(text) => valid_utf8(bytes@) && text@ == decode_utf8(bytes@),
            None => !valid_utf8(bytes@),
        },
{
    match String::from_utf8(bytes) {
        Ok(text) => Some(text),
        Err(_) => None,
    }
}

/// `chrono::DateTime::<Utc>::from_timestamp(seconds, nanos)`, rendered with `to_rfc3339()`, or
/// nothing when no `DateTime<Utc>` is that instant. The text is written with digits, `-`, `T`, `:`,
/// `.` and `+` only, in at most 38 characters (a signed year of up to six digits, up to nine
/// fraction digits, the `+00:00` offset). An instant of a year from 0 to 9999 with fewer than a
/// second's nanoseconds is a `DateTime<Utc>`, and `DateTime::parse_from_rfc3339` reads its text back
/// as the same instant.
#[verifier::external_body]
fn rfc3339_text(seconds: i64, nanos: u32) -> (r: Option<String>)
    ensures
        opt_string_view(r) == rfc3339_rendered(seconds, nanos),
        r is Some ==> bar_free(r->0@) && r->0@.len() <= 38,
        four_digit_year(seconds) && nanos < 1_000_000_000 ==> r is Some && rfc3339_instant(r->0@) == Some((seconds, nanos)),
{
    match chrono::DateTime::<chrono::Utc>::from_timestamp(seconds, nanos) {
        Some(instant) => Some(instant.to_rfc3339()),
        None => None,
    }
}

/// `chrono::DateTime::parse_from_rfc3339(text)`, taken as the instant's `timestamp()` and
/// `timestamp_subsec_nanos()`.
#[verifier::external_body]
fn parse_rfc3339(text: &str) -> (r: Option<(i64, u32)>)
    ensures
        r == rfc3339_instant(text@),
{
    match chrono::DateTime::parse_from_rfc3339(text) {
        Ok(instant) => Some((instant.timestamp(), instant.timestamp_subsec_nanos())),
        Err(_) => None,
    }
}

/// A UTF-8 encoding takes at most four bytes per character.
proof fn encode_utf8_len(chars: Seq<char>)
    ensures
        encode_utf8(chars).len() <= 4 * chars.len(),
    decreases chars.len(),
{
    if chars.len() > 0 {
        encode_utf8_len(chars.drop_first());
    }
}

/// The text a cursor carries: its characters' UTF-8 bytes, read back from the base64.
pub open spec fn cursor_text(value: Seq<char>) -> Option<Seq<char>> {
    match base64_bytes(value) {
        Some(bytes) => if valid_utf8(bytes) {
            Some(decode_utf8(bytes))
        } else {
            None
        },
        None => None,
    }
}

/// The cursor a text is carried in.
pub open spec fn encoded_cursor(text: Seq<char>) -> Seq<char> {
    base64_text(encode_utf8(text))
}

/// Carries a text as a cursor.
fn encode(text: &str) -> (r: String)
    requires
        text@.len() <= 1000,
    ensures
        r@ == encoded_cursor(text@),
        cursor_text(r@) == Some(text@),
{
    proof {
        encode_utf8_len(text@);
        vstd::utf8::encode_utf8_valid_utf8(text@);
        vstd::utf8::encode_utf8_decode_utf8(text@);
    }
    base64_encode(text.as_bytes())
}

/// Reads the text a cursor carries.
fn decode(value: &str) -> (r: Option<String>)
    ensures
        match r {
            Some(text) => cursor_text(value@) == Some(text@),
            None => cursor_text(value@) is None,
        },
{
    match base64_decode(value) {
        Some(bytes) => string_from_utf8(bytes),
        None => None,
    }
}

/// The version tag every cursor starts with.
pub open spec fn version_tag() -> Seq<char> {
    seq!['v', '1']
}

/// The text of an optional scope: the identifier, or `null` for none.
pub open spec fn scope_text(value: Option<u128>) -> Seq<char> {
    match value {
        Some(id) => uuid_text(id),
        None => seq!['n', 'u', 'l', 'l'],
    }
}

/// The text of an optional scope.
fn optional_uuid(value: Option<u128>) -> (r: String)
    ensures
        r@ == scope_text(value),
{
    match value {
        Some(id) => uuid_to_string(id),
        None => {
            proof { reveal_strlit("null"); }
            String::from_str("null")
        },
    }
}

proof fn scope_text_is_bar_free(value: Option<u128>)
    ensures
        bar_free(scope_text(value)),
        scope_text(value).len() <= 36,
{
    match value {
        Some(id) => uuid_text_is_bar_free(id),
        None => {},
    }
}

/// An instant as a `chrono::DateTime<Utc>` holds it: seconds since the Unix epoch, and the
/// nanoseconds into that second (a billion or more only within a leap second).
#[derive(PartialEq, Eq, Structural, Clone, Copy, Debug)]
pub struct CursorInstant {
    pub seconds: i64,
    pub nanos: u32,
}

/// The instant an RFC 3339 text names, if it names one.
pub open spec fn text_instant(text: Seq<char>) -> Option<CursorInstant> {
    match rfc3339_instant(text) {
        Some((seconds, nanos)) => Some(CursorInstant { seconds, nanos }),
        None => None,
    }
}

/// Reads an RFC 3339 instant.
fn parse_instant(text: &str) -> (r: Option<CursorInstant>)
    ensures
        r == text_instant(text@),
{
    match parse_rfc3339(text) {
        Some((seconds, nanos)) => Some(CursorInstant { seconds, nanos }),
        None => None,
    }
}

/// An instant that reads back from its own RFC 3339 text: a year from 0 to 9999, and fewer than a
/// second's nanoseconds.
pub open spec fn round_trips(instant: CursorInstant) -> bool {
    four_digit_year(instant.seconds) && instant.nanos < 1_000_000_000
}

/// A position in the approval inbox.
#[derive(PartialEq, Eq, Structural, Clone, Copy, Debug)]
pub struct ApprovalCursor {
    pub requested_at: CursorInstant,
    pub id: u128,
}

/// The text of an approval cursor: the version tag, the organization and project scopes, the
/// RFC 3339 text of the requirement's requested-at instant and its identifier.
pub open spec fn approval_cursor_text(organization: Option<u128>, project: Option<u128>, instant: Seq<char>, id: u128) -> Seq<char> {
    let ghost bar = seq!['|'];
    version_tag() + bar + scope_text(organization) + bar + scope_text(project) + bar + instant + bar + uuid_text(id)
}

/// What a cursor decodes to under a scope: five fields, the version tag, the same organization
/// and project scopes, an RFC 3339 instant and an identifier; anything else is an error.
pub open spec fn approval_cursor_spec(value: Seq<char>, organization: Option<u128>, project: Option<u128>) -> Result<ApprovalCursor, ()> {
    match cursor_text(value) {
        None => Err(()),
        Some(text) => {
            let parts = split_bars(text);
            if parts.len() != 5 || parts[0] != version_tag() || parts[1] != scope_text(organization)
                || parts[2] != scope_text(project) {
                Err(())
            } else {
                match (text_instant(parts[3]), uuid_parsed(parts[4])) {
                    (Some(requested_at), Some(id)) => Ok(ApprovalCursor { requested_at, id }),
                    _ => Err(()),
                }
            }
        },
    }
}

/// The text of an encoded cursor, or the empty text for none.
pub open spec fn cursor_value(r: Option<String>) -> Seq<char> {
    match r {
        Some(c) => c@,
        None => Seq::empty(),
    }
}

/// Encodes a position of the approval inbox under its scope: nothing for an instant no
/// `DateTime<Utc>` is. The cursor decodes under the same scope to the position its instant's text
/// reads back as (the same position for an instant of a year from 0 to 9999), and under any other
/// scope to an error.
pub fn encode_approval_cursor(organization: Option<u128>, project: Option<u128>, requested_at: CursorInstant, id: u128) -> (r: Option<String>)
    ensures
        match rfc3339_rendered(requested_at.seconds, requested_at.nanos) {
            Some(t) => {
                &&& r is Some
                &&& cursor_value(r) == encoded_cursor(approval_cursor_text(organization, project, t, id))
                &&& approval_cursor_spec(cursor_value(r), organization, project) == match text_instant(t) {
                    Some(instant) => Ok::<ApprovalCursor, ()>(ApprovalCursor { requested_at: instant, id }),
                    None => Err(()),
                }
            },
            None => r is None,
        },
        round_trips(requested_at) ==> r is Some && approval_cursor_spec(cursor_value(r), organization, project)
            == Ok::<ApprovalCursor, ()>(ApprovalCursor { requested_at, id }),
        forall|o: Option<u128>, p: Option<u128>|
            r is Some && (scope_text(o) != scope_text(organization) || scope_text(p) != scope_text(project))
                ==> #[trigger] approval_cursor_spec(cursor_value(r), o, p) is Err,
{
    proof { reveal_strlit("v1"); reveal_strlit("|"); }
    let instant = match rfc3339_text(requested_at.seconds, requested_at.nanos) {
        Some(text) => text,
        None => return None,
    };
    let mut text = String::from_str("v1");
    text.append("|");
    let scope = optional_uuid(organization);
    text.append(scope.as_str());
    text.append("|");
    let scope = optional_uuid(project);
    text.append(scope.as_str());
    text.append("|");
    text.append(instant.as_str());
    text.append("|");
    let id_text = uuid_to_string(id);
    text.append(id_text.as_str());
    let ghost s1 = scope_text(organization);
    let ghost s2 = scope_text(project);
    let ghost t = instant@;
    let ghost u = uuid_text(id);
    let ghost bar = seq!['|'];
    assert(text@ =~= approval_cursor_text(organization, project, t, id));
    proof {
        scope_text_is_bar_free(organization);
        scope_text_is_bar_free(project);
        uuid_text_is_bar_free(id);
        let v = version_tag();
        assert(bar_free(v));
        split_bars_append(Seq::empty(), v);
        split_bars_append(v, s1);
        split_bars_append(v + bar + s1, s2);
        split_bars_append(v + bar + s1 + bar + s2, t);
        split_bars_append(v + bar + s1 + bar + s2 + bar + t, u);
        let parts = split_bars(text@);
        assert(parts =~= seq![v, s1, s2, t, u]);
    }
    Some(encode(text.as_str()))
}

/// Decodes an approval inbox cursor under the scope it must have been issued for: no cursor is
/// no position, and a cursor that does not decode under the scope is an error.
pub fn decode_approval_cursor(value: Option<&str>, organization: Option<u128>, project: Option<u128>) -> (r: Result<Option<ApprovalCursor>, ()>)
    ensures
        r == match value {
            None => Ok(None),
            Some(v) => match approval_cursor_spec(v@, organization, project) {
                Ok(cursor) => Ok(Some(cursor)),
                Err(e) => Err(e),
            },
        },
{
    let value = match value {
        None => return Ok(None),
        Some(value) => value,
    };
    let text = match decode(value) {
        Some(text) => text,
        None => return Err(()),
    };
    let parts = split_bar_fields(text.as_str());
    let ghost fields = views_of(parts@);
    proof {
        reveal_strlit("v1");
        assert("v1"@ =~= version_tag());
    }
    if parts.len() != 5 {
        return Err(());
    }
    assert(fields[0] == parts@[0]@);
    if !str_equal(parts[0].as_str(), "v1") {
        return Err(());
    }
    let scope = optional_uuid(organization);
    if !str_equal(parts[1].as_str(), scope.as_str()) {
        assert(fields[1] == parts@[1]@);
        return Err(());
    }
    let scope = optional_uuid(project);
    if !str_equal(parts[2].as_str(), scope.as_str()) {
        assert(fields[1] == parts@[1]@ && fields[2] == parts@[2]@);
        return Err(());
    }
    assert(fields[1] == parts@[1]@ && fields[2] == parts@[2]@ && fields[3] == parts@[3]@ && fields[4] == parts@[4]@);
    let requested_at = match parse_instant(parts[3].as_str()) {
        Some(instant) => instant,
        None => return Err(()),
    };
    let id = match parse_uuid(parts[4].as_str()) {
        Some(id) => id,
        None => return Err(()),
    };
    Ok(Some(ApprovalCursor { requested_at, id }))
}

/// A position in a requirement's decision list.
#[derive(PartialEq, Eq, Structural, Clone, Copy, Debug)]
pub struct ApprovalDecisionCursor {
    pub requirement_id: u128,
    pub decided_at: CursorInstant,
    pub id: u128,
}

/// The text of a decision cursor: the version tag, the requirement, the RFC 3339 text of the
/// decision's instant and its identifier.
pub open spec fn decision_cursor_text(requirement_id: u128, instant: Seq<char>, id: u128) -> Seq<char> {
    let ghost bar = seq!['|'];
    version_tag() + bar + uuid_text(requirement_id) + bar + instant + bar + uuid_text(id)
}

/// What a decision cursor decodes to: four fields, the version tag, an identifier, an RFC 3339
/// instant and an identifier; anything else is an error.
pub open spec fn decision_cursor_spec(value: Seq<char>) -> Result<ApprovalDecisionCursor, ()> {
    match cursor_text(value) {
        None => Err(()),
        Some(text) => {
            let parts = split_bars(text);
            if parts.len() != 4 || parts[0] != version_tag() {
                Err(())
            } else {
                match (uuid_parsed(parts[1]), text_instant(parts[2]), uuid_parsed(parts[3])) {
                    (Some(requirement_id), Some(decided_at), Some(id)) => Ok(
                        ApprovalDecisionCursor { requirement_id, decided_at, id },
                    ),
                    _ => Err(()),
                }
            }
        },
    }
}

/// Encodes a position of a requirement's decision list: nothing for an instant no
/// `DateTime<Utc>` is. The cursor decodes to the position its instant's text reads back as (the
/// same position for an instant of a year from 0 to 9999).
pub fn encode_approval_decision_cursor(requirement_id: u128, decided_at: CursorInstant, id: u128) -> (r: Option<String>)
    ensures
        match rfc3339_rendered(decided_at.seconds, decided_at.nanos) {
            Some(t) => {
                &&& r is Some
                &&& cursor_value(r) == encoded_cursor(decision_cursor_text(requirement_id, t, id))
                &&& decision_cursor_spec(cursor_value(r)) == match text_instant(t) {
                    Some(instant) => Ok::<ApprovalDecisionCursor, ()>(
                        ApprovalDecisionCursor { requirement_id, decided_at: instant, id },
                    ),
                    None => Err(()),
                }
            },
            None => r is None,
        },
        round_trips(decided_at) ==> r is Some && decision_cursor_spec(cursor_value(r))
            == Ok::<ApprovalDecisionCursor, ()>(ApprovalDecisionCursor { requirement_id, decided_at, id }),
{
    proof { reveal_strlit("v1"); reveal_strlit("|"); }
    let instant = match rfc3339_text(decided_at.seconds, decided_at.nanos) {
        Some(text) => text,
        None => return None,
    };
    let mut text = String::from_str("v1");
    text.append("|");
    let requirement = uuid_to_string(requirement_id);
    text.append(requirement.as_str());
    text.append("|");
    text.append(instant.as_str());
    text.append("|");
    let id_text = uuid_to_string(id);
    text.append(id_text.as_str());
    let ghost s = uuid_text(requirement_id);
    let ghost t = instant@;
    let ghost u = uuid_text(id);
    let ghost bar = seq!['|'];
    assert(text@ =~= decision_cursor_text(requirement_id, t, id));
    proof {
        uuid_text_is_bar_free(requirement_id);
        uuid_text_is_bar_free(id);
        let v = version_tag();
        assert(bar_free(v));
        split_bars_append(Seq::empty(), v);
        split_bars_append(v, s);
        split_bars_append(v + bar + s, t);
        split_bars_append(v + bar + s + bar + t, u);
        assert(split_bars(text@) =~= seq![v, s, t, u]);
    }
    Some(encode(text.as_str()))
}

/// Decodes a decision cursor: no cursor is no position, and a cursor that does not decode is an
/// error.
pub fn decode_approval_decision_cursor(value: Option<&str>) -> (r: Result<Option<ApprovalDecisionCursor>, ()>)
    ensures
        r == match value {
            None => Ok(None),
            Some(v) => match decision_cursor_spec(v@) {
                Ok(cursor) => Ok(Some(cursor)),
                Err(e) => Err(e),
            },
        },
{
    let value = match value {
        None => return Ok(None),
        Some(value) => value,
    };
    let text = match decode(value) {
        Some(text) => text,
        None => return Err(()),
    };
    let parts = split_bar_fields(text.as_str());
    let ghost fields = views_of(parts@);
    proof {
        reveal_strlit("v1");
        assert("v1"@ =~= version_tag());
    }
    if parts.len() != 4 {
        return Err(());
    }
    assert(fields[0] == parts@[0]@ && fields[1] == parts@[1]@ && fields[2] == parts@[2]@ && fields[3] == parts@[3]@);
    if !str_equal(parts[0].as_str(), "v1") {
        return Err(());
    }
    let requirement_id = match parse_uuid(parts[1].as_str()) {
        Some(id) => id,
        None => return Err(()),
    };
    let decided_at = match parse_instant(parts[2].as_str()) {
        Some(instant) => instant,
        None => return Err(()),
    };
    let id = match parse_uuid(parts[3].as_str()) {
        Some(id) => id,
        None => return Err(()),
    };
    Ok(Some(ApprovalDecisionCursor { requirement_id, decided_at, id }))
}

} // verus!
