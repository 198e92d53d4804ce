//! The approval surface's cursors.

use base64::Engine;

use hive_persistence::cursors::{
    decode_approval_cursor, decode_approval_decision_cursor, encode_approval_cursor,
    encode_approval_decision_cursor, CursorInstant,
};

fn instant_of(at: chrono::DateTime<chrono::Utc>) -> CursorInstant {
    CursorInstant { seconds: at.timestamp(), nanos: at.timestamp_subsec_nanos() }
}

fn now() -> CursorInstant {
    instant_of(chrono::Utc::now())
}

/// An unscoped inbox passes neither an organization nor a project, so the absent-scope spelling
/// has to agree between the encoder and the decoder.
#[test]
fn approval_cursor_round_trips_for_every_scope_shape() {
    let requested_at = now();
    let id = 0x5a5a5a5a_0000_4000_8000_000000000001u128;
    let organization = Some(0x0b0b0b0b_1111_4111_8111_111111111111u128);
    for (organization, project) in [
        (None, None),
        (organization, None),
        (organization, Some(0x0c0c0c0c_2222_4222_8222_222222222222u128)),
    ] {
        let encoded = encode_approval_cursor(organization, project, requested_at, id).unwrap();
        let decoded = decode_approval_cursor(Some(&encoded), organization, project)
            .unwrap()
            .unwrap();
        assert_eq!(decoded.id, id);
        assert_eq!(decoded.requested_at, requested_at);
    }
    let unscoped = encode_approval_cursor(None, None, requested_at, id).unwrap();
    assert!(decode_approval_cursor(Some(&unscoped), organization, None).is_err());
}

#[test]
fn no_cursor_is_no_position_and_a_malformed_one_is_an_error() {
    assert!(matches!(decode_approval_cursor(None, None, None), Ok(None)));
    assert!(decode_approval_cursor(Some("not base64!"), None, None).is_err());
    assert!(decode_approval_cursor(Some(""), None, None).is_err());
    assert!(matches!(decode_approval_decision_cursor(None), Ok(None)));
    assert!(decode_approval_decision_cursor(Some("@@@")).is_err());
}

#[test]
fn an_approval_cursor_carries_its_fields_as_url_safe_base64_text() {
    let encoded = encode_approval_cursor(None, None, CursorInstant { seconds: 0, nanos: 0 }, 1).unwrap();
    assert_eq!(
        encoded,
        "djF8bnVsbHxudWxsfDE5NzAtMDEtMDFUMDA6MDA6MDArMDA6MDB8MDAwMDAwMDAtMDAwMC0wMDAwLTAwMDAtMDAwMDAwMDAwMDAx"
    );
}

#[test]
fn a_decision_cursor_round_trips() {
    let decided_at = now();
    let encoded = encode_approval_decision_cursor(7, decided_at, 9).unwrap();
    let decoded = decode_approval_decision_cursor(Some(&encoded)).unwrap().unwrap();
    assert_eq!(decoded.requirement_id, 7);
    assert_eq!(decoded.decided_at, decided_at);
    assert_eq!(decoded.id, 9);
    // An approval cursor has five fields, not four.
    let approval = encode_approval_cursor(None, None, decided_at, 9).unwrap();
    assert!(decode_approval_decision_cursor(Some(&approval)).is_err());
}

#[test]
fn a_cursor_carries_instants_of_every_four_digit_year() {
    for text in ["1500-06-01T12:00:00.5Z", "2999-12-31T23:59:59.123456789Z", "0000-01-01T00:00:00Z", "9999-12-31T23:59:59Z"] {
        let at = instant_of(chrono::DateTime::parse_from_rfc3339(text).unwrap().with_timezone(&chrono::Utc));
        let encoded = encode_approval_cursor(None, None, at, 3).unwrap();
        let decoded = decode_approval_cursor(Some(&encoded), None, None).unwrap().unwrap();
        assert_eq!(decoded.requested_at, at);
        let encoded = encode_approval_decision_cursor(1, at, 3).unwrap();
        let decoded = decode_approval_decision_cursor(Some(&encoded)).unwrap().unwrap();
        assert_eq!(decoded.decided_at, at);
    }
}

#[test]
fn an_instant_no_datetime_holds_has_no_cursor_and_a_five_digit_year_does_not_read_back() {
    assert!(encode_approval_cursor(None, None, CursorInstant { seconds: 0, nanos: 2_000_000_000 }, 1).is_none());
    assert!(encode_approval_decision_cursor(1, CursorInstant { seconds: i64::MAX, nanos: 0 }, 1).is_none());
    let far = CursorInstant { seconds: 253_402_300_800, nanos: 0 };
    let encoded = encode_approval_cursor(None, None, far, 1).unwrap();
    assert!(decode_approval_cursor(Some(&encoded), None, None).is_err());
}

#[test]
fn a_cursor_written_with_another_offset_reads_as_the_same_instant() {
    let text = format!(
        "v1|null|null|2026-01-01T02:00:00+02:00|{}",
        uuid::Uuid::from_u128(4)
    );
    let cursor = base64::engine::general_purpose::URL_SAFE_NO_PAD.encode(text.as_bytes());
    let decoded = decode_approval_cursor(Some(&cursor), None, None).unwrap().unwrap();
    let expected = chrono::DateTime::parse_from_rfc3339("2026-01-01T00:00:00Z").unwrap().timestamp();
    assert_eq!(decoded.requested_at, CursorInstant { seconds: expected, nanos: 0 });
    assert_eq!(decoded.id, 4);
}
