//! The text helpers, the `jsonb` reads and the row rules: keys, decimal text, ordering, field
//! splitting, the current attempt, the rollback target and the new deployment's rows.

use hive_persistence::ids::valid_optional_uuid;
use hive_persistence::json::{as_str, get, json_equal, Json, JsonNumber};
use hive_persistence::lifecycle::{projected_status, Lifecycle, RequirementStatus};
use hive_persistence::rows::{
    assembled, attempt_id_from_facts, evidence_digest_text, frozen_evidence_kinds,
    initial_lifecycle, latest_attempts, package_reference, rollback_target,
    rollback_target_version, timeline_anchor, DeploymentRow, RollbackCandidate, RollbackTargetKey,
};
use hive_persistence::text::{
    decimal_text, present, sort_texts, split_bar_fields, starts_with, text_less_eq, trim,
    valid_key,
};

#[test]
fn trimming_drops_surrounding_white_space_only() {
    assert_eq!(trim("  a b \t\n"), "a b");
    assert_eq!(trim(""), "");
    assert_eq!(trim(" \u{3000}x\u{a0}"), "x");
    assert!(present(Some(" x ")));
    assert!(!present(Some(" \t ")));
    assert!(!present(None));
}

#[test]
fn an_idempotency_key_holds_eight_to_one_hundred_sixty_bytes_once_trimmed() {
    assert!(valid_key("12345678"));
    assert!(valid_key("  12345678  "));
    assert!(!valid_key("1234567"));
    assert!(valid_key(&"k".repeat(160)));
    assert!(!valid_key(&"k".repeat(161)));
    // Four two-byte letters are eight bytes.
    assert!(valid_key("éééé"));
}

#[test]
fn decimal_text_is_what_display_prints() {
    for n in [0i64, 7, 10, 42, -1, -90, i64::MAX, i64::MIN, 1_000_000_007] {
        assert_eq!(decimal_text(n), n.to_string());
    }
}

#[test]
fn texts_sort_by_code_point() {
    let sorted = sort_texts(vec!["b".to_string(), "a".to_string(), "ab".to_string(), "B".to_string(), "a".to_string()]);
    assert_eq!(sorted, vec!["B", "a", "a", "ab", "b"]);
    assert!(text_less_eq("a", "ab"));
    assert!(text_less_eq("a", "a"));
    assert!(!text_less_eq("b", "a"));
    assert!(starts_with("APPROVAL_RECORDED", "APPROVAL_"));
    assert!(!starts_with("APPROVAL", "APPROVAL_"));
}

#[test]
fn bar_separated_fields_keep_empty_fields() {
    assert_eq!(split_bar_fields("v1|a||b"), vec!["v1", "a", "", "b"]);
    assert_eq!(split_bar_fields(""), vec![""]);
    assert_eq!(split_bar_fields("|"), vec!["", ""]);
}

#[test]
fn an_object_member_is_found_by_its_key() {
    let facts = Json::Object(vec![
        ("attemptId".to_string(), Json::Str("00000000-0000-0000-0000-000000000009".to_string())),
        ("mode".to_string(), Json::Str("SUCCESS".to_string())),
    ]);
    assert!(matches!(get(&facts, "mode"), Some(Json::Str(text)) if text == "SUCCESS"));
    assert!(get(&facts, "missing").is_none());
    assert!(get(&Json::Null, "mode").is_none());
    assert_eq!(as_str(&Json::Str("x".to_string())), Some("x"));
    assert_eq!(as_str(&Json::Bool(true)), None);
    assert_eq!(attempt_id_from_facts(&facts), Some(9));
    let not_an_id = Json::Object(vec![("attemptId".to_string(), Json::Str("nine".to_string()))]);
    assert_eq!(attempt_id_from_facts(&not_an_id), None);
    assert_eq!(attempt_id_from_facts(&Json::Object(vec![])), None);
}

#[test]
fn json_equality_compares_values_not_spellings() {
    let a = Json::Array(vec![Json::Number(JsonNumber::Int(1)), Json::Null]);
    let b = Json::Array(vec![Json::Number(JsonNumber::Int(1)), Json::Null]);
    let c = Json::Array(vec![Json::Number(JsonNumber::Int(2)), Json::Null]);
    assert!(json_equal(&a, &b));
    assert!(!json_equal(&a, &c));
    assert!(!json_equal(&Json::Null, &Json::Bool(false)));
}

#[test]
fn an_optional_identifier_is_valid_when_absent_or_an_identifier() {
    assert!(valid_optional_uuid(None));
    assert!(valid_optional_uuid(Some("67e55044-10b1-426f-9247-bb680e5fe0c8")));
    assert!(!valid_optional_uuid(Some("version-3")));
}

#[test]
fn a_pending_requirement_reports_expired_once_its_instant_passes() {
    assert_eq!(projected_status(RequirementStatus::Pending, 10, 10), RequirementStatus::Expired);
    assert_eq!(projected_status(RequirementStatus::Pending, 10, 9), RequirementStatus::Pending);
    assert_eq!(projected_status(RequirementStatus::Satisfied, 10, 20), RequirementStatus::Satisfied);
    assert_eq!(RequirementStatus::Invalidated.as_str(), "INVALIDATED");
    assert_eq!(Lifecycle::AwaitingApproval.as_str(), "AWAITING_APPROVAL");
}

#[test]
fn the_current_attempt_is_the_first_with_the_highest_number() {
    let latest = latest_attempts(&vec![(1, 1), (2, 1), (1, 3), (1, 3), (1, 2)]);
    assert_eq!(latest.len(), 2);
    assert_eq!(latest[&1], 2);
    assert_eq!(latest[&2], 1);
    assert!(latest_attempts(&vec![]).is_empty());
}

fn deployment(environment: Option<u128>) -> DeploymentRow {
    DeploymentRow {
        id: 50,
        organization_id: 1,
        project_id: 2,
        agent_id: 3,
        agent_version_id: 4,
        environment_class: "PRODUCTION".to_string(),
        environment_definition_version_id: environment,
        lifecycle: Lifecycle::Failed,
        revision: 1,
        requested_by: 9,
        requested_at: 1_000,
        project_lifecycle_revision: None,
    }
}

fn active(id: u128, requested_at: i64, version: u128) -> RollbackCandidate {
    RollbackCandidate {
        id,
        project_id: 2,
        agent_id: 3,
        environment_definition_version_id: Some(7),
        requested_at,
        agent_version_id: version,
    }
}

#[test]
fn the_rollback_target_is_the_newest_prior_active_deployment_of_the_same_target() {
    assert!(RollbackTargetKey::of(&deployment(None)).is_none());
    let key = RollbackTargetKey::of(&deployment(Some(7))).unwrap();
    assert_eq!(key.requested_at, 1_000);
    let candidates = vec![
        active(60, 2_000, 100),
        active(50, 1_000, 101),
        RollbackCandidate { agent_id: 4, ..active(45, 900, 102) },
        active(40, 900, 103),
        active(30, 800, 104),
    ];
    assert_eq!(rollback_target(&key, &candidates, None), Some(3));
    assert_eq!(rollback_target_version(&key, None, &candidates), Some(103));
    let pinned = uuid::Uuid::from_u128(104).to_string();
    assert_eq!(rollback_target_version(&key, Some(&pinned), &candidates), Some(104));
    let absent = uuid::Uuid::from_u128(100).to_string();
    assert_eq!(rollback_target_version(&key, Some(&absent), &candidates), None);
    assert_eq!(rollback_target_version(&key, Some("not-a-version"), &candidates), None);
    assert_eq!(rollback_target(&key, &vec![], None), None);
}

#[test]
fn a_new_deployment_freezes_its_rows() {
    assert_eq!(initial_lifecycle(2), Lifecycle::AwaitingApproval);
    assert_eq!(initial_lifecycle(0), Lifecycle::Requested);
    assert_eq!(package_reference("sha256:abc"), "local://packages/sha256:abc");
    assert_eq!(evidence_digest_text("sha256:bind", "SBOM"), "sha256:bind|SBOM");
    let kinds = vec!["SBOM".to_string(), "EVALUATION_PASSED".to_string(), "SCAN".to_string()];
    assert_eq!(frozen_evidence_kinds(&kinds), vec!["SBOM", "SCAN"]);
    assert!(assembled(true, true, false));
    assert!(assembled(true, false, true));
    assert!(!assembled(true, false, false));
    assert!(!assembled(false, true, true));
}

#[test]
fn an_audit_is_anchored_on_the_attempt_its_facts_name_or_else_the_latest() {
    assert_eq!(timeline_anchor(Some(5), Some(2), Some((6, 3))), (Some(5), 2));
    assert_eq!(timeline_anchor(Some(5), None, Some((6, 3))), (Some(6), 3));
    assert_eq!(timeline_anchor(None, None, None), (None, 0));
}
