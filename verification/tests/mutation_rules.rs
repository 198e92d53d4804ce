//! The refusal ladders of the deployment commands.

use hive_persistence::lifecycle::Lifecycle;
use hive_persistence::mutations::{
    action_fingerprint_text, cancel, child_key_text, commit_failure, deploy, deploy_failure,
    deploy_fingerprint_text, lost_race, over_pending_quota, pending_request, promote, promotion_fact,
    recovery,
    recovery_version, repository_error, safe_reason, safe_recovery_reason, Access, Admission,
    CancelFacts, DeployFacts, DeployFailure, IdempotencyHit, PromoteFacts, Receipt,
    RecoveryAction, RecoveryCommand, RecoveryFacts, Refusal, RepositoryErrorKind,
};

const DEPLOYMENT: u128 = 0x11111111_1111_1111_1111_111111111111;
const GRANTED: Access = Access { can_view: true, capable: true };

fn conflict(actual: i64) -> Refusal {
    Refusal::Conflict { deployment_id: DEPLOYMENT, expected_revision: 3, actual_revision: actual }
}

#[test]
fn recovery_action_names_are_the_stored_spellings() {
    assert_eq!(RecoveryAction::Retry.name(), "RETRY");
    assert_eq!(RecoveryAction::Rollback.name(), "ROLLBACK");
    assert_eq!(RecoveryAction::Retry.recorded_event(), "RETRY_RECORDED");
    assert_eq!(RecoveryAction::Rollback.recorded_event(), "ROLLBACK_RECORDED");
}

#[test]
fn cancel_refuses_in_ladder_order() {
    let facts = |access, revision, lifecycle| CancelFacts { access, revision, lifecycle };
    assert_eq!(cancel(DEPLOYMENT, 3, &facts(None, 3, Lifecycle::Requested)), Err(Refusal::NotFound));
    assert_eq!(
        cancel(DEPLOYMENT, 3, &facts(Some(Access { can_view: false, capable: true }), 3, Lifecycle::Requested)),
        Err(Refusal::NotFound)
    );
    assert_eq!(
        cancel(DEPLOYMENT, 3, &facts(Some(Access { can_view: true, capable: false }), 3, Lifecycle::Requested)),
        Err(Refusal::Forbidden)
    );
    assert_eq!(cancel(DEPLOYMENT, 3, &facts(Some(GRANTED), 4, Lifecycle::Requested)), Err(conflict(4)));
    assert_eq!(cancel(DEPLOYMENT, 3, &facts(Some(GRANTED), 3, Lifecycle::Active)), Err(Refusal::Lifecycle));
    assert_eq!(cancel(DEPLOYMENT, 3, &facts(Some(GRANTED), 3, Lifecycle::InProgress)), Ok(()));
    assert_eq!(lost_race(DEPLOYMENT, 3, Some(5)), conflict(5));
    assert_eq!(lost_race(DEPLOYMENT, 3, None), conflict(3));
}

#[test]
fn cancellation_reasons_are_never_stored_as_written() {
    assert_eq!(safe_reason("   "), "Cancellation was requested from the local deployment detail.");
    assert_eq!(safe_reason("because"), "Cancellation was requested by an authorized project principal.");
    assert_eq!(safe_recovery_reason(None), "No caller-entered recovery reason was recorded.");
    assert_eq!(
        safe_recovery_reason(Some(" x ")),
        "An authorized project principal supplied the required recovery reason."
    );
}

fn promote_facts() -> PromoteFacts {
    PromoteFacts {
        preauthorized: Some(GRANTED),
        locked: Some(GRANTED),
        receipt: None,
        revision: 3,
        lifecycle: Lifecycle::Active,
        runtime_health: "HEALTHY".to_string(),
    }
}

#[test]
fn promote_needs_a_healthy_active_deployment_and_replays_its_receipt() {
    let key = "idempotency-key";
    assert_eq!(promote(DEPLOYMENT, 3, key, "fp", &promote_facts()), Admission::Proceed);
    assert_eq!(
        promote(DEPLOYMENT, 3, key, "fp", &PromoteFacts { runtime_health: "DEGRADED".to_string(), ..promote_facts() }),
        Admission::Refused(Refusal::Lifecycle)
    );
    assert_eq!(
        promote(DEPLOYMENT, 3, "short", "fp", &promote_facts()),
        Admission::Refused(Refusal::Invalid)
    );
    assert_eq!(promote(DEPLOYMENT, 2, key, "fp", &promote_facts()), Admission::Refused(Refusal::Conflict {
        deployment_id: DEPLOYMENT,
        expected_revision: 2,
        actual_revision: 3
    }));
    let receipt = |fingerprint: &str, found| Receipt {
        fingerprint: fingerprint.to_string(),
        result_deployment_id: 9,
        result_found: found,
    };
    // A receipt answers before the key, the revision or the lifecycle is looked at.
    let replay = PromoteFacts { receipt: Some(receipt("fp", true)), revision: 8, lifecycle: Lifecycle::Failed, ..promote_facts() };
    assert_eq!(promote(DEPLOYMENT, 3, "short", "fp", &replay), Admission::Replay(9));
    let gone = PromoteFacts { receipt: Some(receipt("fp", false)), ..promote_facts() };
    assert_eq!(promote(DEPLOYMENT, 3, key, "fp", &gone), Admission::Refused(Refusal::NotFound));
    let other = PromoteFacts { receipt: Some(receipt("other", true)), ..promote_facts() };
    assert_eq!(promote(DEPLOYMENT, 3, key, "fp", &other), Admission::Refused(Refusal::Idempotency));
    let hidden = PromoteFacts { locked: None, ..promote_facts() };
    assert_eq!(promote(DEPLOYMENT, 3, key, "fp", &hidden), Admission::Refused(Refusal::NotFound));
}

fn recovery_facts() -> RecoveryFacts {
    RecoveryFacts {
        preauthorized: Some(GRANTED),
        locked: Some(GRANTED),
        receipt: None,
        revision: 3,
        lifecycle: Lifecycle::Failed,
        environment_class: "PRODUCTION".to_string(),
        stable_definition_id: "prod-eu".to_string(),
        project_active: true,
        version: Some(4),
        has_request: true,
        same_inputs: true,
        over_quota: false,
    }
}

fn rollback<'a>(reason: Option<&'a str>, confirmation: Option<&'a str>) -> RecoveryCommand<'a> {
    RecoveryCommand {
        action: RecoveryAction::Rollback,
        expected_revision: 3,
        key: "idempotency-key",
        target_version: None,
        reason,
        production_confirmation: confirmation,
        fingerprint: "fp",
    }
}

#[test]
fn a_production_rollback_needs_a_reason_and_the_environment_confirmation() {
    assert_eq!(recovery(DEPLOYMENT, &rollback(None, Some("prod-eu")), &recovery_facts()), Admission::Refused(Refusal::ReasonRequired));
    assert_eq!(recovery(DEPLOYMENT, &rollback(Some("outage"), None), &recovery_facts()), Admission::Refused(Refusal::ConfirmationRequired));
    assert_eq!(
        recovery(DEPLOYMENT, &rollback(Some("outage"), Some("prod-us")), &recovery_facts()),
        Admission::Refused(Refusal::ConfirmationMismatch)
    );
    assert_eq!(recovery(DEPLOYMENT, &rollback(Some("outage"), Some("  prod-eu ")), &recovery_facts()), Admission::Proceed);
    let staging = RecoveryFacts { environment_class: "STAGING".to_string(), ..recovery_facts() };
    assert_eq!(recovery(DEPLOYMENT, &rollback(Some("outage"), None), &staging), Admission::Proceed);
    let target = RecoveryCommand { target_version: Some("not-a-uuid"), ..rollback(Some("outage"), Some("prod-eu")) };
    assert_eq!(recovery(DEPLOYMENT, &target, &recovery_facts()), Admission::Refused(Refusal::Invalid));
}

#[test]
fn a_retry_needs_a_failed_deployment_and_the_same_inputs() {
    let retry = RecoveryCommand { action: RecoveryAction::Retry, reason: None, production_confirmation: None, ..rollback(None, None) };
    assert_eq!(recovery(DEPLOYMENT, &retry, &recovery_facts()), Admission::Proceed);
    let active = RecoveryFacts { lifecycle: Lifecycle::Active, ..recovery_facts() };
    assert_eq!(recovery(DEPLOYMENT, &retry, &active), Admission::Refused(Refusal::Lifecycle));
    let moved = RecoveryFacts { same_inputs: false, ..recovery_facts() };
    assert_eq!(recovery(DEPLOYMENT, &retry, &moved), Admission::Refused(conflict(3)));
    let busy = RecoveryFacts { over_quota: true, ..recovery_facts() };
    assert_eq!(recovery(DEPLOYMENT, &retry, &busy), Admission::Refused(Refusal::RateLimited));
    let no_request = RecoveryFacts { has_request: false, ..recovery_facts() };
    assert_eq!(recovery(DEPLOYMENT, &retry, &no_request), Admission::Refused(Refusal::Invalid));
    let archived = RecoveryFacts { project_active: false, ..recovery_facts() };
    assert_eq!(recovery(DEPLOYMENT, &retry, &archived), Admission::Refused(Refusal::Lifecycle));
    assert_eq!(recovery_version(RecoveryAction::Retry, 4, Some(2)), Some(4));
    assert_eq!(recovery_version(RecoveryAction::Rollback, 4, Some(2)), Some(2));
    assert_eq!(recovery_version(RecoveryAction::Rollback, 4, None), None);
}

#[test]
fn deploy_answers_an_existing_key_and_otherwise_admits() {
    let facts = || DeployFacts {
        preauthorized: Some(GRANTED),
        locked: Some(GRANTED),
        project_active: true,
        same_inputs: true,
        existing: None,
        over_quota: false,
    };
    assert_eq!(deploy(5, "idempotency-key", "fp", &facts()), Admission::Proceed);
    assert_eq!(deploy(5, "key", "fp", &facts()), Admission::Refused(Refusal::Invalid));
    assert_eq!(
        deploy(5, "idempotency-key", "fp", &DeployFacts { same_inputs: false, ..facts() }),
        Admission::Refused(Refusal::Conflict { deployment_id: 5, expected_revision: 0, actual_revision: 1 })
    );
    let hit = |fingerprint: &str| Some(IdempotencyHit { deployment_id: 8, fingerprint: fingerprint.to_string(), found: true });
    assert_eq!(deploy(5, "idempotency-key", "fp", &DeployFacts { existing: hit("fp"), ..facts() }), Admission::Existing(8));
    assert_eq!(
        deploy(5, "idempotency-key", "fp", &DeployFacts { existing: hit("other"), ..facts() }),
        Admission::Refused(Refusal::Idempotency)
    );
    assert_eq!(deploy_failure(true, false, "idempotency-key", &hit("fp"), "fp"), DeployFailure::Existing(8));
    assert_eq!(deploy_failure(true, true, "idempotency-key", &None, "fp"), DeployFailure::Refused(Refusal::RateLimited));
    assert_eq!(deploy_failure(true, false, "idempotency-key", &None, "fp"), DeployFailure::Error);
    assert_eq!(deploy_failure(false, true, "k", &hit("fp"), "fp"), DeployFailure::Refused(Refusal::RateLimited));
    assert_eq!(commit_failure(true), Some(Refusal::RateLimited));
    assert_eq!(commit_failure(false), None);
}

#[test]
fn the_pending_quota_counts_twenty_per_principal_and_a_hundred_per_project() {
    assert!(!over_pending_quota(19, 99));
    assert!(over_pending_quota(20, 0));
    assert!(over_pending_quota(0, 100));
    assert!(pending_request(Lifecycle::InProgress));
    assert!(!pending_request(Lifecycle::Active));
}

#[test]
fn fingerprint_texts_spell_their_fields() {
    assert_eq!(
        action_fingerprint_text("ROLLBACK", 1, -7, Some("v2"), Some("r"), None),
        "ROLLBACK|00000000-0000-0000-0000-000000000001|-7|v2|r|"
    );
    assert_eq!(
        child_key_text(RecoveryAction::Retry, 1, 2, "key"),
        "RETRY|00000000-0000-0000-0000-000000000001|00000000-0000-0000-0000-000000000002|key"
    );
    assert_eq!(
        deploy_fingerprint_text(0xab, 0xcd, "ROLLING"),
        "00000000-0000-0000-0000-0000000000ab|00000000-0000-0000-0000-0000000000cd|ROLLING"
    );
}

#[test]
fn statement_failures_are_classed_for_the_boundary() {
    assert_eq!(repository_error(true, false, true), RepositoryErrorKind::Conflict);
    assert_eq!(repository_error(false, true, false), RepositoryErrorKind::Conflict);
    assert_eq!(repository_error(false, false, true), RepositoryErrorKind::NotFound);
    assert_eq!(repository_error(false, false, false), RepositoryErrorKind::Unavailable);
}

#[test]
fn a_promotion_records_the_generation_it_was_admitted_against() {
    let fact = promotion_fact(DEPLOYMENT, 5, 6, "sha256:target", 41);
    assert_eq!(fact.deployment_id, DEPLOYMENT);
    assert_eq!(fact.action_receipt_id, 5);
    assert_eq!(fact.agent_version_id, 6);
    assert_eq!(fact.target_digest, "sha256:target");
    assert_eq!(fact.runtime_health_generation, 41);
}
