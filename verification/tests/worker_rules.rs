//! The outbox worker's decisions.

use hive_persistence::json::{Json, JsonNumber};
use hive_persistence::lifecycle::Lifecycle;
use hive_persistence::worker::{
    approval_maintenance_due, approval_maintenance_failed, completes, completion,
    dead_letter_fails_deployment, decode_mode, deliver_next, execute, failure_code_of,
    maintenance_report, new_attempt, record_worker_heartbeat, recovered_delivery_audit,
    retry_delay_seconds, retry_jitter_millis, write_worker_heartbeat, Delivery, ExecuteAction,
    ExecuteFacts, WorkerMode,
};

fn payload(mode: Json) -> Json {
    Json::Object(vec![("mode".to_string(), mode)])
}

fn text(value: &str) -> Json {
    Json::Str(value.to_string())
}

#[test]
fn only_the_four_named_modes_decode() {
    for name in ["SUCCESS", "FAILURE", "RETRY", "POISON"] {
        assert_eq!(decode_mode(&payload(text(name))).name(), name);
    }
}

#[test]
fn a_payload_with_no_recognizable_mode_is_invalid() {
    for payload in [
        Json::Object(Vec::new()),
        payload(Json::Null),
        payload(text("success")),
        payload(Json::Number(JsonNumber::Int(1))),
        payload(Json::Array(vec![text("SUCCESS")])),
        text("SUCCESS"),
        Json::Null,
    ] {
        assert_eq!(decode_mode(&payload).name(), "INVALID");
        assert!(decode_mode(&payload) == WorkerMode::Invalid);
    }
}

#[test]
fn an_error_that_carries_no_sqlstate_reports_the_generic_code() {
    assert_eq!(failure_code_of(None), "DATABASE_FAILURE");
}

#[test]
fn a_five_character_sqlstate_is_reported_and_anything_else_is_generic() {
    assert_eq!(failure_code_of(Some("40001")), "SQLSTATE_40001");
    assert_eq!(failure_code_of(Some("23P01")), "SQLSTATE_23P01");
    assert_eq!(failure_code_of(Some("4000")), "DATABASE_FAILURE");
    assert_eq!(failure_code_of(Some("400011")), "DATABASE_FAILURE");
    assert_eq!(failure_code_of(Some("23p01")), "DATABASE_FAILURE");
    assert_eq!(failure_code_of(Some("2300é")), "DATABASE_FAILURE");
}

fn detail(delivery: Delivery) -> (&'static str, &'static str) {
    match delivery {
        Delivery::DeadLetter(detail) => ("DEAD_LETTER", detail),
        Delivery::Retry(detail) => ("RETRY", detail),
        Delivery::Execute => ("EXECUTE", ""),
        Delivery::Complete => ("COMPLETE", ""),
    }
}

#[test]
fn a_poison_event_is_retried_until_its_third_delivery_and_then_dead_lettered() {
    assert_eq!(
        detail(deliver_next(WorkerMode::Poison, Some("EXECUTE_DEPLOYMENT"), 2)),
        ("RETRY", "The local worker will retry this event.")
    );
    assert_eq!(
        detail(deliver_next(WorkerMode::Poison, Some("EXECUTE_DEPLOYMENT"), 3)),
        ("DEAD_LETTER", "The local worker isolated a poison event.")
    );
    assert_eq!(
        detail(deliver_next(WorkerMode::Invalid, Some("EXECUTE_DEPLOYMENT"), 1)),
        ("RETRY", "The local worker rejected an unrecognized event mode.")
    );
    assert_eq!(
        detail(deliver_next(WorkerMode::Success, None, 5)),
        ("DEAD_LETTER", "The local worker isolated a poison event.")
    );
    assert_eq!(detail(deliver_next(WorkerMode::Success, Some("EXECUTE_DEPLOYMENT"), 9)).0, "EXECUTE");
    assert_eq!(detail(deliver_next(WorkerMode::Failure, Some("COMPLETE_DEPLOYMENT"), 1)).0, "COMPLETE");
    assert_eq!(
        detail(deliver_next(WorkerMode::Success, Some("OTHER"), 1)),
        ("DEAD_LETTER", "The local worker rejected an unrecognized event type.")
    );
}

#[test]
fn the_retry_delay_doubles_and_is_capped_at_thirty_seconds() {
    let delays: Vec<i64> = (0..9).map(retry_delay_seconds).collect();
    assert_eq!(delays, vec![1, 1, 2, 4, 8, 16, 30, 30, 30]);
    assert_eq!(retry_delay_seconds(i32::MIN), 1);
    assert_eq!(retry_delay_seconds(i32::MAX), 30);
}

#[test]
fn the_retry_jitter_is_the_low_half_of_the_identifier_modulo_250() {
    assert_eq!(retry_jitter_millis(0), 0);
    assert_eq!(retry_jitter_millis(251), 1);
    assert_eq!(retry_jitter_millis(7u128 << 64), 0);
    // The low half 0xFFFF_FFFF_FFFF_FFFF is -1 as a signed integer: -1 mod 250 is 249.
    assert_eq!(retry_jitter_millis(u64::MAX as u128), 249);
    let low = 0x8000_0000_0000_0000u128;
    assert_eq!(retry_jitter_millis(low), (i64::MIN).rem_euclid(250));
}

#[test]
fn execute_routes_an_event_by_its_deployment() {
    let ready = ExecuteFacts {
        lifecycle: Some(Lifecycle::Approved),
        project_active: true,
        approved_handoff: true,
        compatible_worker: true,
        eligible: true,
        handoff_pending: false,
    };
    assert_eq!(execute(&ready), ExecuteAction::Start);
    assert_eq!(execute(&ExecuteFacts { lifecycle: None, ..ready }), ExecuteAction::Deliver);
    assert_eq!(execute(&ExecuteFacts { lifecycle: Some(Lifecycle::Active), ..ready }), ExecuteAction::Deliver);
    assert_eq!(execute(&ExecuteFacts { project_active: false, ..ready }), ExecuteAction::BlockAndDeliver);
    assert_eq!(execute(&ExecuteFacts { compatible_worker: false, ..ready }), ExecuteAction::DeferIncompatible);
    assert_eq!(execute(&ExecuteFacts { eligible: false, handoff_pending: true, ..ready }), ExecuteAction::DeferPending);
    assert_eq!(execute(&ExecuteFacts { eligible: false, ..ready }), ExecuteAction::BlockAndDeliver);
}

#[test]
fn completion_records_the_mode_outcome() {
    let failed = completion(WorkerMode::Failure);
    assert!(failed.failed);
    assert_eq!(failed.lifecycle, Lifecycle::Failed);
    assert_eq!(failed.failure_code, Some("LOCAL_EXECUTION_FAILED"));
    assert_eq!(failed.audit_action, "EXECUTION_FAILED");
    let succeeded = completion(WorkerMode::Success);
    assert!(!succeeded.failed);
    assert_eq!(succeeded.lifecycle, Lifecycle::Active);
    assert_eq!(succeeded.health, "HEALTHY");
    assert_eq!(succeeded.stage, "COMPLETED");
    assert!(completes(Some(Lifecycle::InProgress), true));
    assert!(!completes(Some(Lifecycle::InProgress), false));
    assert!(!completes(Some(Lifecycle::Active), true));
}

#[test]
fn dead_letters_and_recovered_deliveries_follow_the_delivery_count() {
    assert!(dead_letter_fails_deployment(Some(Lifecycle::AwaitingApproval)));
    assert!(!dead_letter_fails_deployment(Some(Lifecycle::Failed)));
    assert!(!dead_letter_fails_deployment(None));
    assert_eq!(recovered_delivery_audit(3), (true, "OUTBOX_DEAD_LETTERED"));
    assert_eq!(recovered_delivery_audit(2), (false, "OUTBOX_DELIVERY_RETRIED"));
    let first = new_attempt(None, false);
    assert_eq!((first.number, first.failed, first.failure_code), (1, false, None));
    let poisoned = new_attempt(Some(4), true);
    assert_eq!((poisoned.number, poisoned.failure_code), (5, Some("LOCAL_OUTBOX_POISON")));
}

#[test]
fn a_heartbeat_reports_its_worker_queue_and_failure() {
    let heartbeat = write_worker_heartbeat("  worker-1 ", -3, true, None, &vec![30, 10, 20]);
    assert_eq!(heartbeat.worker_id, "worker-1");
    assert_eq!(heartbeat.last_batch_deliveries, 0);
    assert_eq!(heartbeat.pending_events, 3);
    assert_eq!(heartbeat.oldest_pending_at, Some(10));
    assert!(heartbeat.ready);
    let empty = write_worker_heartbeat("w", 2, false, Some("X"), &Vec::new());
    assert_eq!(empty.oldest_pending_at, None);
    assert_eq!(empty.failure_code, Some("X".to_string()));

    assert_eq!(record_worker_heartbeat(true, None, true, true), (false, Some("APPROVAL_MAINTENANCE_FAILED")));
    assert_eq!(record_worker_heartbeat(true, None, false, true), (false, Some("OUTBOX_RECOVERY_AUDIT_FAILED")));
    assert_eq!(record_worker_heartbeat(true, None, false, false), (true, None));
    assert_eq!(record_worker_heartbeat(true, Some("OWN"), true, true), (false, Some("OWN")));
    assert_eq!(record_worker_heartbeat(false, None, true, true), (false, None));
    assert_eq!(maintenance_report(true, true), (true, None));
    assert_eq!(maintenance_report(true, false), (false, Some("APPROVAL_MAINTENANCE_FAILED")));
    assert!(approval_maintenance_failed(false, Some("APPROVAL_MAINTENANCE_FAILED")));
    assert!(!approval_maintenance_failed(true, Some("APPROVAL_MAINTENANCE_FAILED")));
    assert!(!approval_maintenance_failed(false, Some("OTHER")));
}

#[test]
fn opportunistic_maintenance_is_due_once_a_second() {
    assert_eq!(approval_maintenance_due(5_000, 5_000), Some(6_000));
    assert_eq!(approval_maintenance_due(4_999, 5_000), None);
    assert_eq!(approval_maintenance_due(10_000, 0), Some(11_000));
}

#[test]
fn a_retried_event_waits_its_backoff_and_its_jitter() {
    assert_eq!(hive_persistence::worker::retry_backoff_millis(1, 0), 1_000);
    assert_eq!(hive_persistence::worker::retry_backoff_millis(3, 260), 4_010);
    assert_eq!(hive_persistence::worker::retry_backoff_millis(9, 0), 30_000);
}
