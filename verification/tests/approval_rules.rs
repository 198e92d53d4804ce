//! The approval cycle's rules: new requirements, reconciliation, the execution block, the
//! automatic handoff, eligibility, the handoff candidates, deferrals, maintenance health,
//! transitions and worker readiness.

use hive_persistence::approval::{
    approval_execution_eligible, approve_deployment_for_execution, approved_approval_handoff,
    automatic_approval_handoff, block_approval_execution,
    cancel_rejected_deployment, compatible_approval_handoff_deployments,
    compatible_approval_worker, defer_incompatible_approval_handoff,
    defer_pending_approval_handoff, ensure_requirement, expiry_failure, expiry_health,
    handoff_candidate, invalidate_pending_requirement, participants_cover, reconcile_pending,
    reconciliation_changed,
    requirement_expired, transition_requirement, upgrade_failure, upgrade_health, worker_ready,
    ApprovalCode, ArchiveEvent, BlockFacts, EligibilityFacts, HandoffCandidate,
    HandoffFacts, HandoffPlan, PendingFacts, Reconciliation, TerminalAction, WorkerHeartbeatRow,
    HANDOFF_PAGE, HEARTBEAT_FRESHNESS, REQUIREMENT_LIFETIME,
};
use hive_persistence::evidence::EvidenceIssue;
use hive_persistence::lifecycle::{Lifecycle, RequirementStatus};

const APPROVER: u128 = 0x0b0b0b0b_1111_4111_8111_111111111111;
const OTHER_APPROVER: u128 = 0x0c0c0c0c_2222_4222_8222_222222222222;

fn uuid_text(id: u128) -> String {
    uuid::Uuid::from_u128(id).to_string()
}

#[test]
fn a_new_requirement_is_pending_for_a_day_unless_the_deployment_is_archived_or_executing() {
    let requested_at = 1_000;
    let pending = ensure_requirement(false, Lifecycle::AwaitingApproval, requested_at);
    assert_eq!(pending.status, RequirementStatus::Pending);
    assert_eq!(pending.expires_at, requested_at + REQUIREMENT_LIFETIME);
    assert_eq!(pending.expires_at, 1_000 + 86_400 * 1_000_000_000);
    assert_eq!(pending.invalidation, None);

    let archived = ensure_requirement(true, Lifecycle::Requested, requested_at);
    assert_eq!(archived.status, RequirementStatus::Invalidated);
    assert_eq!(archived.invalidation, Some(ApprovalCode::ProjectArchived));

    let executing = ensure_requirement(false, Lifecycle::InProgress, requested_at);
    assert_eq!(executing.status, RequirementStatus::Invalidated);
    assert_eq!(executing.invalidation, Some(ApprovalCode::TerminalLifecycle));
    assert_eq!(executing.invalidation.unwrap().as_str(), "TERMINAL_LIFECYCLE");
}

fn pending_facts(lifecycle: Lifecycle) -> PendingFacts {
    PendingFacts {
        lifecycle: Some(lifecycle),
        pending: true,
        satisfied_expired: false,
        expired: false,
        evidence_issue: None,
        waiting_for_evaluation: false,
    }
}

#[test]
fn reconciliation_terminalizes_a_pending_cycle_in_rule_order() {
    assert_eq!(
        reconcile_pending(&PendingFacts { lifecycle: None, ..pending_facts(Lifecycle::Requested) }),
        Reconciliation::Unchanged
    );
    assert_eq!(reconcile_pending(&pending_facts(Lifecycle::AwaitingApproval)), Reconciliation::Unchanged);
    assert_eq!(
        reconcile_pending(&PendingFacts { expired: true, ..pending_facts(Lifecycle::Failed) }),
        Reconciliation::Terminalize {
            action: TerminalAction::Invalidated,
            code: ApprovalCode::TerminalLifecycle,
            cancel: false,
        }
    );
    assert_eq!(
        reconcile_pending(&PendingFacts {
            expired: true,
            evidence_issue: Some(EvidenceIssue::Mismatch),
            ..pending_facts(Lifecycle::AwaitingApproval)
        }),
        Reconciliation::Terminalize {
            action: TerminalAction::Expired,
            code: ApprovalCode::RequirementExpired,
            cancel: true,
        }
    );
    assert_eq!(
        reconcile_pending(&PendingFacts {
            evidence_issue: Some(EvidenceIssue::Expired),
            ..pending_facts(Lifecycle::Approved)
        }),
        Reconciliation::Terminalize {
            action: TerminalAction::Invalidated,
            code: ApprovalCode::Evidence(EvidenceIssue::Expired),
            cancel: false,
        }
    );
}

#[test]
fn missing_evidence_still_being_evaluated_leaves_the_cycle_pending() {
    let waiting = PendingFacts {
        evidence_issue: Some(EvidenceIssue::Missing),
        waiting_for_evaluation: true,
        ..pending_facts(Lifecycle::AwaitingApproval)
    };
    assert_eq!(reconcile_pending(&waiting), Reconciliation::Unchanged);
    let settled = PendingFacts { waiting_for_evaluation: false, ..waiting };
    assert_eq!(
        reconcile_pending(&settled),
        Reconciliation::Terminalize {
            action: TerminalAction::Invalidated,
            code: ApprovalCode::Evidence(EvidenceIssue::Missing),
            cancel: true,
        }
    );
    assert_eq!(ApprovalCode::Evidence(EvidenceIssue::Missing).as_str(), "APPROVAL_EVIDENCE_MISSING");
}

#[test]
fn a_satisfied_cycle_past_its_expiry_blocks_execution() {
    let satisfied = PendingFacts {
        pending: false,
        satisfied_expired: true,
        ..pending_facts(Lifecycle::Approved)
    };
    assert_eq!(reconcile_pending(&satisfied), Reconciliation::BlockExecution);
    assert_eq!(
        reconcile_pending(&PendingFacts { satisfied_expired: false, ..satisfied }),
        Reconciliation::Unchanged
    );
}

fn block_facts() -> BlockFacts {
    BlockFacts {
        satisfied_and_waiting: true,
        archived: false,
        project_active: true,
        any_expired: false,
        evidence_issue: None,
    }
}

#[test]
fn a_blocked_execution_records_the_first_reason_that_applies() {
    assert_eq!(block_approval_execution(&block_facts()), None);
    assert_eq!(
        block_approval_execution(&BlockFacts { satisfied_and_waiting: false, archived: true, ..block_facts() }),
        None
    );
    assert_eq!(
        block_approval_execution(&BlockFacts { archived: true, project_active: false, ..block_facts() }),
        Some(ApprovalCode::ProjectArchived)
    );
    assert_eq!(
        block_approval_execution(&BlockFacts { project_active: false, ..block_facts() }),
        Some(ApprovalCode::ProjectNotActive)
    );
    assert_eq!(
        block_approval_execution(&BlockFacts {
            evidence_issue: Some(EvidenceIssue::Mismatch),
            any_expired: true,
            ..block_facts()
        }),
        Some(ApprovalCode::Evidence(EvidenceIssue::Mismatch))
    );
    let expired = block_approval_execution(&BlockFacts { any_expired: true, ..block_facts() });
    assert_eq!(expired, Some(ApprovalCode::EvidenceNoLongerValid));
    assert_eq!(expired.unwrap().as_str(), "APPROVAL_EVIDENCE_NO_LONGER_VALID");
}

fn handoff_facts() -> HandoffFacts {
    HandoffFacts {
        status: RequirementStatus::Satisfied,
        required_approvers: 2,
        lifecycle: Lifecycle::Approved,
        expired: false,
        evidence_ready: true,
        waiting_for_evaluation: false,
        worker_ready: true,
        execute_queued: false,
    }
}

const NOTHING: HandoffPlan = HandoffPlan {
    satisfy: false,
    block: false,
    release: false,
    enqueue: false,
    drop_release: false,
    handed_off: false,
};

#[test]
fn a_satisfied_cycle_is_released_and_enqueued_for_a_ready_worker() {
    assert_eq!(
        automatic_approval_handoff(&handoff_facts()),
        HandoffPlan { release: true, enqueue: true, drop_release: true, handed_off: true, ..NOTHING }
    );
    assert_eq!(
        automatic_approval_handoff(&HandoffFacts { worker_ready: false, ..handoff_facts() }),
        HandoffPlan { release: true, handed_off: true, ..NOTHING }
    );
    assert_eq!(
        automatic_approval_handoff(&HandoffFacts { execute_queued: true, ..handoff_facts() }),
        HandoffPlan { release: true, drop_release: true, handed_off: true, ..NOTHING }
    );
    assert_eq!(
        automatic_approval_handoff(&HandoffFacts { waiting_for_evaluation: true, ..handoff_facts() }),
        HandoffPlan { handed_off: true, ..NOTHING }
    );
}

#[test]
fn an_expired_or_unready_satisfied_cycle_is_blocked() {
    assert_eq!(
        automatic_approval_handoff(&HandoffFacts { expired: true, ..handoff_facts() }),
        HandoffPlan { block: true, ..NOTHING }
    );
    assert_eq!(
        automatic_approval_handoff(&HandoffFacts { evidence_ready: false, ..handoff_facts() }),
        HandoffPlan { block: true, ..NOTHING }
    );
}

#[test]
fn a_cycle_that_needs_no_approver_is_satisfied_at_once() {
    let requested = HandoffFacts {
        status: RequirementStatus::Pending,
        required_approvers: 0,
        lifecycle: Lifecycle::Requested,
        ..handoff_facts()
    };
    assert_eq!(
        automatic_approval_handoff(&requested),
        HandoffPlan {
            satisfy: true,
            release: true,
            enqueue: true,
            drop_release: true,
            handed_off: true,
            ..NOTHING
        }
    );
    assert_eq!(
        automatic_approval_handoff(&HandoffFacts { required_approvers: 1, ..requested }),
        NOTHING
    );
    assert_eq!(
        automatic_approval_handoff(&HandoffFacts { evidence_ready: false, ..requested }),
        NOTHING
    );
}

fn eligibility() -> EligibilityFacts {
    EligibilityFacts {
        live_requirement: true,
        lifecycle: Some(Lifecycle::Approved),
        project_active: true,
        participants: vec![uuid_text(APPROVER), uuid_text(OTHER_APPROVER)],
        required_approvers: 2,
        approvers: vec![OTHER_APPROVER, APPROVER],
        archived: false,
        evidence_ready: true,
    }
}

#[test]
fn execution_is_eligible_only_with_the_frozen_participants_still_approving() {
    assert!(approval_execution_eligible(&eligibility()));
    assert!(!approval_execution_eligible(&EligibilityFacts { approvers: vec![APPROVER], ..eligibility() }));
    assert!(!approval_execution_eligible(&EligibilityFacts { required_approvers: 3, ..eligibility() }));
    assert!(!approval_execution_eligible(&EligibilityFacts { archived: true, ..eligibility() }));
    assert!(!approval_execution_eligible(&EligibilityFacts { evidence_ready: false, ..eligibility() }));
    assert!(!approval_execution_eligible(&EligibilityFacts {
        lifecycle: Some(Lifecycle::AwaitingApproval),
        ..eligibility()
    }));
    assert!(approval_execution_eligible(&EligibilityFacts {
        lifecycle: Some(Lifecycle::Requested),
        ..eligibility()
    }));
}

#[test]
fn participants_must_be_distinct_approvers_exactly_as_many_as_required() {
    let approvers = vec![APPROVER, OTHER_APPROVER];
    assert!(participants_cover(&vec![uuid_text(APPROVER)], 1, &approvers));
    assert!(!participants_cover(&vec![uuid_text(APPROVER), uuid_text(APPROVER)], 2, &approvers));
    assert!(!participants_cover(&vec![uuid_text(APPROVER)], 2, &approvers));
    assert!(!participants_cover(&vec!["someone".to_string()], 1, &approvers));
    assert!(!participants_cover(&vec![uuid_text(APPROVER).to_uppercase()], 1, &approvers));
    assert!(participants_cover(&vec![], 0, &vec![]));
    assert!(!participants_cover(&vec![], -1, &vec![]));
}

fn candidate(id: u128) -> HandoffCandidate {
    HandoffCandidate {
        deployment_id: id,
        lifecycle: Lifecycle::Approved,
        status: RequirementStatus::Satisfied,
        required_approvers: 1,
        project_revision: Some(4),
        requested_at: 10,
        archives: vec![],
        expired: false,
        execute_queued: false,
    }
}

#[test]
fn handoff_candidates_exclude_archived_expired_queued_and_unready_cycles() {
    assert!(handoff_candidate(&candidate(1), true));
    assert!(!handoff_candidate(&candidate(1), false));
    let no_approver = HandoffCandidate {
        lifecycle: Lifecycle::Requested,
        status: RequirementStatus::Pending,
        required_approvers: 0,
        ..candidate(1)
    };
    assert!(handoff_candidate(&no_approver, false));
    let archived = HandoffCandidate {
        archives: vec![ArchiveEvent { archived_project_revision: Some(4), archived_at: 0 }],
        ..candidate(1)
    };
    assert!(!handoff_candidate(&archived, true));
    let archived_earlier = HandoffCandidate {
        archives: vec![ArchiveEvent { archived_project_revision: Some(3), archived_at: 99 }],
        ..candidate(1)
    };
    assert!(handoff_candidate(&archived_earlier, true));
    assert!(!handoff_candidate(&HandoffCandidate { expired: true, ..candidate(1) }, true));
    assert!(!handoff_candidate(&HandoffCandidate { execute_queued: true, ..candidate(1) }, true));
    assert!(!handoff_candidate(
        &HandoffCandidate { lifecycle: Lifecycle::AwaitingApproval, ..candidate(1) },
        true
    ));
}

#[test]
fn the_handoff_page_keeps_the_first_fifty_candidates_in_order() {
    let mut rows: Vec<HandoffCandidate> = (0..60u128).map(candidate).collect();
    rows[1].expired = true;
    let page = compatible_approval_handoff_deployments(&rows, true);
    assert_eq!(page.len(), HANDOFF_PAGE);
    assert_eq!(page[0], 0);
    assert_eq!(page[1], 2);
    assert_eq!(page[49], 50);
    assert!(compatible_approval_handoff_deployments(&rows, false).is_empty());
}

#[test]
fn a_deferred_handoff_waits_its_base_delay_plus_the_first_byte_of_the_event_id() {
    let id = 0xab00_0000_0000_4000_8000_0000_0000_0001u128;
    let incompatible = defer_incompatible_approval_handoff(id);
    assert_eq!(incompatible.delay_millis, 5_000 + 0xab);
    assert_eq!(incompatible.detail, "An incompatible worker cannot execute an approved handoff.");
    let pending = defer_pending_approval_handoff(1);
    assert_eq!(pending.delay_millis, 1_000);
    assert_eq!(pending.detail, "The approval handoff is not ready for execution.");
}

#[test]
fn maintenance_reports_partial_reconciliation_and_archive_failures() {
    let healthy = expiry_health(&vec![true, true]);
    assert!(healthy.healthy);
    assert_eq!((healthy.attempted, healthy.reconciled, healthy.failed), (2, 2, 0));
    assert_eq!(healthy.failure_code, None);
    let partial = expiry_health(&vec![true, false, false]);
    assert!(!partial.healthy);
    assert_eq!((partial.attempted, partial.reconciled, partial.failed), (3, 1, 2));
    assert_eq!(partial.failure_code.as_deref(), Some("PARTIAL_RECONCILIATION"));
    let idle = expiry_health(&vec![]);
    assert!(idle.healthy);
    assert_eq!(idle.attempted, 0);

    let failed = expiry_failure("SQLSTATE_40001".to_string());
    assert!(!failed.healthy);
    assert_eq!(failed.failure_code.as_deref(), Some("SQLSTATE_40001"));

    assert!(upgrade_health(false).healthy);
    assert_eq!(
        upgrade_health(true).failure_code.as_deref(),
        Some("ARCHIVE_RECONCILIATION_PENDING")
    );
    assert_eq!(
        upgrade_failure("SQLSTATE_57014").failure_code.as_deref(),
        Some("ARCHIVE_RECONCILIATION_SQLSTATE_57014")
    );
}

#[test]
fn a_transition_stamps_the_status_it_reaches() {
    let satisfied = transition_requirement(RequirementStatus::Satisfied, Some(ApprovalCode::ProjectArchived));
    assert!(satisfied.stamp_satisfied && satisfied.requires_unexpired);
    assert!(!satisfied.stamp_rejected && !satisfied.stamp_invalidated);
    assert_eq!(satisfied.invalidation_code, None);
    let invalidated = transition_requirement(RequirementStatus::Invalidated, Some(ApprovalCode::ProjectArchived));
    assert!(invalidated.stamp_invalidated && !invalidated.requires_unexpired);
    assert_eq!(invalidated.invalidation_code, Some(ApprovalCode::ProjectArchived));
    let rejected = transition_requirement(RequirementStatus::Rejected, None);
    assert!(rejected.stamp_rejected && rejected.requires_unexpired);
    let expired = transition_requirement(RequirementStatus::Expired, None);
    assert!(!expired.requires_unexpired && !expired.stamp_invalidated);
}

#[test]
fn only_a_pending_requirement_is_invalidated_and_only_a_waiting_deployment_moves() {
    assert_eq!(
        invalidate_pending_requirement(Some(RequirementStatus::Pending), ApprovalCode::TerminalLifecycle),
        Some(transition_requirement(RequirementStatus::Invalidated, Some(ApprovalCode::TerminalLifecycle)))
    );
    assert_eq!(invalidate_pending_requirement(Some(RequirementStatus::Satisfied), ApprovalCode::TerminalLifecycle), None);
    assert_eq!(invalidate_pending_requirement(None, ApprovalCode::TerminalLifecycle), None);

    assert_eq!(cancel_rejected_deployment(Some(Lifecycle::AwaitingApproval)), Some(Lifecycle::Canceled));
    assert_eq!(cancel_rejected_deployment(Some(Lifecycle::Active)), None);
    assert_eq!(cancel_rejected_deployment(None), None);
    assert_eq!(approve_deployment_for_execution(Some(Lifecycle::AwaitingApproval)), Some(Lifecycle::Approved));
    assert_eq!(approve_deployment_for_execution(Some(Lifecycle::Requested)), Some(Lifecycle::Approved));
    assert_eq!(approve_deployment_for_execution(Some(Lifecycle::Approved)), None);

    assert!(approved_approval_handoff(Some(RequirementStatus::Satisfied), Some(Lifecycle::Approved)));
    assert!(!approved_approval_handoff(Some(RequirementStatus::Satisfied), Some(Lifecycle::Requested)));
    assert!(!approved_approval_handoff(None, Some(Lifecycle::Approved)));
}

#[test]
fn a_requirement_expires_at_its_instant() {
    assert!(requirement_expired(10, 10));
    assert!(requirement_expired(10, 11));
    assert!(!requirement_expired(10, 9));
}

fn heartbeat(worker: &str, compatible: Option<bool>, ready: bool, observed_at: i64) -> WorkerHeartbeatRow {
    WorkerHeartbeatRow {
        worker_id: worker.to_string(),
        approval_execution_compatible: compatible,
        ready,
        observed_at,
    }
}

#[test]
fn a_worker_is_ready_with_a_heartbeat_younger_than_fifteen_seconds() {
    let now = 100 * 1_000_000_000;
    let fresh = heartbeat("w1", Some(true), true, now - HEARTBEAT_FRESHNESS + 1);
    let stale = heartbeat("w2", Some(true), true, now - HEARTBEAT_FRESHNESS);
    assert!(worker_ready(&vec![stale, fresh], now));
    let stale = heartbeat("w2", Some(true), true, now - HEARTBEAT_FRESHNESS);
    assert!(!worker_ready(&vec![stale], now));
    assert!(!worker_ready(&vec![heartbeat("w3", None, true, now)], now));
    assert!(!worker_ready(&vec![heartbeat("w4", Some(true), false, now)], now));
    assert!(!worker_ready(&vec![], now));
    let fresh = || heartbeat("w1", Some(true), true, now - 1);
    assert!(compatible_approval_worker(&vec![fresh()], "w1", now));
    assert!(!compatible_approval_worker(&vec![fresh()], "w2", now));
    let stale = heartbeat("w2", Some(true), true, now - HEARTBEAT_FRESHNESS);
    assert!(!compatible_approval_worker(&vec![stale], "w2", now));
}

#[test]
fn reconciliation_reports_a_change_only_when_it_writes() {
    let blocked = BlockFacts { any_expired: true, ..block_facts() };
    assert!(reconciliation_changed(Reconciliation::BlockExecution, &blocked));
    // A satisfied requirement past its expiry on an active deployment: the block finds no
    // deployment waiting for execution and writes nothing.
    let active = BlockFacts { satisfied_and_waiting: false, ..blocked };
    assert!(!reconciliation_changed(Reconciliation::BlockExecution, &active));
    assert!(!reconciliation_changed(Reconciliation::Unchanged, &blocked));
    assert!(reconciliation_changed(
        Reconciliation::Terminalize {
            action: TerminalAction::Expired,
            code: ApprovalCode::RequirementExpired,
            cancel: true,
        },
        &active
    ));
}
