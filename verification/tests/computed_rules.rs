//! The computed fields of deployments and approval requirements: the timeline, the review, the
//! frozen rule, the gates, the decision availability, the qualifying count, the participant list
//! and the reported evidence state.

use hive_persistence::computed::{
    approval_rule, approval_snapshot, audit_event, audit_message, audit_source, audit_status, canCancel, canPromote,
    canRetry, canRollback, decisionAvailable, participant_ids, qualifyingApprovalCount, review,
    satisfiedParticipants,
    sort_timeline, stage_event, state, terminal, timeline, AuditAction, AuditRow, ReviewFacts,
    StageRow, DeploymentTimelineEvent,
};
use hive_persistence::evidence::{
    Binding, EvidenceSnapshot, EvidenceState, Invalidation, InvalidationKind, DeploymentEvidenceSnapshot,
    PolicySnapshot,
};
use hive_persistence::rows::{DeploymentRow, PlanRow};
use hive_persistence::json::{Json, JsonNumber};
use hive_persistence::lifecycle::{Lifecycle, RequirementStatus};

fn entry(id: u128, attempt_number: i64, sequence: i64) -> DeploymentTimelineEvent {
    DeploymentTimelineEvent {
        id,
        attemptId: None,
        attemptNumber: attempt_number,
        sequence,
        stage: "STAGE".to_string(),
        status: "SUCCEEDED".to_string(),
        message: String::new(),
        source: "WORKER".to_string(),
        occurredAt: 0,
    }
}

fn keys(events: &[DeploymentTimelineEvent]) -> Vec<(i64, i64, u128)> {
    events.iter().map(|event| (event.attemptNumber, event.sequence, event.id)).collect()
}

#[test]
fn the_timeline_orders_by_attempt_then_sequence_then_id() {
    let sorted = sort_timeline(vec![entry(9, 1, 2), entry(3, 0, 5), entry(1, 1, 2), entry(7, 1, 0)]);
    assert_eq!(keys(&sorted), vec![(0, 5, 3), (1, 0, 7), (1, 2, 1), (1, 2, 9)]);
    assert!(sort_timeline(vec![]).is_empty());
}

#[test]
fn a_timeline_page_merges_audits_and_stages_and_is_cut_to_at_most_two_hundred() {
    let audits = vec![entry(2, 0, 1), entry(4, 1, 1)];
    let stages = vec![entry(3, 1, 0), entry(1, 0, 0)];
    let all = timeline(audits, stages, 10);
    assert_eq!(keys(&all), vec![(0, 0, 1), (0, 1, 2), (1, 0, 3), (1, 1, 4)]);
    let cut = timeline(vec![entry(2, 0, 1), entry(4, 1, 1)], vec![entry(3, 1, 0), entry(1, 0, 0)], 2);
    assert_eq!(keys(&cut), vec![(0, 0, 1), (0, 1, 2)]);
    assert!(timeline(vec![entry(1, 0, 0)], vec![], -5).is_empty());
    let many: Vec<DeploymentTimelineEvent> = (0..250u128).map(|id| entry(id, 0, id as i64)).collect();
    assert_eq!(timeline(many, vec![], 1_000).len(), 200);
}

#[test]
fn an_audit_event_reads_as_its_action_status_message_and_source() {
    let row = AuditRow {
        id: 5,
        attempt_id: None,
        attempt_number: None,
        timeline_sequence: Some(3),
        action: AuditAction::Canceled,
        actor: Some(8),
        occurred_at: 42,
    };
    let event = audit_event(&row);
    assert_eq!(event.id, 5);
    assert_eq!(event.attemptNumber, 0);
    assert_eq!(event.sequence, 3);
    assert_eq!(event.stage, "CANCELED");
    assert_eq!(event.status, "CANCELED");
    assert_eq!(event.message, "A user canceled this deployment.");
    assert_eq!(event.source, "USER");
    assert_eq!(event.occurredAt, 42);
}

#[test]
fn audit_statuses_and_sources_follow_the_action() {
    assert_eq!(audit_status(AuditAction::ApprovalExecutionBlocked), "CANCELED");
    assert_eq!(audit_status(AuditAction::OutboxDeadLettered), "FAILED");
    assert_eq!(audit_status(AuditAction::ApprovalInvalidated), "FAILED");
    assert_eq!(audit_status(AuditAction::RollbackRecorded), "RECORDED");
    assert_eq!(audit_status(AuditAction::ExecutionSucceeded), "SUCCEEDED");
    assert_eq!(audit_status(AuditAction::Requested), "SUCCEEDED");
    assert_eq!(audit_source(AuditAction::ApprovalRecorded, Some(1)), "SERVICE");
    assert_eq!(audit_source(AuditAction::ExecutionStarted, None), "WORKER");
    assert_eq!(audit_source(AuditAction::Requested, Some(1)), "USER");
    assert_eq!(audit_message(AuditAction::ExecutionSucceeded), "The local worker recorded successful execution.");
    assert_eq!(AuditAction::OutboxLeaseReclaimed.as_str(), "OUTBOX_LEASE_RECLAIMED");
}

#[test]
fn a_stage_event_is_the_workers() {
    let event = stage_event(
        77,
        2,
        StageRow {
            id: 6,
            timeline_sequence: None,
            stage: "COMPLETED".to_string(),
            status: "SUCCEEDED".to_string(),
            message: "done".to_string(),
            occurred_at: 9,
        },
    );
    assert_eq!(event.attemptId, Some(77));
    assert_eq!(event.attemptNumber, 2);
    assert_eq!(event.sequence, 0);
    assert_eq!(event.stage, "COMPLETED");
    assert_eq!(event.source, "WORKER");
}

fn strings(values: &[&str]) -> Json {
    Json::Array(values.iter().map(|value| Json::Str(value.to_string())).collect())
}

#[test]
fn a_plan_without_retained_facts_reads_the_unavailable_sentence() {
    let empty = review(None);
    assert_eq!(empty.activeAgentVersionNumber, None);
    assert_eq!(empty.changeSummary, "Retained plan review facts are unavailable.");
    assert!(empty.addedDependencyVersions.is_empty());
    assert!(empty.removedDependencyVersions.is_empty());

    let facts = ReviewFacts {
        active_agent_version_number: Some(3),
        change_summary: "two dependencies moved".to_string(),
        added_dependency_versions: strings(&["a@2"]),
        removed_dependency_versions: Json::Array(vec![Json::Str("a@1".to_string()), Json::Null]),
    };
    let retained = review(Some(&facts));
    assert_eq!(retained.activeAgentVersionNumber, Some(3));
    assert_eq!(retained.changeSummary, "two dependencies moved");
    assert_eq!(retained.addedDependencyVersions, vec!["a@2"]);
    assert_eq!(retained.removedDependencyVersions, vec!["a@1"]);
}

#[test]
fn a_frozen_rule_lists_its_evidence_and_approver_count() {
    let rule = approval_rule(Some(&strings(&["SBOM", "SCAN"])), 2);
    assert_eq!(rule.requiredEvidence, vec!["SBOM", "SCAN"]);
    assert_eq!(rule.requiredDistinctApproverCount, 2);
    let bare = approval_rule(None, 0);
    assert!(bare.requiredEvidence.is_empty());
    assert_eq!(bare.requiredDistinctApproverCount, 0);
}

#[test]
fn the_gates_follow_the_lifecycle_and_the_capability() {
    assert!(terminal(Lifecycle::RolledBack));
    assert!(!terminal(Lifecycle::Active));
    assert!(canCancel(Lifecycle::InProgress, true));
    assert!(!canCancel(Lifecycle::Active, true));
    assert!(!canCancel(Lifecycle::Requested, false));
    assert!(canRetry(Lifecycle::Failed, true));
    assert!(!canRetry(Lifecycle::Active, true));
    assert!(canPromote(Lifecycle::Active, true, true));
    assert!(!canPromote(Lifecycle::Active, true, false));
    assert!(canRollback(Lifecycle::Failed, true, true));
    assert!(canRollback(Lifecycle::Active, true, true));
    assert!(!canRollback(Lifecycle::Active, true, false));
    assert!(!canRollback(Lifecycle::Canceled, true, true));
}

#[test]
fn a_decision_is_available_only_to_an_eligible_approver_who_has_not_decided() {
    let available = |required, status, lifecycle, requester, eligible, decided| {
        decisionAvailable(required, status, lifecycle, requester, eligible, decided)
    };
    let waiting = Some(Lifecycle::AwaitingApproval);
    assert!(available(1, RequirementStatus::Pending, waiting, false, true, false));
    assert!(!available(0, RequirementStatus::Pending, waiting, false, true, false));
    assert!(!available(1, RequirementStatus::Satisfied, waiting, false, true, false));
    assert!(!available(1, RequirementStatus::Pending, Some(Lifecycle::Approved), false, true, false));
    assert!(!available(1, RequirementStatus::Pending, None, false, true, false));
    assert!(!available(1, RequirementStatus::Pending, waiting, true, true, false));
    assert!(!available(1, RequirementStatus::Pending, waiting, false, false, false));
    assert!(!available(1, RequirementStatus::Pending, waiting, false, true, true));
}

#[test]
fn the_qualifying_count_skips_the_requester_and_approvers_without_the_capability() {
    let actors = vec![1u128, 2, 3, 4];
    let holds = vec![true, true, false, true];
    assert_eq!(qualifyingApprovalCount(false, 0, true, Some(2), &actors, &holds), 2);
    assert_eq!(qualifyingApprovalCount(false, 0, false, Some(2), &actors, &holds), 0);
    assert_eq!(qualifyingApprovalCount(false, 0, true, None, &actors, &holds), 0);
    assert_eq!(qualifyingApprovalCount(true, 3, false, None, &actors, &holds), 3);
}

#[test]
fn the_participant_list_keeps_each_string_that_reads_as_an_identifier() {
    let first = uuid::Uuid::from_u128(0x0b0b0b0b_1111_4111_8111_111111111111);
    let second = uuid::Uuid::from_u128(7);
    let column = Json::Array(vec![
        Json::Str(first.to_string()),
        Json::Str("not an id".to_string()),
        Json::Number(JsonNumber::Int(7)),
        Json::Str(second.to_string()),
    ]);
    assert_eq!(participant_ids(&column), vec![first.as_u128(), 7]);
    assert!(participant_ids(&Json::Null).is_empty());
}

fn binding() -> Binding {
    Binding {
        binding_digest: Some("binding".to_string()),
        agent_version_id: Some(2),
        environment_definition_version_id: Some(1),
        target_digest: Some("target".to_string()),
        plan_digest: Some("plan".to_string()),
        package_digest: Some("package".to_string()),
    }
}

fn snapshot(expires_at: Option<i64>) -> EvidenceSnapshot {
    EvidenceSnapshot {
        id: 11,
        deployment_id: 1,
        kind: "SBOM".to_string(),
        digest: "sha256:sbom".to_string(),
        expires_at,
        binding: binding(),
    }
}

#[test]
fn a_snapshot_of_a_deployment_without_a_policy_reports_failed_revoked_expired_or_mismatch() {
    let revoked = vec![Invalidation { evidence_snapshot_id: 11, kind: InvalidationKind::Revoked }];
    let failed = vec![
        Invalidation { evidence_snapshot_id: 11, kind: InvalidationKind::Revoked },
        Invalidation { evidence_snapshot_id: 11, kind: InvalidationKind::Failed },
    ];
    assert_eq!(state(&snapshot(None), None, &vec![], 10), EvidenceState::Mismatch);
    assert_eq!(state(&snapshot(Some(10)), None, &vec![], 10), EvidenceState::Expired);
    assert_eq!(state(&snapshot(Some(11)), None, &vec![], 10), EvidenceState::Mismatch);
    assert_eq!(state(&snapshot(Some(10)), None, &revoked, 10), EvidenceState::Revoked);
    assert_eq!(state(&snapshot(Some(10)), None, &failed, 10), EvidenceState::Failed);
    let elsewhere = vec![Invalidation { evidence_snapshot_id: 12, kind: InvalidationKind::Failed }];
    assert_eq!(state(&snapshot(None), None, &elsewhere, 10), EvidenceState::Mismatch);
}

fn deployment_row(environment: Option<u128>) -> DeploymentRow {
    DeploymentRow {
        id: 1,
        organization_id: 2,
        project_id: 3,
        agent_id: 4,
        agent_version_id: 5,
        environment_class: "PRODUCTION".to_string(),
        environment_definition_version_id: environment,
        lifecycle: Lifecycle::AwaitingApproval,
        revision: 1,
        requested_by: 6,
        requested_at: 0,
        project_lifecycle_revision: None,
    }
}

fn policy_snapshot() -> PolicySnapshot {
    PolicySnapshot {
        deployment_id: 1,
        policy_digest: "sha256:policy".to_string(),
        policy_revision: 4,
        policy_matrix: Json::Object(vec![]),
        environment_class: "PRODUCTION".to_string(),
        risk: "HIGH".to_string(),
        required_evidence: strings(&["SBOM"]),
        required_approvers: 2,
        evaluation_requirement_expires_at: None,
        binding: binding(),
    }
}

fn plan_row() -> PlanRow {
    PlanRow {
        id: 9,
        deployment_id: 1,
        target_digest: Some("sha256:target".to_string()),
        plan_digest: "sha256:plan".to_string(),
        package_digest: "sha256:package".to_string(),
        agent_content_digest: None,
        catalog_release_digest: None,
    }
}

#[test]
fn an_approval_snapshot_reads_empty_facts_for_the_rows_it_lacks() {
    let listed = vec![DeploymentEvidenceSnapshot {
        kind: "SBOM".to_string(),
        digest: None,
        binding_digest: None,
        expires_at: None,
        state: EvidenceState::Missing,
    }];
    let digest = "sha256:environment".to_string();
    let full = approval_snapshot(
        Some(&deployment_row(Some(7))),
        Some(&policy_snapshot()),
        Some(&plan_row()),
        Some(&digest),
        2,
        listed,
        99,
    );
    assert_eq!(full.policyDigest, "sha256:policy");
    assert_eq!(full.policyRevision, 4);
    assert_eq!(full.environmentClass, "PRODUCTION");
    assert_eq!(full.risk, "HIGH");
    assert_eq!(full.riskLevel, "HIGH");
    assert_eq!(full.rule.requiredEvidence, vec!["SBOM"]);
    assert_eq!(full.rule.requiredDistinctApproverCount, 2);
    assert_eq!(full.target.agentVersionId, 5);
    assert_eq!(full.target.agentVersionDigest, "");
    assert_eq!(full.target.environmentDefinitionVersionId, Some(7));
    assert_eq!(full.target.environmentDefinitionDigest, "sha256:environment");
    assert_eq!(full.target.targetDigest, "sha256:target");
    assert_eq!(full.target.deploymentPlanDigest, "sha256:plan");
    assert_eq!(full.target.artifactDigest, "sha256:package");
    assert_eq!(full.evidence.len(), 1);
    assert_eq!(full.expiresAt, 99);

    let bare = approval_snapshot(None, None, None, Some(&digest), 1, vec![], 5);
    assert_eq!(bare.policyDigest, "");
    assert_eq!(bare.policyRevision, 0);
    assert!(bare.rule.requiredEvidence.is_empty());
    assert_eq!(bare.rule.requiredDistinctApproverCount, 1);
    assert_eq!(bare.target.agentVersionId, 0);
    assert_eq!(bare.target.environmentDefinitionVersionId, None);
    assert_eq!(bare.target.environmentDefinitionDigest, "");
    assert_eq!(bare.target.deploymentPlanDigest, "");
}

#[test]
fn satisfied_participants_keep_the_frozen_order_and_drop_unknown_principals() {
    assert_eq!(satisfiedParticipants(&vec![3, 1, 2, 1], &vec![1, 3]), vec![3, 1, 1]);
    assert!(satisfiedParticipants(&vec![], &vec![1]).is_empty());
    assert!(satisfiedParticipants(&vec![4], &vec![]).is_empty());
}
