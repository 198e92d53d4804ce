//! The computed fields of the deployment objects: the audit vocabulary a timeline renders, the
//! ordered and bounded timeline itself, the action hints a surface renders, the plan review with
//! its placeholder, and the approval surface's counts and listings.

use crate::json::{json_strings, string_list, string_views, Json};
use crate::lifecycle::{is_cancellable, is_terminal, Lifecycle, RequirementStatus};
use crate::text::starts_with;
use vstd::prelude::*;

verus! {

broadcast use vstd::seq_lib::group_to_multiset_ensures;

/// An audit action a deployment records.
#[derive(PartialEq, Eq, Structural, Clone, Copy, Debug)]
pub enum AuditAction {
    Requested,
    Canceled,
    OutboxDeadLettered,
    OutboxLeaseReclaimed,
    OutboxDeliveryRetried,
    ExecutionStarted,
    ExecutionSucceeded,
    ExecutionFailed,
    ApprovalRecorded,
    ApprovalReplayed,
    ApprovalSatisfied,
    ApprovalRejected,
    ApprovalExpired,
    ApprovalInvalidated,
    ApprovalExecutionBlocked,
    RetryRecorded,
    PromotionRecorded,
    RollbackRecorded,
}

/// The stored spelling of an audit action.
pub open spec fn audit_action_text(action: AuditAction) -> Seq<char> {
    match action {
        AuditAction::Requested => "REQUESTED"@,
        AuditAction::Canceled => "CANCELED"@,
        AuditAction::OutboxDeadLettered => "OUTBOX_DEAD_LETTERED"@,
        AuditAction::OutboxLeaseReclaimed => "OUTBOX_LEASE_RECLAIMED"@,
        AuditAction::OutboxDeliveryRetried => "OUTBOX_DELIVERY_RETRIED"@,
        AuditAction::ExecutionStarted => "EXECUTION_STARTED"@,
        AuditAction::ExecutionSucceeded => "EXECUTION_SUCCEEDED"@,
        AuditAction::ExecutionFailed => "EXECUTION_FAILED"@,
        AuditAction::ApprovalRecorded => "APPROVAL_RECORDED"@,
        AuditAction::ApprovalReplayed => "APPROVAL_REPLAYED"@,
        AuditAction::ApprovalSatisfied => "APPROVAL_SATISFIED"@,
        AuditAction::ApprovalRejected => "APPROVAL_REJECTED"@,
        AuditAction::ApprovalExpired => "APPROVAL_EXPIRED"@,
        AuditAction::ApprovalInvalidated => "APPROVAL_INVALIDATED"@,
        AuditAction::ApprovalExecutionBlocked => "APPROVAL_EXECUTION_BLOCKED"@,
        AuditAction::RetryRecorded => "RETRY_RECORDED"@,
        AuditAction::PromotionRecorded => "PROMOTION_RECORDED"@,
        AuditAction::RollbackRecorded => "ROLLBACK_RECORDED"@,
    }
}

impl AuditAction {
    /// The stored spelling of the action.
    pub fn as_str(&self) -> (r: &'static str)
        ensures
            r@ == audit_action_text(*self),
    {
        match self {
            AuditAction::Requested => "REQUESTED",
            AuditAction::Canceled => "CANCELED",
            AuditAction::OutboxDeadLettered => "OUTBOX_DEAD_LETTERED",
            AuditAction::OutboxLeaseReclaimed => "OUTBOX_LEASE_RECLAIMED",
            AuditAction::OutboxDeliveryRetried => "OUTBOX_DELIVERY_RETRIED",
            AuditAction::ExecutionStarted => "EXECUTION_STARTED",
            AuditAction::ExecutionSucceeded => "EXECUTION_SUCCEEDED",
            AuditAction::ExecutionFailed => "EXECUTION_FAILED",
            AuditAction::ApprovalRecorded => "APPROVAL_RECORDED",
            AuditAction::ApprovalReplayed => "APPROVAL_REPLAYED",
            AuditAction::ApprovalSatisfied => "APPROVAL_SATISFIED",
            AuditAction::ApprovalRejected => "APPROVAL_REJECTED",
            AuditAction::ApprovalExpired => "APPROVAL_EXPIRED",
            AuditAction::ApprovalInvalidated => "APPROVAL_INVALIDATED",
            AuditAction::ApprovalExecutionBlocked => "APPROVAL_EXECUTION_BLOCKED",
            AuditAction::RetryRecorded => "RETRY_RECORDED",
            AuditAction::PromotionRecorded => "PROMOTION_RECORDED",
            AuditAction::RollbackRecorded => "ROLLBACK_RECORDED",
        }
    }
}

/// The timeline status of an audit action: a cancellation, rejection or execution block is
/// `CANCELED`; a failure, dead letter, expiry or invalidation is `FAILED`; a replay, delivery retry
/// or recorded recovery or promotion is `RECORDED`; everything else `SUCCEEDED`.
pub open spec fn audit_status_spec(action: AuditAction) -> Seq<char> {
    match action {
        AuditAction::Canceled | AuditAction::ApprovalRejected | AuditAction::ApprovalExecutionBlocked => "CANCELED"@,
        AuditAction::ExecutionFailed | AuditAction::OutboxDeadLettered | AuditAction::ApprovalExpired
        | AuditAction::ApprovalInvalidated => "FAILED"@,
        AuditAction::ApprovalReplayed | AuditAction::OutboxDeliveryRetried | AuditAction::RetryRecorded
        | AuditAction::PromotionRecorded | AuditAction::RollbackRecorded => "RECORDED"@,
        _ => "SUCCEEDED"@,
    }
}

/// The timeline status of an audit action.
pub fn audit_status(action: AuditAction) -> (r: &'static str)
    ensures
        r@ == audit_status_spec(action),
{
    match action {
        AuditAction::Canceled | AuditAction::ApprovalRejected | AuditAction::ApprovalExecutionBlocked => "CANCELED",
        AuditAction::ExecutionFailed | AuditAction::OutboxDeadLettered | AuditAction::ApprovalExpired
        | AuditAction::ApprovalInvalidated => "FAILED",
        AuditAction::ApprovalReplayed | AuditAction::OutboxDeliveryRetried | AuditAction::RetryRecorded
        | AuditAction::PromotionRecorded | AuditAction::RollbackRecorded => "RECORDED",
        _ => "SUCCEEDED",
    }
}

/// The fixed timeline message of an audit action.
pub open spec fn audit_message_spec(action: AuditAction) -> Seq<char> {
    match action {
        AuditAction::Requested => "A user recorded this deployment request."@,
        AuditAction::Canceled => "A user canceled this deployment."@,
        AuditAction::OutboxDeadLettered => "The local worker isolated an event."@,
        AuditAction::OutboxLeaseReclaimed => "The local worker reclaimed an expired lease."@,
        AuditAction::OutboxDeliveryRetried => "The local worker recorded a bounded database-delivery retry."@,
        AuditAction::ExecutionStarted => "The local worker started execution."@,
        AuditAction::ExecutionFailed => "The local worker recorded a sanitized failure."@,
        AuditAction::ApprovalRecorded => "An eligible approver recorded an immutable decision."@,
        AuditAction::ApprovalReplayed => "The service returned the actor's immutable decision for this request."@,
        AuditAction::ApprovalSatisfied => "The frozen approval requirement was satisfied."@,
        AuditAction::ApprovalRejected => "An eligible approver rejected this deployment request."@,
        AuditAction::ApprovalExpired => "The approval requirement expired before satisfaction."@,
        AuditAction::ApprovalInvalidated => "The approval requirement no longer matched its frozen evidence."@,
        AuditAction::ApprovalExecutionBlocked => "The local worker stopped execution because frozen approval requirements were no longer executable."@,
        AuditAction::RetryRecorded => "An authorized operator recorded a new recovery deployment cycle."@,
        AuditAction::PromotionRecorded => "An authorized operator recorded a promotion for the observed healthy target."@,
        AuditAction::RollbackRecorded => "An authorized operator recorded a rollback deployment cycle."@,
        _ => "The local worker recorded successful execution."@,
    }
}

/// The fixed timeline message of an audit action.
pub fn audit_message(action: AuditAction) -> (r: &'static str)
    ensures
        r@ == audit_message_spec(action),
{
    match action {
        AuditAction::Requested => "A user recorded this deployment request.",
        AuditAction::Canceled => "A user canceled this deployment.",
        AuditAction::OutboxDeadLettered => "The local worker isolated an event.",
        AuditAction::OutboxLeaseReclaimed => "The local worker reclaimed an expired lease.",
        AuditAction::OutboxDeliveryRetried => "The local worker recorded a bounded database-delivery retry.",
        AuditAction::ExecutionStarted => "The local worker started execution.",
        AuditAction::ExecutionFailed => "The local worker recorded a sanitized failure.",
        AuditAction::ApprovalRecorded => "An eligible approver recorded an immutable decision.",
        AuditAction::ApprovalReplayed => "The service returned the actor's immutable decision for this request.",
        AuditAction::ApprovalSatisfied => "The frozen approval requirement was satisfied.",
        AuditAction::ApprovalRejected => "An eligible approver rejected this deployment request.",
        AuditAction::ApprovalExpired => "The approval requirement expired before satisfaction.",
        AuditAction::ApprovalInvalidated => "The approval requirement no longer matched its frozen evidence.",
        AuditAction::ApprovalExecutionBlocked => "The local worker stopped execution because frozen approval requirements were no longer executable.",
        AuditAction::RetryRecorded => "An authorized operator recorded a new recovery deployment cycle.",
        AuditAction::PromotionRecorded => "An authorized operator recorded a promotion for the observed healthy target.",
        AuditAction::RollbackRecorded => "An authorized operator recorded a rollback deployment cycle.",
        _ => "The local worker recorded successful execution.",
    }
}

/// Who an audit event is attributed to: every `APPROVAL_*` action is the service's own, an action
/// with no actor is the worker's, and everything else is a user's.
pub open spec fn audit_source_spec(action: AuditAction, actor: Option<u128>) -> Seq<char> {
    if "APPROVAL_"@.is_prefix_of(audit_action_text(action)) {
        "SERVICE"@
    } else if actor is None {
        "WORKER"@
    } else {
        "USER"@
    }
}

/// Who an audit event is attributed to.
pub fn audit_source(action: AuditAction, actor: Option<u128>) -> (r: &'static str)
    ensures
        r@ == audit_source_spec(action, actor),
{
    if starts_with(action.as_str(), "APPROVAL_") {
        "SERVICE"
    } else if actor.is_none() {
        "WORKER"
    } else {
        "USER"
    }
}

/// One entry of a deployment's ordered history. Instants are nanoseconds since the Unix epoch.
#[allow(non_snake_case)]
pub struct DeploymentTimelineEvent {
    pub id: u128,
    pub attemptId: Option<u128>,
    pub attemptNumber: i64,
    pub sequence: i64,
    pub stage: String,
    pub status: String,
    pub message: String,
    pub source: String,
    pub occurredAt: i64,
}

/// A stored audit event of a deployment.
pub struct AuditRow {
    pub id: u128,
    pub attempt_id: Option<u128>,
    pub attempt_number: Option<i64>,
    pub timeline_sequence: Option<i64>,
    pub action: AuditAction,
    pub actor: Option<u128>,
    pub occurred_at: i64,
}

/// The timeline entry of an audit event: its attempt number and sequence (zero when absent), its
/// action as the stage, and the action's status, message and source.
pub fn audit_event(row: &AuditRow) -> (r: DeploymentTimelineEvent)
    ensures
        r.id == row.id,
        r.attemptId == row.attempt_id,
        r.attemptNumber == match row.attempt_number { Some(n) => n, None => 0 },
        r.sequence == match row.timeline_sequence { Some(n) => n, None => 0 },
        r.stage@ == audit_action_text(row.action),
        r.status@ == audit_status_spec(row.action),
        r.message@ == audit_message_spec(row.action),
        r.source@ == audit_source_spec(row.action, row.actor),
        r.occurredAt == row.occurred_at,
{
    DeploymentTimelineEvent {
        id: row.id,
        attemptId: row.attempt_id,
        attemptNumber: match row.attempt_number {
            Some(n) => n,
            None => 0,
        },
        sequence: match row.timeline_sequence {
            Some(n) => n,
            None => 0,
        },
        stage: String::from_str(row.action.as_str()),
        status: String::from_str(audit_status(row.action)),
        message: String::from_str(audit_message(row.action)),
        source: String::from_str(audit_source(row.action, row.actor)),
        occurredAt: row.occurred_at,
    }
}

/// A stored stage event of one of a deployment's attempts.
pub struct StageRow {
    pub id: u128,
    pub timeline_sequence: Option<i64>,
    pub stage: String,
    pub status: String,
    pub message: String,
    pub occurred_at: i64,
}

/// The timeline entry of a stage event of the attempt `attempt_id`, numbered `attempt_number`:
/// the worker's, with the stage's own stage, status and message.
pub fn stage_event(attempt_id: u128, attempt_number: i64, row: StageRow) -> (r: DeploymentTimelineEvent)
    ensures
        r.id == row.id,
        r.attemptId == Some(attempt_id),
        r.attemptNumber == attempt_number,
        r.sequence == match row.timeline_sequence { Some(n) => n, None => 0 },
        r.stage@ == row.stage@,
        r.status@ == row.status@,
        r.message@ == row.message@,
        r.source@ == "WORKER"@,
        r.occurredAt == row.occurred_at,
{
    DeploymentTimelineEvent {
        id: row.id,
        attemptId: Some(attempt_id),
        attemptNumber: attempt_number,
        sequence: match row.timeline_sequence {
            Some(n) => n,
            None => 0,
        },
        stage: row.stage,
        status: row.status,
        message: row.message,
        source: String::from_str("WORKER"),
        occurredAt: row.occurred_at,
    }
}

/// The timeline order: by attempt number, then by timeline sequence, then by identifier.
pub open spec fn timeline_le(a: DeploymentTimelineEvent, b: DeploymentTimelineEvent) -> bool {
    a.attemptNumber < b.attemptNumber || (a.attemptNumber == b.attemptNumber && (a.sequence < b.sequence
        || (a.sequence == b.sequence && a.id <= b.id)))
}

/// Whether a list of entries is in timeline order.
pub open spec fn timeline_sorted(events: Seq<DeploymentTimelineEvent>) -> bool {
    forall|i: int, j: int| 0 <= i < j < events.len() ==> timeline_le(events[i], events[j])
}

fn timeline_before(a: &DeploymentTimelineEvent, b: &DeploymentTimelineEvent) -> (r: bool)
    ensures
        r == !timeline_le(*b, *a),
{
    a.attemptNumber < b.attemptNumber || (a.attemptNumber == b.attemptNumber && (a.sequence < b.sequence
        || (a.sequence == b.sequence && a.id < b.id)))
}

/// Puts entries in timeline order, keeping entries of equal keys in the order given.
pub fn sort_timeline(events: Vec<DeploymentTimelineEvent>) -> (r: Vec<DeploymentTimelineEvent>)
    ensures
        timeline_sorted(r@),
        r@.to_multiset() == events@.to_multiset(),
{
    let ghost given = events@;
    let mut source = events;
    let mut sorted: Vec<DeploymentTimelineEvent> = Vec::new();
    let n = source.len();
    let mut done: usize = 0;
    while done < n
        invariant
            n == given.len(),
            done <= n,
            source@ == given.skip(done as int),
            timeline_sorted(sorted@),
            sorted@.to_multiset() == given.take(done as int).to_multiset(),
        decreases n - done,
    {
        let event = source.remove(0);
        assert(event == given[done as int]);
        assert(source@ =~= given.skip(done as int + 1));
        // The position after every entry that does not come after `event`.
        let mut pos: usize = sorted.len();
        while pos > 0 && timeline_before(&event, &sorted[pos - 1])
            invariant
                pos <= sorted@.len(),
                timeline_sorted(sorted@),
                forall|k: int| pos <= k < sorted@.len() ==> !timeline_le(#[trigger] sorted@[k], event),
            decreases pos,
        {
            pos = pos - 1;
        }
        let ghost before = sorted@;
        proof {
            assert forall|k: int| 0 <= k < pos implies timeline_le(#[trigger] before[k], event) by {
                if pos > 0 {
                    assert(timeline_le(before[pos - 1], event));
                    assert(timeline_le(before[k], before[pos - 1]) || k == pos - 1);
                }
            }
        }
        sorted.insert(pos, event);
        proof {
            vstd::seq_lib::to_multiset_insert(before, pos as int, event);
            assert(given.take(done as int + 1) =~= given.take(done as int).push(given[done as int]));
            assert forall|i: int, j: int| 0 <= i < j < sorted@.len() implies timeline_le(sorted@[i], sorted@[j]) by {
                if j < pos {
                    assert(sorted@[i] == before[i] && sorted@[j] == before[j]);
                } else if j == pos {
                    assert(sorted@[i] == before[i]);
                } else if i < pos {
                    assert(sorted@[i] == before[i] && sorted@[j] == before[j - 1]);
                    assert(timeline_le(before[i], event));
                    assert(!timeline_le(before[j - 1], event));
                } else if i == pos {
                    assert(sorted@[j] == before[j - 1]);
                    assert(!timeline_le(before[j - 1], event));
                } else {
                    assert(sorted@[i] == before[i - 1] && sorted@[j] == before[j - 1]);
                }
            }
        }
        done = done + 1;
    }
    assert(given.take(n as int) =~= given);
    sorted
}

/// The largest timeline page a single request may ask for.
pub const TIMELINE_LIMIT: i64 = 200;

/// The length of a timeline page asked for with `first`: `first` clamped between 0 and 200.
pub open spec fn page_length(first: i64) -> int {
    if first < 0 { 0 } else if first > TIMELINE_LIMIT { TIMELINE_LIMIT as int } else { first as int }
}

/// A deployment's timeline page: its audit entries and its attempts' stage entries in one list,
/// ordered by attempt, then by sequence, then by identifier, and cut to the page length `first`
/// asks for.
pub fn timeline(audits: Vec<DeploymentTimelineEvent>, stages: Vec<DeploymentTimelineEvent>, first: i64) -> (r: Vec<DeploymentTimelineEvent>)
    ensures
        exists|all: Seq<DeploymentTimelineEvent>| {
            &&& timeline_sorted(all)
            &&& all.to_multiset() == (audits@ + stages@).to_multiset()
            &&& r@ == if all.len() <= page_length(first) { all } else { all.take(page_length(first)) }
        },
{
    let limit: i64 = if first < 0 { 0 } else if first > TIMELINE_LIMIT { TIMELINE_LIMIT } else { first };
    let mut events = audits;
    let mut rest = stages;
    let ghost joined = events@ + rest@;
    events.append(&mut rest);
    let mut sorted = sort_timeline(events);
    let ghost all = sorted@;
    sorted.truncate(limit as usize);
    assert(sorted@ =~= if all.len() <= page_length(first) { all } else { all.take(page_length(first)) });
    sorted
}

/// The retained review facts of a frozen plan.
#[allow(non_snake_case)]
pub struct DeploymentPlanReview {
    pub activeAgentVersionNumber: Option<i64>,
    pub changeSummary: String,
    pub addedDependencyVersions: Vec<String>,
    pub removedDependencyVersions: Vec<String>,
}

/// The review facts a plan retained.
pub struct ReviewFacts {
    pub active_agent_version_number: Option<i64>,
    pub change_summary: String,
    pub added_dependency_versions: Json,
    pub removed_dependency_versions: Json,
}

/// The sentence a plan with no retained facts reads.
pub open spec fn review_unavailable() -> Seq<char> {
    "Retained plan review facts are unavailable."@
}

/// A plan's review: its retained facts, with the dependency lists read as lists of strings, or,
/// for a plan that retained none, no version number, the unavailable sentence and empty lists.
pub fn review(facts: Option<&ReviewFacts>) -> (r: DeploymentPlanReview)
    ensures
        match facts {
            Some(f) => {
                &&& r.activeAgentVersionNumber == f.active_agent_version_number
                &&& r.changeSummary@ == f.change_summary@
                &&& string_views(r.addedDependencyVersions@) == json_strings(f.added_dependency_versions)
                &&& string_views(r.removedDependencyVersions@) == json_strings(f.removed_dependency_versions)
            },
            None => {
                &&& r.activeAgentVersionNumber is None
                &&& r.changeSummary@ == review_unavailable()
                &&& r.addedDependencyVersions@.len() == 0
                &&& r.removedDependencyVersions@.len() == 0
            },
        },
{
    match facts {
        Some(f) => DeploymentPlanReview {
            activeAgentVersionNumber: f.active_agent_version_number,
            changeSummary: f.change_summary.clone(),
            addedDependencyVersions: string_list(&f.added_dependency_versions),
            removedDependencyVersions: string_list(&f.removed_dependency_versions),
        },
        None => DeploymentPlanReview {
            activeAgentVersionNumber: None,
            changeSummary: String::from_str("Retained plan review facts are unavailable."),
            addedDependencyVersions: Vec::new(),
            removedDependencyVersions: Vec::new(),
        },
    }
}

/// The frozen rule of an approval requirement's policy cell.
#[allow(non_snake_case)]
pub struct ProjectApprovalPolicyRule {
    pub requiredEvidence: Vec<String>,
    pub requiredDistinctApproverCount: i32,
}

/// A requirement's frozen rule: the evidence its policy snapshot requires (none without a
/// snapshot) and the approvers the requirement requires.
pub fn approval_rule(required_evidence: Option<&Json>, required_approvers: i32) -> (r: ProjectApprovalPolicyRule)
    ensures
        string_views(r.requiredEvidence@) == match required_evidence {
            Some(value) => json_strings(*value),
            None => Seq::<Seq<char>>::empty(),
        },
        r.requiredDistinctApproverCount == required_approvers,
{
    let evidence = match required_evidence {
        Some(value) => string_list(value),
        None => {
            let empty: Vec<String> = Vec::new();
            assert(string_views(empty@) =~= Seq::<Seq<char>>::empty());
            empty
        },
    };
    ProjectApprovalPolicyRule { requiredEvidence: evidence, requiredDistinctApproverCount: required_approvers }
}

/// The frozen target an approval requirement was recorded against.
#[allow(non_snake_case)]
pub struct ApprovalTargetSnapshot {
    pub agentVersionId: u128,
    pub agentVersionDigest: String,
    pub environmentDefinitionVersionId: Option<u128>,
    pub environmentDefinitionDigest: String,
    pub targetDigest: String,
    pub deploymentPlanDigest: String,
    pub artifactDigest: String,
}

/// The frozen policy, rule, target and evidence facts of one approval requirement.
#[allow(non_snake_case)]
pub struct DeploymentApprovalSnapshot {
    pub policyDigest: String,
    pub policyRevision: i64,
    pub environmentClass: String,
    pub risk: String,
    pub riskLevel: String,
    pub rule: ProjectApprovalPolicyRule,
    pub target: ApprovalTargetSnapshot,
    pub evidence: Vec<crate::evidence::DeploymentEvidenceSnapshot>,
    /// Nanoseconds since the Unix epoch.
    pub expiresAt: i64,
}

/// An optional text, or the empty text in its absence.
pub open spec fn or_empty(value: Option<String>) -> Seq<char> {
    match value {
        Some(text) => text@,
        None => Seq::empty(),
    }
}

fn text_or_empty(value: Option<&String>) -> (r: String)
    ensures
        r@ == match value {
            Some(text) => text@,
            None => Seq::<char>::empty(),
        },
{
    match value {
        Some(text) => text.clone(),
        None => String::new(),
    }
}

/// A requirement's approval snapshot, from what its deployment, policy snapshot, frozen plan and
/// environment definition version still hold: each fact a missing row cannot give reads as the
/// empty text (or 0, or no identifier), the risk level repeats the risk, the rule is the frozen
/// rule with the requirement's approver count, and the evidence and expiry are the requirement's.
/// The environment's digest counts only for a deployment that names an environment.
pub fn approval_snapshot(
    deployment: Option<&crate::rows::DeploymentRow>,
    policy: Option<&crate::evidence::PolicySnapshot>,
    plan: Option<&crate::rows::PlanRow>,
    environment_digest: Option<&String>,
    required_approvers: i32,
    evidence: Vec<crate::evidence::DeploymentEvidenceSnapshot>,
    expires_at: i64,
) -> (r: DeploymentApprovalSnapshot)
    ensures
        r.policyDigest@ == match policy { Some(p) => p.policy_digest@, None => Seq::<char>::empty() },
        r.policyRevision == match policy { Some(p) => p.policy_revision, None => 0 },
        r.environmentClass@ == match policy { Some(p) => p.environment_class@, None => Seq::<char>::empty() },
        r.risk@ == match policy { Some(p) => p.risk@, None => Seq::<char>::empty() },
        r.riskLevel@ == r.risk@,
        string_views(r.rule.requiredEvidence@) == match policy {
            Some(p) => json_strings(p.required_evidence),
            None => Seq::<Seq<char>>::empty(),
        },
        r.rule.requiredDistinctApproverCount == required_approvers,
        r.target.agentVersionId == match deployment { Some(d) => d.agent_version_id, None => 0 },
        r.target.environmentDefinitionVersionId == match deployment {
            Some(d) => d.environment_definition_version_id,
            None => None,
        },
        r.target.environmentDefinitionDigest@ == match (r.target.environmentDefinitionVersionId, environment_digest) {
            (Some(_), Some(digest)) => digest@,
            _ => Seq::<char>::empty(),
        },
        r.target.agentVersionDigest@ == match plan { Some(p) => or_empty(p.agent_content_digest), None => Seq::<char>::empty() },
        r.target.targetDigest@ == match plan { Some(p) => or_empty(p.target_digest), None => Seq::<char>::empty() },
        r.target.deploymentPlanDigest@ == match plan { Some(p) => p.plan_digest@, None => Seq::<char>::empty() },
        r.target.artifactDigest@ == match plan { Some(p) => p.package_digest@, None => Seq::<char>::empty() },
        r.evidence@ == evidence@,
        r.expiresAt == expires_at,
{
    let environment_id = match deployment {
        Some(d) => d.environment_definition_version_id,
        None => None,
    };
    let environment_digest = match environment_id {
        Some(_) => text_or_empty(environment_digest),
        None => String::new(),
    };
    let risk = match policy {
        Some(p) => p.risk.clone(),
        None => String::new(),
    };
    let risk_level = risk.clone();
    let rule = match policy {
        Some(p) => approval_rule(Some(&p.required_evidence), required_approvers),
        None => approval_rule(None, required_approvers),
    };
    let target = match plan {
        Some(p) => ApprovalTargetSnapshot {
            agentVersionId: match deployment {
                Some(d) => d.agent_version_id,
                None => 0,
            },
            agentVersionDigest: text_or_empty(p.agent_content_digest.as_ref()),
            environmentDefinitionVersionId: environment_id,
            environmentDefinitionDigest: environment_digest,
            targetDigest: text_or_empty(p.target_digest.as_ref()),
            deploymentPlanDigest: p.plan_digest.clone(),
            artifactDigest: p.package_digest.clone(),
        },
        None => ApprovalTargetSnapshot {
            agentVersionId: match deployment {
                Some(d) => d.agent_version_id,
                None => 0,
            },
            agentVersionDigest: String::new(),
            environmentDefinitionVersionId: environment_id,
            environmentDefinitionDigest: environment_digest,
            targetDigest: String::new(),
            deploymentPlanDigest: String::new(),
            artifactDigest: String::new(),
        },
    };
    DeploymentApprovalSnapshot {
        policyDigest: match policy {
            Some(p) => p.policy_digest.clone(),
            None => String::new(),
        },
        policyRevision: match policy {
            Some(p) => p.policy_revision,
            None => 0,
        },
        environmentClass: match policy {
            Some(p) => p.environment_class.clone(),
            None => String::new(),
        },
        risk,
        riskLevel: risk_level,
        rule,
        target,
        evidence,
        expiresAt: expires_at,
    }
}

/// Whether a deployment has reached a lifecycle no transition leaves.
pub fn terminal(lifecycle: Lifecycle) -> (r: bool)
    ensures
        r == is_terminal(lifecycle),
{
    lifecycle.is_terminal()
}

/// Whether the caller may cancel the deployment now: a cancellable lifecycle and the cancel
/// capability.
#[allow(non_snake_case)]
pub fn canCancel(lifecycle: Lifecycle, may_cancel: bool) -> (r: bool)
    ensures
        r == (is_cancellable(lifecycle) && may_cancel),
{
    lifecycle.is_cancellable() && may_cancel
}

/// Whether the caller may start a recovery cycle: a failed deployment and the retry capability.
#[allow(non_snake_case)]
pub fn canRetry(lifecycle: Lifecycle, may_retry: bool) -> (r: bool)
    ensures
        r == (lifecycle == Lifecycle::Failed && may_retry),
{
    lifecycle == Lifecycle::Failed && may_retry
}

/// Whether the caller may record a promotion: an active deployment, the promote capability and
/// an observed runtime health of `HEALTHY`.
#[allow(non_snake_case)]
pub fn canPromote(lifecycle: Lifecycle, may_promote: bool, runtime_healthy: bool) -> (r: bool)
    ensures
        r == (lifecycle == Lifecycle::Active && may_promote && runtime_healthy),
{
    lifecycle == Lifecycle::Active && may_promote && runtime_healthy
}

/// Whether the caller may start a rollback cycle: a failed or active deployment, the rollback
/// capability and a prior active target to return to.
#[allow(non_snake_case)]
pub fn canRollback(lifecycle: Lifecycle, may_roll_back: bool, has_rollback_target: bool) -> (r: bool)
    ensures
        r == ((lifecycle == Lifecycle::Failed || lifecycle == Lifecycle::Active) && may_roll_back && has_rollback_target),
{
    (lifecycle == Lifecycle::Failed || lifecycle == Lifecycle::Active) && may_roll_back && has_rollback_target
}

/// Whether the caller has a decision left to record on a requirement: one that needs approvers and
/// is still pending, of a deployment awaiting approval that the caller did not request, for an
/// eligible approver that has not decided yet.
#[allow(non_snake_case)]
pub fn decisionAvailable(
    required_approvers: i32,
    status: RequirementStatus,
    lifecycle: Option<Lifecycle>,
    caller_is_requester: bool,
    eligible: bool,
    decided: bool,
) -> (r: bool)
    ensures
        r == (required_approvers > 0 && status is Pending && lifecycle == Some(Lifecycle::AwaitingApproval)
            && !caller_is_requester && eligible && !decided),
{
    if required_approvers <= 0 || status != RequirementStatus::Pending {
        return false;
    }
    match lifecycle {
        Some(Lifecycle::AwaitingApproval) => {},
        _ => return false,
    }
    if caller_is_requester || !eligible {
        return false;
    }
    !decided
}

/// The qualifying approval count the approval surface shows: a satisfied requirement counts its
/// frozen participants; otherwise none count on an inactive project or without the deployment, and
/// else every approving actor other than the requester that holds the decide capability counts.
#[allow(non_snake_case)]
pub fn qualifyingApprovalCount(
    satisfied: bool,
    participants: usize,
    project_active: bool,
    requested_by: Option<u128>,
    actors: &Vec<u128>,
    holds_decide: &Vec<bool>,
) -> (r: i32)
    requires
        participants <= i32::MAX,
        actors@.len() <= i32::MAX,
        holds_decide@.len() == actors@.len(),
    ensures
        r == if satisfied {
            participants as int
        } else if !project_active || requested_by is None {
            0
        } else {
            crate::decisions::qualifying_spec(actors@, holds_decide@, requested_by->0).len() as int
        },
{
    if satisfied {
        return participants as i32;
    }
    let requester = match requested_by {
        Some(requester) => requester,
        None => return 0,
    };
    if !project_active {
        return 0;
    }
    let qualifying = crate::decisions::qualifying_approvers(actors, holds_decide, requester);
    proof { crate::decisions::qualifying_spec_bounded(actors@, holds_decide@, requester); }
    qualifying.len() as i32
}

/// The identifiers a satisfied requirement's participant column lists, in its order: each string
/// of the list that reads as an identifier.
pub open spec fn participant_ids_spec(texts: Seq<Seq<char>>) -> Seq<u128>
    decreases texts.len(),
{
    if texts.len() == 0 {
        Seq::empty()
    } else {
        let earlier = participant_ids_spec(texts.drop_last());
        match crate::ids::uuid_parsed(texts.last()) {
            Some(id) => earlier.push(id),
            None => earlier,
        }
    }
}

/// The identifiers a participant column lists.
pub fn participant_ids(value: &Json) -> (r: Vec<u128>)
    ensures
        r@ == participant_ids_spec(json_strings(*value)),
{
    let texts = string_list(value);
    let ghost views = string_views(texts@);
    let mut out: Vec<u128> = Vec::new();
    let mut i: usize = 0;
    while i < texts.len()
        invariant
            i <= texts@.len(),
            views == string_views(texts@),
            out@ == participant_ids_spec(views.take(i as int)),
        decreases texts@.len() - i,
    {
        assert(views.take(i as int + 1).drop_last() =~= views.take(i as int));
        assert(views.take(i as int + 1).last() == texts@[i as int]@);
        match crate::ids::parse_uuid(texts[i].as_str()) {
            Some(id) => out.push(id),
            None => {},
        }
        i = i + 1;
    }
    assert(views.take(views.len() as int) =~= views);
    out
}

/// The participants a satisfied requirement lists: the identifiers of its frozen list, in that
/// order, that name a principal still found.
pub open spec fn listed_participants(ids: Seq<u128>, found: Seq<u128>) -> Seq<u128>
    decreases ids.len(),
{
    if ids.len() == 0 {
        Seq::empty()
    } else {
        let earlier = listed_participants(ids.drop_last(), found);
        if found.contains(ids.last()) {
            earlier.push(ids.last())
        } else {
            earlier
        }
    }
}

fn holds_id(found: &Vec<u128>, id: u128) -> (r: bool)
    ensures
        r == found@.contains(id),
{
    let mut k: usize = 0;
    while k < found.len()
        invariant
            k <= found@.len(),
            forall|m: int| 0 <= m < k ==> found@[m] != id,
        decreases found@.len() - k,
    {
        if found[k] == id {
            assert(found@[k as int] == id);
            return true;
        }
        k = k + 1;
    }
    false
}

/// The principals whose decisions satisfied a requirement, as its frozen list records them: each
/// listed identifier that names a principal among `found`, in the list's order.
#[allow(non_snake_case)]
pub fn satisfiedParticipants(ids: &Vec<u128>, found: &Vec<u128>) -> (r: Vec<u128>)
    ensures
        r@ == listed_participants(ids@, found@),
{
    let mut out: Vec<u128> = Vec::new();
    let mut i: usize = 0;
    while i < ids.len()
        invariant
            i <= ids@.len(),
            out@ == listed_participants(ids@.take(i as int), found@),
        decreases ids@.len() - i,
    {
        assert(ids@.take(i as int + 1).drop_last() =~= ids@.take(i as int));
        assert(ids@.take(i as int + 1).last() == ids@[i as int]);
        if holds_id(found, ids[i]) {
            out.push(ids[i]);
        }
        i = i + 1;
    }
    assert(ids@.take(ids@.len() as int) =~= ids@);
    out
}

/// The state an evidence snapshot reports on the approval surface: as against its frozen policy,
/// except that a snapshot whose deployment has no policy snapshot, once neither invalidated nor
/// expired, is a mismatch.
pub fn state(
    evidence: &crate::evidence::EvidenceSnapshot,
    policy: Option<&crate::evidence::PolicySnapshot>,
    invalidations: &Vec<crate::evidence::Invalidation>,
    now: i64,
) -> (r: crate::evidence::EvidenceState)
    ensures
        r == match policy {
            Some(p) => crate::evidence::snapshot_state(*evidence, *p, invalidations@, now),
            None => if crate::evidence::invalidated_as(invalidations@, evidence.id, crate::evidence::InvalidationKind::Failed) {
                crate::evidence::EvidenceState::Failed
            } else if crate::evidence::invalidated_as(invalidations@, evidence.id, crate::evidence::InvalidationKind::Revoked) {
                crate::evidence::EvidenceState::Revoked
            } else if evidence.expires_at matches Some(at) && at <= now {
                crate::evidence::EvidenceState::Expired
            } else {
                crate::evidence::EvidenceState::Mismatch
            },
        },
{
    match policy {
        Some(p) => crate::evidence::evidence_state(evidence, p, invalidations, now),
        None => {
            if crate::evidence::has_invalidation(invalidations, evidence.id, crate::evidence::InvalidationKind::Failed) {
                return crate::evidence::EvidenceState::Failed;
            }
            if crate::evidence::has_invalidation(invalidations, evidence.id, crate::evidence::InvalidationKind::Revoked) {
                return crate::evidence::EvidenceState::Revoked;
            }
            match evidence.expires_at {
                Some(at) => if at <= now {
                    return crate::evidence::EvidenceState::Expired;
                },
                None => {},
            }
            crate::evidence::EvidenceState::Mismatch
        },
    }
}

} // verus!
