//! The approval-requirement lifecycle: creating a deployment's requirement, terminalizing one the
//! frozen facts can no longer satisfy, blocking the execution of a satisfied one, handing an
//! approved deployment to the worker, and the project-archive boundary that ends every open cycle
//! of an archived project. Each decision is a function of the facts the command read under its
//! locks; the caller performs the writes it names.

use crate::evidence::{evidence_issue_text, EvidenceIssue};
use crate::ids::{opt_string_view, uuid_text, uuid_to_string};
use crate::json::string_views;
use crate::text::str_equal;
use crate::lifecycle::{awaits_execution, has_started_execution, Lifecycle, RequirementStatus};
use vstd::prelude::*;

verus! {

/// The code a terminalized requirement or a blocked execution records.
#[derive(PartialEq, Eq, Structural, Clone, Copy, Debug)]
pub enum ApprovalCode {
    TerminalLifecycle,
    RequirementExpired,
    ProjectArchived,
    ProjectNotActive,
    EvidenceNoLongerValid,
    Evidence(EvidenceIssue),
}

/// The stored spelling of an approval code.
pub open spec fn approval_code_text(code: ApprovalCode) -> Seq<char> {
    match code {
        ApprovalCode::TerminalLifecycle => "TERMINAL_LIFECYCLE"@,
        ApprovalCode::RequirementExpired => "APPROVAL_REQUIREMENT_EXPIRED"@,
        ApprovalCode::ProjectArchived => "PROJECT_ARCHIVED"@,
        ApprovalCode::ProjectNotActive => "PROJECT_NOT_ACTIVE"@,
        ApprovalCode::EvidenceNoLongerValid => "APPROVAL_EVIDENCE_NO_LONGER_VALID"@,
        ApprovalCode::Evidence(issue) => evidence_issue_text(issue),
    }
}

impl ApprovalCode {
    /// The stored spelling of the code.
    pub fn as_str(&self) -> (r: &'static str)
        ensures
            r@ == approval_code_text(*self),
    {
        match self {
            ApprovalCode::TerminalLifecycle => "TERMINAL_LIFECYCLE",
            ApprovalCode::RequirementExpired => "APPROVAL_REQUIREMENT_EXPIRED",
            ApprovalCode::ProjectArchived => "PROJECT_ARCHIVED",
            ApprovalCode::ProjectNotActive => "PROJECT_NOT_ACTIVE",
            ApprovalCode::EvidenceNoLongerValid => "APPROVAL_EVIDENCE_NO_LONGER_VALID",
            ApprovalCode::Evidence(issue) => issue.as_str(),
        }
    }
}

/// How long a new approval requirement stays open: 24 hours, in nanoseconds.
pub const REQUIREMENT_LIFETIME: i64 = 86_400_000_000_000;

/// The requirement a deployment gets when it has none yet.
pub struct NewRequirement {
    pub status: RequirementStatus,
    pub expires_at: i64,
    pub invalidation: Option<ApprovalCode>,
}

/// The requirement `ensure_requirement` creates: invalidated at once under an archived project
/// (`PROJECT_ARCHIVED`) or for a deployment past its approval stage (`TERMINAL_LIFECYCLE`),
/// pending otherwise; it expires 24 hours after the deployment was requested.
pub open spec fn new_requirement_spec(archived: bool, lifecycle: Lifecycle, requested_at: i64) -> (RequirementStatus, int, Option<ApprovalCode>) {
    let terminal = archived || has_started_execution(lifecycle);
    (
        if terminal { RequirementStatus::Invalidated } else { RequirementStatus::Pending },
        requested_at + REQUIREMENT_LIFETIME,
        if archived {
            Some(ApprovalCode::ProjectArchived)
        } else if terminal {
            Some(ApprovalCode::TerminalLifecycle)
        } else {
            None
        },
    )
}

/// The requirement a deployment without one gets.
pub fn ensure_requirement(archived: bool, lifecycle: Lifecycle, requested_at: i64) -> (r: NewRequirement)
    requires
        requested_at <= i64::MAX - REQUIREMENT_LIFETIME,
    ensures
        (r.status, r.expires_at as int, r.invalidation) == new_requirement_spec(archived, lifecycle, requested_at),
{
    let terminal = archived || lifecycle.has_started_execution();
    NewRequirement {
        status: if terminal { RequirementStatus::Invalidated } else { RequirementStatus::Pending },
        expires_at: requested_at + REQUIREMENT_LIFETIME,
        invalidation: if archived {
            Some(ApprovalCode::ProjectArchived)
        } else if terminal {
            Some(ApprovalCode::TerminalLifecycle)
        } else {
            None
        },
    }
}

/// The audit action a terminalized requirement records.
#[derive(PartialEq, Eq, Structural, Clone, Copy, Debug)]
pub enum TerminalAction {
    Expired,
    Invalidated,
}

/// What `reconcile_pending` does to one deployment.
#[derive(PartialEq, Eq, Structural, Clone, Copy, Debug)]
pub enum Reconciliation {
    /// Nothing changes.
    Unchanged,
    /// A satisfied requirement has expired: its execution is blocked.
    BlockExecution,
    /// The pending requirement is terminalized with `action` and `code`; when `cancel` is set
    /// the deployment, still waiting for approval, is canceled with it.
    Terminalize { action: TerminalAction, code: ApprovalCode, cancel: bool },
}

/// The facts `reconcile_pending` decides on, read under the deployment's and the requirement's
/// row locks.
pub struct PendingFacts {
    /// The deployment's lifecycle, or nothing for a deployment that does not exist.
    pub lifecycle: Option<Lifecycle>,
    /// Whether the deployment has a `PENDING` requirement.
    pub pending: bool,
    /// Whether its requirement is `SATISFIED` and past its expiry.
    pub satisfied_expired: bool,
    /// Whether its pending requirement is past its expiry.
    pub expired: bool,
    /// Why the frozen cycle's evidence does not hold, if it does not.
    pub evidence_issue: Option<EvidenceIssue>,
    /// Whether the deployment still waits for an evaluation to finish.
    pub waiting_for_evaluation: bool,
}

/// Terminalizes a pending requirement the frozen facts can no longer satisfy: a deployment past
/// its approval stage invalidates it (`TERMINAL_LIFECYCLE`), an expired one expires it
/// (`APPROVAL_REQUIREMENT_EXPIRED`), and an evidence issue invalidates it with that issue's code
/// unless the only issue is missing evidence of a deployment still waiting for an evaluation.
/// A deployment still awaiting approval is canceled with its requirement. With no pending
/// requirement, a satisfied one past its expiry blocks execution instead.
pub open spec fn reconciliation_spec(f: PendingFacts) -> Reconciliation {
    match f.lifecycle {
        None => Reconciliation::Unchanged,
        Some(lifecycle) => if !f.pending {
            if f.satisfied_expired {
                Reconciliation::BlockExecution
            } else {
                Reconciliation::Unchanged
            }
        } else {
            let cancel = lifecycle is AwaitingApproval || lifecycle is Requested;
            if has_started_execution(lifecycle) {
                Reconciliation::Terminalize {
                    action: TerminalAction::Invalidated,
                    code: ApprovalCode::TerminalLifecycle,
                    cancel,
                }
            } else if f.expired {
                Reconciliation::Terminalize {
                    action: TerminalAction::Expired,
                    code: ApprovalCode::RequirementExpired,
                    cancel,
                }
            } else {
                match f.evidence_issue {
                    None => Reconciliation::Unchanged,
                    Some(issue) => if issue is Missing && f.waiting_for_evaluation {
                        Reconciliation::Unchanged
                    } else {
                        Reconciliation::Terminalize {
                            action: TerminalAction::Invalidated,
                            code: ApprovalCode::Evidence(issue),
                            cancel,
                        }
                    },
                }
            }
        },
    }
}

/// What `reconcile_pending` does to one deployment.
pub fn reconcile_pending(f: &PendingFacts) -> (r: Reconciliation)
    ensures
        r == reconciliation_spec(*f),
{
    let lifecycle = match f.lifecycle {
        None => return Reconciliation::Unchanged,
        Some(lifecycle) => lifecycle,
    };
    if !f.pending {
        return if f.satisfied_expired {
            Reconciliation::BlockExecution
        } else {
            Reconciliation::Unchanged
        };
    }
    let cancel = lifecycle == Lifecycle::AwaitingApproval || lifecycle == Lifecycle::Requested;
    if lifecycle.has_started_execution() {
        return Reconciliation::Terminalize {
            action: TerminalAction::Invalidated,
            code: ApprovalCode::TerminalLifecycle,
            cancel,
        };
    }
    if f.expired {
        return Reconciliation::Terminalize {
            action: TerminalAction::Expired,
            code: ApprovalCode::RequirementExpired,
            cancel,
        };
    }
    match f.evidence_issue {
        None => Reconciliation::Unchanged,
        Some(issue) => {
            if issue == EvidenceIssue::Missing && f.waiting_for_evaluation {
                Reconciliation::Unchanged
            } else {
                Reconciliation::Terminalize {
                    action: TerminalAction::Invalidated,
                    code: ApprovalCode::Evidence(issue),
                    cancel,
                }
            }
        },
    }
}

/// The requirement status a terminal action leaves.
pub open spec fn terminal_status(action: TerminalAction) -> RequirementStatus {
    match action {
        TerminalAction::Expired => RequirementStatus::Expired,
        TerminalAction::Invalidated => RequirementStatus::Invalidated,
    }
}

/// The facts `block_approval_execution` decides on.
pub struct BlockFacts {
    /// The requirement is `SATISFIED` and the deployment is `REQUESTED` or `APPROVED`.
    pub satisfied_and_waiting: bool,
    /// An archive of the deployment's project covers it.
    pub archived: bool,
    /// The deployment's project is active.
    pub project_active: bool,
    /// Any requirement of the deployment is past its expiry.
    pub any_expired: bool,
    /// Why the frozen cycle's evidence does not hold, if it does not.
    pub evidence_issue: Option<EvidenceIssue>,
}

/// Whether a satisfied requirement's execution is blocked, and with which code: only a satisfied
/// requirement of a deployment still waiting to execute is blocked, and only when its project
/// was archived or is no longer active, its evidence no longer holds, or it expired. The code
/// names the archive first, then an inactive project, then the evidence issue.
pub open spec fn block_spec(f: BlockFacts) -> Option<ApprovalCode> {
    if !f.satisfied_and_waiting {
        None
    } else if f.project_active && !f.archived && f.evidence_issue is None && !f.any_expired {
        None
    } else if f.archived {
        Some(ApprovalCode::ProjectArchived)
    } else if f.project_active {
        match f.evidence_issue {
            Some(issue) => Some(ApprovalCode::Evidence(issue)),
            None => Some(ApprovalCode::EvidenceNoLongerValid),
        }
    } else {
        Some(ApprovalCode::ProjectNotActive)
    }
}

/// Whether, and with which code, a satisfied requirement's execution is blocked.
pub fn block_approval_execution(f: &BlockFacts) -> (r: Option<ApprovalCode>)
    ensures
        r == block_spec(*f),
{
    if !f.satisfied_and_waiting {
        return None;
    }
    if f.project_active && !f.archived && f.evidence_issue.is_none() && !f.any_expired {
        return None;
    }
    if f.archived {
        Some(ApprovalCode::ProjectArchived)
    } else if f.project_active {
        match f.evidence_issue {
            Some(issue) => Some(ApprovalCode::Evidence(issue)),
            None => Some(ApprovalCode::EvidenceNoLongerValid),
        }
    } else {
        Some(ApprovalCode::ProjectNotActive)
    }
}

/// Whether reconciling a deployment changed anything: terminalizing its pending requirement
/// always does; blocking the execution of a satisfied requirement past its expiry does only when
/// the block writes, which is when the block's facts give it a code; leaving it unchanged does not.
pub fn reconciliation_changed(r: Reconciliation, block: &BlockFacts) -> (changed: bool)
    ensures
        changed == match r {
            Reconciliation::Terminalize { .. } => true,
            Reconciliation::BlockExecution => block_spec(*block) is Some,
            Reconciliation::Unchanged => false,
        },
{
    match r {
        Reconciliation::Terminalize { .. } => true,
        Reconciliation::BlockExecution => block_approval_execution(block).is_some(),
        Reconciliation::Unchanged => false,
    }
}

/// The facts `automatic_approval_handoff` decides on, read under the requirement's and the
/// deployment's row locks once the requirement exists, no archive covers the deployment and
/// `reconcile_pending` has run.
pub struct HandoffFacts {
    pub status: RequirementStatus,
    pub required_approvers: i32,
    pub lifecycle: Lifecycle,
    /// The requirement is past its expiry.
    pub expired: bool,
    /// Every kind of evidence the frozen cycle requires holds.
    pub evidence_ready: bool,
    /// The deployment still waits for an evaluation to finish.
    pub waiting_for_evaluation: bool,
    /// A compatible worker has reported ready within its freshness window.
    pub worker_ready: bool,
    /// An `EXECUTE_DEPLOYMENT` event of the deployment is pending or processing.
    pub execute_queued: bool,
}

/// The writes `automatic_approval_handoff` performs, in this order, and what it answers.
#[derive(PartialEq, Eq, Structural, Clone, Copy, Debug)]
pub struct HandoffPlan {
    /// Satisfy the zero-approver requirement with no participants (`APPROVAL_SATISFIED`).
    pub satisfy: bool,
    /// Block the satisfied requirement's execution.
    pub block: bool,
    /// Record the handoff release row.
    pub release: bool,
    /// Queue an `EXECUTE_DEPLOYMENT` event in `SUCCESS` mode.
    pub enqueue: bool,
    /// Delete the release row again, an execute event now being queued.
    pub drop_release: bool,
    /// Whether the deployment is handed off to execution.
    pub handed_off: bool,
}

/// A zero-approver requirement is satisfied on the spot while it is pending and unexpired, its
/// deployment has not started executing and its evidence holds.
pub open spec fn satisfies_at_once(f: HandoffFacts) -> bool {
    f.status is Pending && f.required_approvers == 0 && !has_started_execution(f.lifecycle)
        && !f.expired && f.evidence_ready
}

/// The handoff: an expired satisfied requirement of a deployment waiting to execute is blocked;
/// a zero-approver one is satisfied at once; a satisfied one whose evidence no longer holds and
/// is not waiting for an evaluation is blocked; otherwise a satisfied one of a deployment waiting
/// to execute is handed off, which, once no evaluation is awaited, records the release, queues
/// the execution when a worker is ready and none is queued yet, and drops the release again as
/// soon as an execution is queued. Anything else answers whether the requirement is satisfied
/// and its evidence holds.
pub open spec fn handoff_spec(f: HandoffFacts) -> HandoffPlan {
    let waits = awaits_execution(f.lifecycle);
    let none = HandoffPlan {
        satisfy: false, block: false, release: false, enqueue: false, drop_release: false,
        handed_off: false,
    };
    if f.status is Satisfied && waits && f.expired {
        HandoffPlan { block: true, ..none }
    } else {
        let satisfy = satisfies_at_once(f);
        let satisfied = f.status is Satisfied || satisfy;
        if satisfied && waits && !f.evidence_ready && !f.waiting_for_evaluation {
            HandoffPlan { satisfy, block: true, ..none }
        } else if satisfied && waits {
            let release = !f.waiting_for_evaluation;
            let enqueue = release && f.worker_ready && !f.execute_queued;
            HandoffPlan {
                satisfy,
                release,
                enqueue,
                drop_release: release && (f.execute_queued || enqueue),
                handed_off: true,
                ..none
            }
        } else {
            HandoffPlan { satisfy, handed_off: satisfied && f.evidence_ready, ..none }
        }
    }
}

/// What `automatic_approval_handoff` does with the facts it read.
pub fn automatic_approval_handoff(f: &HandoffFacts) -> (r: HandoffPlan)
    ensures
        r == handoff_spec(*f),
{
    let waits = f.lifecycle.awaits_execution();
    let mut plan = HandoffPlan {
        satisfy: false,
        block: false,
        release: false,
        enqueue: false,
        drop_release: false,
        handed_off: false,
    };
    if f.status == RequirementStatus::Satisfied && waits && f.expired {
        plan.block = true;
        return plan;
    }
    plan.satisfy = f.status == RequirementStatus::Pending && f.required_approvers == 0
        && !f.lifecycle.has_started_execution() && !f.expired && f.evidence_ready;
    let satisfied = f.status == RequirementStatus::Satisfied || plan.satisfy;
    if satisfied && waits && !f.evidence_ready && !f.waiting_for_evaluation {
        plan.block = true;
        return plan;
    }
    if satisfied && waits {
        if !f.waiting_for_evaluation {
            plan.release = true;
            plan.enqueue = f.worker_ready && !f.execute_queued;
            plan.drop_release = f.execute_queued || plan.enqueue;
        }
        plan.handed_off = true;
        return plan;
    }
    plan.handed_off = satisfied && f.evidence_ready;
    plan
}

/// No participant appears twice.
pub open spec fn all_distinct(values: Seq<Seq<char>>) -> bool {
    forall|i: int, j: int| 0 <= i < j < values.len() ==> values[i] != values[j]
}

/// Whether a text is the text of one of the principals.
pub open spec fn approved_by(text: Seq<char>, approvers: Seq<u128>) -> bool {
    exists|k: int| 0 <= k < approvers.len() && uuid_text(#[trigger] approvers[k]) == text
}

/// The participants of a satisfied requirement qualify it for execution when there are exactly
/// as many as the rule requires, none twice, and each is the text of a principal that recorded an
/// `APPROVE` decision on it.
pub open spec fn participants_qualify(participants: Seq<Seq<char>>, required: int, approvers: Seq<u128>) -> bool {
    &&& participants.len() == required
    &&& all_distinct(participants)
    &&& forall|i: int| 0 <= i < participants.len() ==> approved_by(#[trigger] participants[i], approvers)
}

/// Whether `text` is the text of one of `approvers`, as the texts `approver_texts` holds.
fn names_approver(texts: &Vec<String>, text: &String) -> (r: bool)
    ensures
        r == exists|k: int| 0 <= k < texts@.len() && texts@[k]@ == text@,
{
    let mut k: usize = 0;
    while k < texts.len()
        invariant
            k <= texts@.len(),
            forall|m: int| 0 <= m < k ==> texts@[m]@ != text@,
        decreases texts@.len() - k,
    {
        if str_equal(texts[k].as_str(), text.as_str()) {
            return true;
        }
        k = k + 1;
    }
    false
}

/// Whether a satisfied requirement's participants qualify it for execution against the
/// principals that recorded an `APPROVE` decision on it.
pub fn participants_cover(participants: &Vec<String>, required: i32, approvers: &Vec<u128>) -> (r: bool)
    ensures
        r == participants_qualify(string_views(participants@), required as int, approvers@),
{
    let ghost views = string_views(participants@);
    if required < 0 || participants.len() != required as usize {
        return false;
    }
    let mut texts: Vec<String> = Vec::new();
    let mut k: usize = 0;
    while k < approvers.len()
        invariant
            k <= approvers@.len(),
            texts@.len() == k,
            forall|m: int| 0 <= m < k ==> #[trigger] texts@[m]@ == uuid_text(approvers@[m]),
        decreases approvers@.len() - k,
    {
        texts.push(uuid_to_string(approvers[k]));
        k = k + 1;
    }
    let mut i: usize = 0;
    while i < participants.len()
        invariant
            i <= participants@.len(),
            participants@.len() == required as int,
            views == string_views(participants@),
            texts@.len() == approvers@.len(),
            forall|m: int| 0 <= m < texts@.len() ==> #[trigger] texts@[m]@ == uuid_text(approvers@[m]),
            forall|a: int, b: int| 0 <= a < b < i ==> views[a] != views[b],
            forall|a: int| 0 <= a < i ==> approved_by(#[trigger] views[a], approvers@),
        decreases participants@.len() - i,
    {
        assert(views[i as int] == participants@[i as int]@);
        let mut j: usize = 0;
        while j < i
            invariant
                j <= i < participants@.len(),
                views == string_views(participants@),
                forall|b: int| 0 <= b < j ==> views[b] != views[i as int],
            decreases i - j,
        {
            if str_equal(participants[j].as_str(), participants[i].as_str()) {
                assert(views[j as int] == views[i as int]);
                return false;
            }
            j = j + 1;
        }
        if !names_approver(&texts, &participants[i]) {
            assert(!approved_by(views[i as int], approvers@)) by {
                if approved_by(views[i as int], approvers@) {
                    let m = choose|m: int| 0 <= m < approvers@.len() && uuid_text(#[trigger] approvers@[m]) == views[i as int];
                    assert(texts@[m]@ == participants@[i as int]@);
                }
            }
            return false;
        }
        assert(approved_by(views[i as int], approvers@)) by {
            let m = choose|m: int| 0 <= m < texts@.len() && texts@[m]@ == participants@[i as int]@;
            assert(uuid_text(approvers@[m]) == views[i as int]);
        }
        i = i + 1;
    }
    true
}

/// The facts `approval_execution_eligible` decides on.
pub struct EligibilityFacts {
    /// The deployment's requirement is `SATISFIED` and not yet past its expiry.
    pub live_requirement: bool,
    /// The deployment's lifecycle, or nothing for a deployment that does not exist.
    pub lifecycle: Option<Lifecycle>,
    /// The deployment's project exists and is active.
    pub project_active: bool,
    /// The requirement's satisfied participants, as its `jsonb` column lists them.
    pub participants: Vec<String>,
    /// The number of approvers the frozen rule requires.
    pub required_approvers: i32,
    /// The principals that recorded an `APPROVE` decision on the requirement.
    pub approvers: Vec<u128>,
    /// An archive of the deployment's project covers it.
    pub archived: bool,
    /// Every kind of evidence the frozen cycle requires holds.
    pub evidence_ready: bool,
}

/// An approved deployment may execute when its live satisfied requirement's participants qualify
/// it, the deployment is `APPROVED` or `REQUESTED` in an active project, no archive covers it and
/// its evidence holds.
pub open spec fn eligible_spec(f: EligibilityFacts) -> bool {
    &&& f.live_requirement
    &&& (f.lifecycle == Some(Lifecycle::Approved) || f.lifecycle == Some(Lifecycle::Requested))
    &&& f.project_active
    &&& participants_qualify(string_views(f.participants@), f.required_approvers as int, f.approvers@)
    &&& !f.archived
    &&& f.evidence_ready
}

/// Whether an approved deployment may execute.
pub fn approval_execution_eligible(f: &EligibilityFacts) -> (r: bool)
    ensures
        r == eligible_spec(*f),
{
    if !f.live_requirement {
        return false;
    }
    let deployment_ready = match f.lifecycle {
        Some(Lifecycle::Approved) | Some(Lifecycle::Requested) => f.project_active,
        _ => false,
    };
    if !deployment_ready {
        return false;
    }
    if !participants_cover(&f.participants, f.required_approvers, &f.approvers) {
        return false;
    }
    !f.archived && f.evidence_ready
}

/// An archive event of a project: the project revision it archived, when that is known, and the
/// instant of the archive (nanoseconds since the Unix epoch).
#[derive(PartialEq, Eq, Structural, Clone, Copy, Debug)]
pub struct ArchiveEvent {
    pub archived_project_revision: Option<i64>,
    pub archived_at: i64,
}

/// The archive boundary: an archive covers a deployment of its project when both project
/// revisions are known and the deployment's is no later than the archived one, and otherwise
/// when the deployment was requested no later than the archive.
pub open spec fn archive_covers(deployment_revision: Option<i64>, requested_at: i64, event: ArchiveEvent) -> bool {
    match (deployment_revision, event.archived_project_revision) {
        (Some(deployment), Some(archived)) => deployment <= archived,
        _ => requested_at <= event.archived_at,
    }
}

/// The boundary as a deployment selects the archive events of its project: its own revision
/// decides which branch of the condition applies.
pub open spec fn deployment_selects(deployment_revision: Option<i64>, requested_at: i64, event: ArchiveEvent) -> bool {
    match deployment_revision {
        Some(revision) => (event.archived_project_revision is Some
            && event.archived_project_revision->0 >= revision)
            || (event.archived_project_revision is None && event.archived_at >= requested_at),
        None => event.archived_at >= requested_at,
    }
}

/// The boundary as an archive event selects the deployments of its project: the event's revision
/// decides which branch applies, and every comparison is reversed.
pub open spec fn event_selects(event: ArchiveEvent, deployment_revision: Option<i64>, requested_at: i64) -> bool {
    match event.archived_project_revision {
        Some(revision) => (deployment_revision is Some && deployment_revision->0 <= revision)
            || (deployment_revision is None && requested_at <= event.archived_at),
        None => requested_at <= event.archived_at,
    }
}

/// The boundary as one condition over both rows, as the handoff candidates correlate it.
pub open spec fn jointly_selects(deployment_revision: Option<i64>, requested_at: i64, event: ArchiveEvent) -> bool {
    (deployment_revision is Some && event.archived_project_revision is Some
        && deployment_revision->0 <= event.archived_project_revision->0)
        || ((deployment_revision is None || event.archived_project_revision is None)
        && requested_at <= event.archived_at)
}

/// The three spellings of the archive boundary agree: a deployment selects an archive event of its
/// project exactly when that event selects the deployment, exactly when the correlated condition
/// holds of the pair, and each is the boundary itself.
pub proof fn archive_boundary_mirrors(deployment_revision: Option<i64>, requested_at: i64, event: ArchiveEvent)
    ensures
        deployment_selects(deployment_revision, requested_at, event) == archive_covers(deployment_revision, requested_at, event),
        event_selects(event, deployment_revision, requested_at) == archive_covers(deployment_revision, requested_at, event),
        jointly_selects(deployment_revision, requested_at, event) == archive_covers(deployment_revision, requested_at, event),
{
}

/// Whether an archive event of the deployment's project falls within the deployment's archive
/// boundary, the condition a deployment's archive-event read applies.
pub fn archive_boundary_condition(deployment_revision: Option<i64>, requested_at: i64, event: &ArchiveEvent) -> (r: bool)
    ensures
        r == deployment_selects(deployment_revision, requested_at, *event),
{
    match deployment_revision {
        Some(revision) => match event.archived_project_revision {
            Some(archived) => archived >= revision,
            None => event.archived_at >= requested_at,
        },
        None => event.archived_at >= requested_at,
    }
}

/// Whether a deployment of the event's project is a candidate the archive event covers.
pub fn archived_candidates(event: &ArchiveEvent, deployment_revision: Option<i64>, requested_at: i64) -> (r: bool)
    ensures
        r == event_selects(*event, deployment_revision, requested_at),
{
    match event.archived_project_revision {
        Some(revision) => match deployment_revision {
            Some(deployment) => deployment <= revision,
            None => requested_at <= event.archived_at,
        },
        None => requested_at <= event.archived_at,
    }
}

/// Whether any archive event of the deployment's project covers the deployment.
pub fn deployment_archive_boundary(deployment_revision: Option<i64>, requested_at: i64, events: &Vec<ArchiveEvent>) -> (r: bool)
    ensures
        r == exists|k: int| 0 <= k < events@.len() && #[trigger] archive_covers(deployment_revision, requested_at, events@[k]),
{
    let mut k: usize = 0;
    while k < events.len()
        invariant
            k <= events@.len(),
            forall|m: int| 0 <= m < k ==> !#[trigger] archive_covers(deployment_revision, requested_at, events@[m]),
        decreases events@.len() - k,
    {
        proof { archive_boundary_mirrors(deployment_revision, requested_at, events@[k as int]); }
        if archive_boundary_condition(deployment_revision, requested_at, &events[k]) {
            return true;
        }
        k = k + 1;
    }
    false
}

/// An archive event with its identifier and the principal that archived the project, if known.
#[derive(PartialEq, Eq, Structural, Clone, Copy, Debug)]
pub struct AttributedArchive {
    pub id: u128,
    pub event: ArchiveEvent,
    pub actor: Option<u128>,
}

/// The order the attribution read ranks archive events in, newest first: by archived project
/// revision descending with an unknown revision first (as a descending SQL order places nulls),
/// then by archive instant, then by identifier, both descending.
pub open spec fn ranks_before(a: AttributedArchive, b: AttributedArchive) -> bool {
    let (x, y) = (a.event.archived_project_revision, b.event.archived_project_revision);
    ||| x is None && y is Some
    ||| x is Some && y is Some && x->0 > y->0
    ||| x == y && a.event.archived_at > b.event.archived_at
    ||| x == y && a.event.archived_at == b.event.archived_at && a.id > b.id
}

fn ranked_before(a: &AttributedArchive, b: &AttributedArchive) -> (r: bool)
    ensures
        r == ranks_before(*a, *b),
{
    let (x, y) = (a.event.archived_project_revision, b.event.archived_project_revision);
    match (x, y) {
        (None, Some(_)) => true,
        (Some(p), Some(q)) => p > q || (p == q && (a.event.archived_at > b.event.archived_at
            || (a.event.archived_at == b.event.archived_at && a.id > b.id))),
        (None, None) => a.event.archived_at > b.event.archived_at || (a.event.archived_at
            == b.event.archived_at && a.id > b.id),
        (Some(_), None) => false,
    }
}

/// The principal a delayed archive invalidation is attributed to: the actor of the first covering
/// archive event in rank order, or nobody when none covers the deployment or that event names no
/// actor.
pub fn archive_actor(deployment_revision: Option<i64>, requested_at: i64, events: &Vec<AttributedArchive>) -> (r: Option<u128>)
    ensures
        (forall|k: int| 0 <= k < events@.len() ==> !#[trigger] archive_covers(deployment_revision, requested_at, events@[k].event))
            ==> r is None,
        (exists|k: int| 0 <= k < events@.len() && #[trigger] archive_covers(deployment_revision, requested_at, events@[k].event))
            ==> exists|i: int| {
                &&& 0 <= i < events@.len()
                &&& archive_covers(deployment_revision, requested_at, events@[i].event)
                &&& forall|j: int| 0 <= j < events@.len() && #[trigger] archive_covers(deployment_revision, requested_at, events@[j].event)
                    ==> !ranks_before(events@[j], events@[i])
                &&& r == events@[i].actor
            },
{
    let mut best: Option<usize> = None;
    let mut k: usize = 0;
    while k < events.len()
        invariant
            k <= events@.len(),
            match best {
                None => forall|m: int| 0 <= m < k ==> !#[trigger] archive_covers(deployment_revision, requested_at, events@[m].event),
                Some(b) => {
                    &&& b < k
                    &&& archive_covers(deployment_revision, requested_at, events@[b as int].event)
                    &&& forall|m: int| 0 <= m < k && #[trigger] archive_covers(deployment_revision, requested_at, events@[m].event)
                        ==> !ranks_before(events@[m], events@[b as int])
                },
            },
        decreases events@.len() - k,
    {
        proof { archive_boundary_mirrors(deployment_revision, requested_at, events@[k as int].event); }
        if archive_boundary_condition(deployment_revision, requested_at, &events[k].event) {
            match best {
                None => {
                    best = Some(k);
                },
                Some(b) => {
                    if ranked_before(&events[k], &events[b]) {
                        best = Some(k);
                    }
                },
            }
        }
        k = k + 1;
    }
    match best {
        None => None,
        Some(b) => events[b].actor,
    }
}

/// The two open approval cycles archive reconciliation terminalizes: a pending requirement of a
/// deployment awaiting approval or requested, and a satisfied one of a deployment approved or
/// requested.
pub open spec fn open_cycle(lifecycle: Lifecycle, status: RequirementStatus) -> bool {
    ||| (lifecycle is AwaitingApproval || lifecycle is Requested) && status is Pending
    ||| (lifecycle is Approved || lifecycle is Requested) && status is Satisfied
}

/// Whether an approval cycle is one archive reconciliation terminalizes.
pub fn archived_pending(lifecycle: Lifecycle, status: RequirementStatus) -> (r: bool)
    ensures
        r == open_cycle(lifecycle, status),
{
    match status {
        RequirementStatus::Pending => lifecycle == Lifecycle::AwaitingApproval || lifecycle == Lifecycle::Requested,
        RequirementStatus::Satisfied => lifecycle == Lifecycle::Approved || lifecycle == Lifecycle::Requested,
        _ => false,
    }
}

/// What archive reconciliation does to a covered approval cycle.
#[derive(PartialEq, Eq, Structural, Clone, Copy, Debug)]
pub enum ArchiveAction {
    /// Block the satisfied requirement's execution, attributed to the archive's actor.
    BlockExecution,
    /// Invalidate the pending requirement with `PROJECT_ARCHIVED` and cancel the deployment.
    Invalidate,
}

/// The action archive reconciliation takes on an approval cycle its archive covers: none on a
/// cycle that is not open, a block on a satisfied one, an invalidation on a pending one.
pub open spec fn archive_action_spec(lifecycle: Lifecycle, status: RequirementStatus) -> Option<ArchiveAction> {
    if !open_cycle(lifecycle, status) {
        None
    } else if status is Satisfied {
        Some(ArchiveAction::BlockExecution)
    } else {
        Some(ArchiveAction::Invalidate)
    }
}

/// The action archive reconciliation takes on an approval cycle its archive covers.
pub fn archive_action(lifecycle: Lifecycle, status: RequirementStatus) -> (r: Option<ArchiveAction>)
    ensures
        r == archive_action_spec(lifecycle, status),
{
    if !archived_pending(lifecycle, status) {
        None
    } else if status == RequirementStatus::Satisfied {
        Some(ArchiveAction::BlockExecution)
    } else {
        Some(ArchiveAction::Invalidate)
    }
}

/// A deployment with a handoff release row, with the facts the compatible-handoff read filters
/// it on.
pub struct HandoffCandidate {
    pub deployment_id: u128,
    pub lifecycle: Lifecycle,
    pub status: RequirementStatus,
    pub required_approvers: i32,
    /// The deployment's project revision, when it recorded one.
    pub project_revision: Option<i64>,
    /// When the deployment was requested (nanoseconds since the Unix epoch).
    pub requested_at: i64,
    /// The archive events of the deployment's project.
    pub archives: Vec<ArchiveEvent>,
    /// Its requirement is past its expiry.
    pub expired: bool,
    /// An `EXECUTE_DEPLOYMENT` event of the deployment is pending or processing.
    pub execute_queued: bool,
}

/// A released deployment is handed to a compatible worker when it is `APPROVED` with a satisfied
/// requirement, or `REQUESTED` with a pending or satisfied zero-approver requirement; when its
/// rule needs approvers, only once a worker is ready; and only while no archive of its project
/// covers it, its requirement is unexpired and no execution is queued for it.
pub open spec fn handoff_candidate_spec(c: HandoffCandidate, worker_ready: bool) -> bool {
    &&& (c.lifecycle is Approved && c.status is Satisfied)
        || (c.lifecycle is Requested && c.required_approvers == 0 && (c.status is Pending || c.status is Satisfied))
    &&& worker_ready || c.required_approvers == 0
    &&& !(exists|k: int| 0 <= k < c.archives@.len() && #[trigger] archive_covers(c.project_revision, c.requested_at, c.archives@[k]))
    &&& !c.expired
    &&& !c.execute_queued
}

/// Whether a released deployment is a compatible handoff candidate.
pub fn handoff_candidate(c: &HandoffCandidate, worker_ready: bool) -> (r: bool)
    ensures
        r == handoff_candidate_spec(*c, worker_ready),
{
    let state = match c.lifecycle {
        Lifecycle::Approved => c.status == RequirementStatus::Satisfied,
        Lifecycle::Requested => c.required_approvers == 0
            && (c.status == RequirementStatus::Pending || c.status == RequirementStatus::Satisfied),
        _ => false,
    };
    if !state || !(worker_ready || c.required_approvers == 0) || c.expired || c.execute_queued {
        return false;
    }
    let mut k: usize = 0;
    while k < c.archives.len()
        invariant
            k <= c.archives@.len(),
            forall|m: int| 0 <= m < k ==> !#[trigger] archive_covers(c.project_revision, c.requested_at, c.archives@[m]),
        decreases c.archives@.len() - k,
    {
        let event = &c.archives[k];
        proof { archive_boundary_mirrors(c.project_revision, c.requested_at, *event); }
        let covered = match (c.project_revision, event.archived_project_revision) {
            (Some(deployment), Some(archived)) => deployment <= archived,
            _ => c.requested_at <= event.archived_at,
        };
        if covered {
            return false;
        }
        k = k + 1;
    }
    true
}

/// The identifiers of the handoff candidates among released deployments, in the order given.
pub open spec fn candidate_ids(rows: Seq<HandoffCandidate>, worker_ready: bool) -> Seq<u128>
    decreases rows.len(),
{
    if rows.len() == 0 {
        Seq::empty()
    } else {
        let earlier = candidate_ids(rows.drop_last(), worker_ready);
        if handoff_candidate_spec(rows.last(), worker_ready) {
            earlier.push(rows.last().deployment_id)
        } else {
            earlier
        }
    }
}

/// The most handoffs one maintenance pass releases.
pub const HANDOFF_PAGE: usize = 50;

/// The first `HANDOFF_PAGE` entries of a list, or all of them when there are fewer.
pub open spec fn first_page(ids: Seq<u128>) -> Seq<u128> {
    if ids.len() <= HANDOFF_PAGE { ids } else { ids.take(HANDOFF_PAGE as int) }
}

/// One page of compatible handoff candidates among the released deployments, which come ordered
/// by when they were released and then by identifier.
pub fn compatible_approval_handoff_deployments(rows: &Vec<HandoffCandidate>, worker_ready: bool) -> (r: Vec<u128>)
    ensures
        r@ == first_page(candidate_ids(rows@, worker_ready)),
{
    let mut out: Vec<u128> = Vec::new();
    let mut i: usize = 0;
    while i < rows.len()
        invariant
            i <= rows@.len(),
            out@ == first_page(candidate_ids(rows@.take(i as int), worker_ready)),
        decreases rows@.len() - i,
    {
        let ghost before = candidate_ids(rows@.take(i as int), worker_ready);
        assert(rows@.take(i as int + 1).drop_last() =~= rows@.take(i as int));
        assert(rows@.take(i as int + 1).last() == rows@[i as int]);
        if handoff_candidate(&rows[i], worker_ready) && out.len() < HANDOFF_PAGE {
            out.push(rows[i].deployment_id);
            assert(out@ =~= first_page(before.push(rows@[i as int].deployment_id)));
        } else {
            assert(out@ =~= first_page(candidate_ids(rows@.take(i as int + 1), worker_ready)));
        }
        i = i + 1;
    }
    assert(rows@.take(rows@.len() as int) =~= rows@);
    out
}

/// How a claimed handoff event goes back to the queue without using up a delivery attempt.
pub struct Deferral {
    /// Milliseconds from now until the event is available again.
    pub delay_millis: i64,
    /// The note the event records as its last error.
    pub detail: &'static str,
}

/// The first byte of an identifier's big-endian bytes, which spreads the deferrals of
/// different events apart.
pub open spec fn first_byte(id: u128) -> int {
    (id >> 120u128) as int
}

/// A deferral after `delay_millis`, spread by the first byte of the event's identifier.
fn defer_handoff(event_id: u128, delay_millis: i64, detail: &'static str) -> (r: Deferral)
    requires
        0 <= delay_millis <= 1_000_000,
    ensures
        r.delay_millis == delay_millis + first_byte(event_id),
        r.detail == detail,
{
    let byte = event_id >> 120u128;
    assert(event_id >> 120u128 < 256) by (bit_vector);
    Deferral { delay_millis: delay_millis + byte as i64, detail }
}

/// Returns a raced claim to the compatible-worker gate: available again after five seconds,
/// spread by the event's first byte.
pub fn defer_incompatible_approval_handoff(event_id: u128) -> (r: Deferral)
    ensures
        r.delay_millis == 5_000 + first_byte(event_id),
        r.detail@ == "An incompatible worker cannot execute an approved handoff."@,
{
    defer_handoff(event_id, 5_000, "An incompatible worker cannot execute an approved handoff.")
}

/// Returns an event whose frozen handoff is not yet established to the queue: available again
/// after one second, spread by the event's first byte.
pub fn defer_pending_approval_handoff(event_id: u128) -> (r: Deferral)
    ensures
        r.delay_millis == 1_000 + first_byte(event_id),
        r.detail@ == "The approval handoff is not ready for execution."@,
{
    defer_handoff(event_id, 1_000, "The approval handoff is not ready for execution.")
}

/// What one pass of approval maintenance reports to the health endpoint.
pub struct MaintenanceHealth {
    pub healthy: bool,
    pub failure_code: Option<String>,
    pub attempted: i64,
    pub reconciled: i64,
    pub failed: i64,
}

/// How many of the outcomes are successes.
pub open spec fn successes(outcomes: Seq<bool>) -> int
    decreases outcomes.len(),
{
    if outcomes.len() == 0 {
        0
    } else {
        successes(outcomes.drop_last()) + if outcomes.last() { 1int } else { 0int }
    }
}

proof fn successes_bounded(outcomes: Seq<bool>)
    ensures
        0 <= successes(outcomes) <= outcomes.len(),
    decreases outcomes.len(),
{
    if outcomes.len() > 0 {
        successes_bounded(outcomes.drop_last());
    }
}

/// The health of one expiry pass, from whether each expired requirement's reconciliation
/// committed: healthy when none failed, and `PARTIAL_RECONCILIATION` otherwise, with the counts.
pub fn expiry_health(outcomes: &Vec<bool>) -> (r: MaintenanceHealth)
    requires
        outcomes@.len() <= i64::MAX,
    ensures
        r.attempted == outcomes@.len(),
        r.reconciled == successes(outcomes@),
        r.failed == outcomes@.len() - successes(outcomes@),
        r.healthy == (r.failed == 0),
        opt_string_view(r.failure_code) == if r.healthy { None } else { Some("PARTIAL_RECONCILIATION"@) },
{
    let mut reconciled: i64 = 0;
    let mut failed: i64 = 0;
    let mut i: usize = 0;
    while i < outcomes.len()
        invariant
            i <= outcomes@.len() <= i64::MAX,
            reconciled == successes(outcomes@.take(i as int)),
            failed == i - successes(outcomes@.take(i as int)),
        decreases outcomes@.len() - i,
    {
        assert(outcomes@.take(i as int + 1).drop_last() =~= outcomes@.take(i as int));
        proof { successes_bounded(outcomes@.take(i as int)); }
        if outcomes[i] {
            reconciled = reconciled + 1;
        } else {
            failed = failed + 1;
        }
        i = i + 1;
    }
    assert(outcomes@.take(outcomes@.len() as int) =~= outcomes@);
    proof { successes_bounded(outcomes@); }
    let attempted = outcomes.len() as i64;
    if failed > 0 {
        MaintenanceHealth {
            healthy: false,
            failure_code: Some(String::from_str("PARTIAL_RECONCILIATION")),
            attempted,
            reconciled,
            failed,
        }
    } else {
        MaintenanceHealth { healthy: true, failure_code: None, attempted, reconciled, failed: 0 }
    }
}

/// The health of an expiry pass that could not read its page: unhealthy, with the failure's code.
pub fn expiry_failure(code: String) -> (r: MaintenanceHealth)
    ensures
        !r.healthy,
        r.failure_code == Some(code),
        r.attempted == 0 && r.reconciled == 0 && r.failed == 0,
{
    MaintenanceHealth { healthy: false, failure_code: Some(code), attempted: 0, reconciled: 0, failed: 0 }
}

/// The health of an archive pass: healthy unless an archive event is still unprocessed, which
/// reports `ARCHIVE_RECONCILIATION_PENDING`.
pub fn upgrade_health(archive_pending: bool) -> (r: MaintenanceHealth)
    ensures
        r.healthy == !archive_pending,
        opt_string_view(r.failure_code) == if archive_pending { Some("ARCHIVE_RECONCILIATION_PENDING"@) } else { None },
        r.attempted == 0 && r.reconciled == 0 && r.failed == 0,
{
    MaintenanceHealth {
        healthy: !archive_pending,
        failure_code: if archive_pending {
            Some(String::from_str("ARCHIVE_RECONCILIATION_PENDING"))
        } else {
            None
        },
        attempted: 0,
        reconciled: 0,
        failed: 0,
    }
}

/// The health of an archive pass that failed: unhealthy, reporting `ARCHIVE_RECONCILIATION_`
/// followed by the failure's code.
pub fn upgrade_failure(code: &str) -> (r: MaintenanceHealth)
    ensures
        !r.healthy,
        opt_string_view(r.failure_code) == Some("ARCHIVE_RECONCILIATION_"@ + code@),
        r.attempted == 0 && r.reconciled == 0 && r.failed == 0,
{
    let text = String::from_str("ARCHIVE_RECONCILIATION_").concat(code);
    MaintenanceHealth { healthy: false, failure_code: Some(text), attempted: 0, reconciled: 0, failed: 0 }
}

/// The columns `transition_requirement` writes on a pending requirement, besides its status,
/// revision and participants.
#[derive(PartialEq, Eq, Structural, Clone, Copy, Debug)]
pub struct Transition {
    /// `satisfied_at` is stamped (and cleared otherwise).
    pub stamp_satisfied: bool,
    /// `rejected_at` is stamped (and cleared otherwise).
    pub stamp_rejected: bool,
    /// `invalidated_at` is stamped (and cleared otherwise).
    pub stamp_invalidated: bool,
    /// The invalidation code stored.
    pub invalidation_code: Option<ApprovalCode>,
    /// The update only applies to a requirement that has not expired yet.
    pub requires_unexpired: bool,
}

/// The move of a pending requirement to `status`: each terminal status stamps its own instant
/// and clears the others, only an invalidation stores a code, and satisfying or rejecting
/// requires the requirement to be unexpired.
pub open spec fn transition_spec(status: RequirementStatus, code: Option<ApprovalCode>) -> Transition {
    Transition {
        stamp_satisfied: status is Satisfied,
        stamp_rejected: status is Rejected,
        stamp_invalidated: status is Invalidated,
        invalidation_code: if status is Invalidated { code } else { None },
        requires_unexpired: status is Satisfied || status is Rejected,
    }
}

/// The columns a requirement transition writes.
pub fn transition_requirement(status: RequirementStatus, code: Option<ApprovalCode>) -> (r: Transition)
    ensures
        r == transition_spec(status, code),
{
    let invalidated = status == RequirementStatus::Invalidated;
    Transition {
        stamp_satisfied: status == RequirementStatus::Satisfied,
        stamp_rejected: status == RequirementStatus::Rejected,
        stamp_invalidated: invalidated,
        invalidation_code: if invalidated { code } else { None },
        requires_unexpired: status == RequirementStatus::Satisfied || status == RequirementStatus::Rejected,
    }
}

/// The handoff never contradicts itself: a blocked execution is not handed off, a release row is
/// dropped only after it was recorded, an execution is queued only with a release, a ready worker
/// and none queued yet, and only a requirement that is (or has just been) satisfied is handed off.
pub proof fn handoff_plan_is_consistent(f: HandoffFacts)
    ensures
        handoff_spec(f).block ==> !handoff_spec(f).handed_off && !handoff_spec(f).release,
        handoff_spec(f).drop_release ==> handoff_spec(f).release,
        handoff_spec(f).enqueue ==> handoff_spec(f).release && f.worker_ready && !f.execute_queued,
        handoff_spec(f).handed_off ==> f.status is Satisfied || handoff_spec(f).satisfy,
        handoff_spec(f).satisfy ==> f.required_approvers == 0 && f.evidence_ready && !f.expired,
{
}

/// The handoff queues a deployment's execution at most once: once an execution is queued, a later
/// handoff of the same cycle queues none and drops the release it recorded.
pub proof fn the_handoff_queues_execution_once(f: HandoffFacts)
    ensures
        !handoff_spec(HandoffFacts { execute_queued: true, ..f }).enqueue,
        handoff_spec(HandoffFacts { execute_queued: true, ..f }).release
            ==> handoff_spec(HandoffFacts { execute_queued: true, ..f }).drop_release,
{
}

/// Reconciliation only ever terminalizes a pending cycle: a requirement that is no longer pending
/// is at most blocked from execution, never moved to another terminal status.
pub proof fn reconciliation_leaves_settled_cycles_settled(f: PendingFacts)
    requires
        !f.pending,
    ensures
        !(reconciliation_spec(f) is Terminalize),
{
}

/// Reconciliation terminalizes only a pending requirement of a deployment it can read, and then:
/// it cancels the deployment exactly when the deployment still awaits its decision (awaiting
/// approval, or requested); it invalidates with `TERMINAL_LIFECYCLE` exactly when the deployment has
/// started execution; it expires (with the expiry code) exactly when the requirement expired before
/// execution started; and otherwise it invalidates with the evidence issue that was read, never a
/// missing evidence still being evaluated.
pub proof fn reconciliation_terminalizes_by_the_frozen_facts(f: PendingFacts)
    ensures
        reconciliation_spec(f) matches Reconciliation::Terminalize { action, code, cancel } ==> {
            &&& f.pending
            &&& f.lifecycle matches Some(l) && {
                &&& cancel == (l is AwaitingApproval || l is Requested)
                &&& (code is TerminalLifecycle) == (l is InProgress || l is Active || l is Failed || l is Canceled
                    || l is RolledBack)
                &&& (action is Expired) == (code is RequirementExpired)
                &&& code is RequirementExpired ==> f.expired
                &&& code matches ApprovalCode::Evidence(issue) ==> (f.evidence_issue == Some(issue)
                    && !(issue is Missing && f.waiting_for_evaluation))
                &&& !(code is ProjectArchived || code is ProjectNotActive || code is EvidenceNoLongerValid)
            }
        },
        f.pending && f.lifecycle is Some ==> (f.expired || (f.evidence_issue is Some && !(f.evidence_issue
            == Some(EvidenceIssue::Missing) && f.waiting_for_evaluation)) ==> reconciliation_spec(f) is Terminalize),
        f.pending && (f.lifecycle matches Some(l) && (l is InProgress || l is Active || l is Failed || l is Canceled
            || l is RolledBack)) ==> reconciliation_spec(f) is Terminalize,
{
}

/// A new requirement expires 24 hours after its deployment was requested; it is pending exactly
/// when the project is not archived and the deployment has not started execution, and otherwise
/// invalidated at once, with `PROJECT_ARCHIVED` whenever the project is archived.
pub proof fn a_new_requirement_is_open_for_a_day(archived: bool, lifecycle: Lifecycle, requested_at: i64)
    ensures
        ({
            let (status, expires_at, code) = new_requirement_spec(archived, lifecycle, requested_at);
            &&& expires_at == requested_at + 86_400_000_000_000
            &&& (status is Pending) == (!archived && (lifecycle is Requested || lifecycle is AwaitingApproval
                || lifecycle is Approved))
            &&& !(status is Pending) ==> status is Invalidated
            &&& (code is None) == (status is Pending)
            &&& archived ==> code == Some(ApprovalCode::ProjectArchived)
        }),
{
}

/// A deployment is eligible to execute on its approval only with a live (satisfied, unexpired)
/// requirement, an approved or requested deployment, an active project outside any archive,
/// evidence that still holds, and exactly as many distinct frozen participants as the requirement
/// requires, each still an approver.
pub proof fn execution_needs_a_live_approval(f: EligibilityFacts)
    ensures
        !f.live_requirement ==> !eligible_spec(f),
        f.archived || !f.project_active || !f.evidence_ready ==> !eligible_spec(f),
        eligible_spec(f) ==> f.lifecycle == Some(Lifecycle::Approved) || f.lifecycle == Some(Lifecycle::Requested),
        eligible_spec(f) ==> f.participants@.len() == f.required_approvers,
        eligible_spec(f) ==> forall|i: int| 0 <= i < f.participants@.len() ==> approved_by(
            #[trigger] f.participants@[i]@,
            f.approvers@,
        ),
{
    if eligible_spec(f) {
        assert(string_views(f.participants@).len() == f.participants@.len());
        assert forall|i: int| 0 <= i < f.participants@.len() implies approved_by(
            #[trigger] f.participants@[i]@,
            f.approvers@,
        ) by {
            assert(string_views(f.participants@)[i] == f.participants@[i]@);
        }
    }
}

/// A blocked execution is answered only for a satisfied requirement of a deployment waiting to
/// execute, and always for one whose project is archived or inactive, whose evidence no longer
/// holds, or whose requirement expired; an archive is reported before anything else.
pub proof fn blocks_follow_the_frozen_facts(f: BlockFacts)
    ensures
        block_spec(f) is Some ==> f.satisfied_and_waiting,
        f.satisfied_and_waiting && (f.archived || !f.project_active || f.evidence_issue is Some || f.any_expired)
            ==> block_spec(f) is Some,
        f.satisfied_and_waiting && f.archived ==> block_spec(f) == Some(ApprovalCode::ProjectArchived),
        block_spec(f) == Some(ApprovalCode::ProjectNotActive) ==> !f.project_active,
{
}

/// A deployment whose approval is still to be decided: awaiting approval, or requested.
pub open spec fn awaiting_decision(lifecycle: Lifecycle) -> bool {
    lifecycle is AwaitingApproval || lifecycle is Requested
}

/// The lifecycle a rejection moves its deployment to: canceled, when it still awaits its
/// decision; nothing otherwise, which the command answers as a deployment it cannot cancel.
pub fn cancel_rejected_deployment(lifecycle: Option<Lifecycle>) -> (r: Option<Lifecycle>)
    ensures
        r == match lifecycle {
            Some(l) if awaiting_decision(l) => Some(Lifecycle::Canceled),
            _ => None,
        },
{
    match lifecycle {
        Some(Lifecycle::AwaitingApproval) | Some(Lifecycle::Requested) => Some(Lifecycle::Canceled),
        _ => None,
    }
}

/// The lifecycle a satisfied requirement moves its deployment to before the handoff: approved,
/// when it still awaits its decision; nothing otherwise, which the command answers as a
/// deployment it cannot approve.
pub fn approve_deployment_for_execution(lifecycle: Option<Lifecycle>) -> (r: Option<Lifecycle>)
    ensures
        r == match lifecycle {
            Some(l) if awaiting_decision(l) => Some(Lifecycle::Approved),
            _ => None,
        },
{
    match lifecycle {
        Some(Lifecycle::AwaitingApproval) | Some(Lifecycle::Requested) => Some(Lifecycle::Approved),
        _ => None,
    }
}

/// Invalidating a deployment's requirement with `code` applies only to a pending requirement;
/// any other, or none, is left as it is.
pub fn invalidate_pending_requirement(status: Option<RequirementStatus>, code: ApprovalCode) -> (r: Option<Transition>)
    ensures
        r == if status == Some(RequirementStatus::Pending) {
            Some(transition_spec(RequirementStatus::Invalidated, Some(code)))
        } else {
            None::<Transition>
        },
{
    match status {
        Some(RequirementStatus::Pending) => Some(transition_requirement(RequirementStatus::Invalidated, Some(code))),
        _ => None,
    }
}

/// A requirement has expired once its expiry is no later than `now`.
pub fn requirement_expired(expires_at: i64, now: i64) -> (r: bool)
    ensures
        r == (expires_at <= now),
{
    expires_at <= now
}

/// An approved handoff: a satisfied requirement of an approved deployment.
pub fn approved_approval_handoff(status: Option<RequirementStatus>, lifecycle: Option<Lifecycle>) -> (r: bool)
    ensures
        r == (status == Some(RequirementStatus::Satisfied) && lifecycle == Some(Lifecycle::Approved)),
{
    status == Some(RequirementStatus::Satisfied) && lifecycle == Some(Lifecycle::Approved)
}

/// A stored worker heartbeat, as the readiness reads see it.
pub struct WorkerHeartbeatRow {
    pub worker_id: String,
    pub approval_execution_compatible: Option<bool>,
    /// The heartbeat reports `READY` (or `DEGRADED`).
    pub ready: bool,
    /// When it was observed (nanoseconds since the Unix epoch).
    pub observed_at: i64,
}

/// How long a heartbeat stays fresh: 15 seconds, in nanoseconds.
pub const HEARTBEAT_FRESHNESS: i64 = 15_000_000_000;

/// A heartbeat of a ready, approval-compatible worker observed within the last 15 seconds.
pub open spec fn fresh_compatible(h: WorkerHeartbeatRow, now: i64) -> bool {
    h.approval_execution_compatible == Some(true) && h.ready && h.observed_at > now - HEARTBEAT_FRESHNESS
}

fn is_fresh_compatible(h: &WorkerHeartbeatRow, now: i64) -> (r: bool)
    ensures
        r == fresh_compatible(*h, now),
{
    h.approval_execution_compatible == Some(true) && h.ready
        && (h.observed_at as i128) > (now as i128) - (HEARTBEAT_FRESHNESS as i128)
}

/// Whether any ready, approval-compatible worker has a fresh heartbeat.
pub fn worker_ready(heartbeats: &Vec<WorkerHeartbeatRow>, now: i64) -> (r: bool)
    ensures
        r == exists|k: int| 0 <= k < heartbeats@.len() && fresh_compatible(#[trigger] heartbeats@[k], now),
{
    let mut k: usize = 0;
    while k < heartbeats.len()
        invariant
            k <= heartbeats@.len(),
            forall|m: int| 0 <= m < k ==> !fresh_compatible(#[trigger] heartbeats@[m], now),
        decreases heartbeats@.len() - k,
    {
        if is_fresh_compatible(&heartbeats[k], now) {
            return true;
        }
        k = k + 1;
    }
    false
}

/// Whether the worker `worker` is a ready, approval-compatible worker with a fresh heartbeat.
pub fn compatible_approval_worker(heartbeats: &Vec<WorkerHeartbeatRow>, worker: &str, now: i64) -> (r: bool)
    ensures
        r == exists|k: int| 0 <= k < heartbeats@.len() && #[trigger] heartbeats@[k].worker_id@ == worker@
            && fresh_compatible(heartbeats@[k], now),
{
    let mut k: usize = 0;
    while k < heartbeats.len()
        invariant
            k <= heartbeats@.len(),
            forall|m: int| 0 <= m < k ==> !(#[trigger] heartbeats@[m].worker_id@ == worker@ && fresh_compatible(heartbeats@[m], now)),
        decreases heartbeats@.len() - k,
    {
        if str_equal(heartbeats[k].worker_id.as_str(), worker) && is_fresh_compatible(&heartbeats[k], now) {
            return true;
        }
        k = k + 1;
    }
    false
}

} // verus!
