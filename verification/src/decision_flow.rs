//! The order in which the approval decision command reads, plans and writes. Each stage names the
//! facts the command reads next; `decision_step` takes them and answers either with the next stage
//! or with what the command does instead: a refusal, a replay of the earlier decision, or the
//! recorded decision. The reads, the planner and the writes stay with the caller.

use crate::lifecycle::RequirementStatus;
use vstd::prelude::*;

verus! {

/// Where the decision command stands.
#[derive(PartialEq, Eq, Structural, Clone, Copy, Debug)]
pub enum DecisionStage {
    /// Reading the requirement, its deployment and whether the actor may view the project's
    /// approvals.
    Open,
    /// Looking for the actor's earlier decision under the same request.
    Replay,
    /// Checking the project's archive boundary and the actor's eligibility to decide.
    Authority,
    /// Planning over the facts read so far, without the duplicate check.
    FirstPlan,
    /// Planning again with the duplicate check, and reconciling the requirement.
    SecondPlan,
    /// Checking the expiry again at the write boundary.
    WriteBoundary { rejection: bool, satisfies: bool },
    /// The command has answered.
    Answered,
}

/// The facts the command read at a stage.
#[derive(PartialEq, Eq, Structural, Clone, Copy, Debug)]
pub enum DecisionEvent {
    /// The requirement (read, and read again under its lock) and its deployment exist, and the
    /// actor may or may not view the project's approvals.
    Opened { requirement_found: bool, deployment_found: bool, visible: bool },
    /// The actor's earlier decision under this request, if any: whether its stored fingerprint is
    /// this request's.
    ReplayLooked { earlier_matches: Option<bool> },
    /// Whether the deployment lies inside a project archive, and whether the actor may decide.
    AuthorityChecked { archived: bool, eligible: bool },
    /// Whether the first plan accepts the decision, and whether the requirement had expired or its
    /// evidence no longer held at that point.
    FirstPlanned { accepted: bool, expired: bool, evidence_issue: bool },
    /// The requirement's status after reconciliation, and whether the second plan accepts the
    /// decision, rejects the deployment or satisfies the requirement.
    SecondPlanned { status: RequirementStatus, accepted: bool, rejection: bool, satisfies: bool },
    /// Whether the requirement has expired at the write boundary.
    ExpiryChecked { expired: bool },
}

/// The refusal codes the command itself decides.
#[derive(PartialEq, Eq, Structural, Clone, Copy, Debug)]
pub enum DecisionRefusal {
    /// `IDEMPOTENCY_CONFLICT`: the request id was used for another decision request.
    IdempotencyConflict,
    /// `PROJECT_ARCHIVED`.
    ProjectArchived,
    /// `APPROVER_INELIGIBLE`.
    ApproverIneligible,
}

/// The stored spelling of a refusal code.
pub open spec fn refusal_text(refusal: DecisionRefusal) -> Seq<char> {
    match refusal {
        DecisionRefusal::IdempotencyConflict => "IDEMPOTENCY_CONFLICT"@,
        DecisionRefusal::ProjectArchived => "PROJECT_ARCHIVED"@,
        DecisionRefusal::ApproverIneligible => "APPROVER_INELIGIBLE"@,
    }
}

impl DecisionRefusal {
    /// The stored spelling of the refusal code.
    pub fn as_str(&self) -> (r: &'static str)
        ensures
            r@ == refusal_text(*self),
    {
        match self {
            DecisionRefusal::IdempotencyConflict => "IDEMPOTENCY_CONFLICT",
            DecisionRefusal::ProjectArchived => "PROJECT_ARCHIVED",
            DecisionRefusal::ApproverIneligible => "APPROVER_INELIGIBLE",
        }
    }
}

/// What the command does after a stage's facts.
#[derive(PartialEq, Eq, Structural, Clone, Copy, Debug)]
pub enum DecisionAction {
    /// Read the next stage's facts.
    Continue,
    /// Refuse: the requirement is unavailable.
    RefuseUnavailable,
    /// Refuse with one of the command's own codes.
    Refuse(DecisionRefusal),
    /// Plan over the facts of an actor who may not view the requirement and refuse with the
    /// plan's problem (unavailable when it names none).
    RefuseHidden,
    /// Record the replay receipt and answer with the earlier, immutable decision.
    ReplayEarlierDecision,
    /// Refuse with the plan's problem (unavailable when it names none), reconciling the
    /// requirement first when `reconcile`.
    RefusePlanned { reconcile: bool },
    /// Refuse with the problem of a plan over the reconciled requirement.
    RefuseReconciled,
    /// Reconcile the expired requirement and refuse with its state problem.
    RefuseExpired,
    /// Record the decision; a rejection then rejects the requirement and cancels the deployment,
    /// a satisfying approval satisfies the requirement and approves the deployment.
    Record { rejection: bool, satisfies: bool },
}

/// Whether an event holds the facts its stage reads.
pub open spec fn fits(stage: DecisionStage, event: DecisionEvent) -> bool {
    match stage {
        DecisionStage::Open => event is Opened,
        DecisionStage::Replay => event is ReplayLooked,
        DecisionStage::Authority => event is AuthorityChecked,
        DecisionStage::FirstPlan => event is FirstPlanned,
        DecisionStage::SecondPlan => event is SecondPlanned,
        DecisionStage::WriteBoundary { .. } => event is ExpiryChecked,
        DecisionStage::Answered => false,
    }
}

/// Whether an event holds the facts its stage reads.
pub fn event_fits(stage: DecisionStage, event: DecisionEvent) -> (r: bool)
    ensures
        r == fits(stage, event),
{
    match stage {
        DecisionStage::Open => matches!(event, DecisionEvent::Opened { .. }),
        DecisionStage::Replay => matches!(event, DecisionEvent::ReplayLooked { .. }),
        DecisionStage::Authority => matches!(event, DecisionEvent::AuthorityChecked { .. }),
        DecisionStage::FirstPlan => matches!(event, DecisionEvent::FirstPlanned { .. }),
        DecisionStage::SecondPlan => matches!(event, DecisionEvent::SecondPlanned { .. }),
        DecisionStage::WriteBoundary { .. } => matches!(event, DecisionEvent::ExpiryChecked { .. }),
        DecisionStage::Answered => false,
    }
}

/// The command's answer to a stage's facts:
/// - a missing requirement or deployment is unavailable, and an actor who may not view the
///   project's approvals gets the hidden plan's problem;
/// - an earlier decision under the same request is replayed when its fingerprint is this
///   request's, and refused as an idempotency conflict otherwise;
/// - an archived deployment, then an ineligible actor, is refused;
/// - a refused first plan refuses, reconciling the requirement when it had expired or its evidence
///   no longer held;
/// - a requirement reconciled out of `PENDING` refuses with the reconciled plan's problem, and a
///   refused second plan with its own;
/// - an expiry at the write boundary reconciles and refuses with the requirement's state;
/// - otherwise the decision is recorded as the second plan says.
pub open spec fn decision_step_spec(stage: DecisionStage, event: DecisionEvent) -> (DecisionStage, DecisionAction) {
    let answered = DecisionStage::Answered;
    match event {
        DecisionEvent::Opened { requirement_found, deployment_found, visible } => {
            if !requirement_found || !deployment_found {
                (answered, DecisionAction::RefuseUnavailable)
            } else if !visible {
                (answered, DecisionAction::RefuseHidden)
            } else {
                (DecisionStage::Replay, DecisionAction::Continue)
            }
        },
        DecisionEvent::ReplayLooked { earlier_matches } => match earlier_matches {
            Some(true) => (answered, DecisionAction::ReplayEarlierDecision),
            Some(false) => (answered, DecisionAction::Refuse(DecisionRefusal::IdempotencyConflict)),
            None => (DecisionStage::Authority, DecisionAction::Continue),
        },
        DecisionEvent::AuthorityChecked { archived, eligible } => {
            if archived {
                (answered, DecisionAction::Refuse(DecisionRefusal::ProjectArchived))
            } else if !eligible {
                (answered, DecisionAction::Refuse(DecisionRefusal::ApproverIneligible))
            } else {
                (DecisionStage::FirstPlan, DecisionAction::Continue)
            }
        },
        DecisionEvent::FirstPlanned { accepted, expired, evidence_issue } => {
            if !accepted {
                (answered, DecisionAction::RefusePlanned { reconcile: expired || evidence_issue })
            } else {
                (DecisionStage::SecondPlan, DecisionAction::Continue)
            }
        },
        DecisionEvent::SecondPlanned { status, accepted, rejection, satisfies } => {
            if !(status is Pending) {
                (answered, DecisionAction::RefuseReconciled)
            } else if !accepted {
                (answered, DecisionAction::RefusePlanned { reconcile: false })
            } else {
                (DecisionStage::WriteBoundary { rejection, satisfies }, DecisionAction::Continue)
            }
        },
        DecisionEvent::ExpiryChecked { expired } => {
            if expired {
                (answered, DecisionAction::RefuseExpired)
            } else {
                match stage {
                    DecisionStage::WriteBoundary { rejection, satisfies } => (
                        answered,
                        DecisionAction::Record { rejection, satisfies },
                    ),
                    _ => (answered, DecisionAction::RefuseUnavailable),
                }
            }
        },
    }
}

/// The command's answer to the facts its current stage read.
pub fn decision_step(stage: DecisionStage, event: DecisionEvent) -> (r: (DecisionStage, DecisionAction))
    requires
        fits(stage, event),
    ensures
        r == decision_step_spec(stage, event),
{
    let answered = DecisionStage::Answered;
    match event {
        DecisionEvent::Opened { requirement_found, deployment_found, visible } => {
            if !requirement_found || !deployment_found {
                (answered, DecisionAction::RefuseUnavailable)
            } else if !visible {
                (answered, DecisionAction::RefuseHidden)
            } else {
                (DecisionStage::Replay, DecisionAction::Continue)
            }
        },
        DecisionEvent::ReplayLooked { earlier_matches } => match earlier_matches {
            Some(true) => (answered, DecisionAction::ReplayEarlierDecision),
            Some(false) => (answered, DecisionAction::Refuse(DecisionRefusal::IdempotencyConflict)),
            None => (DecisionStage::Authority, DecisionAction::Continue),
        },
        DecisionEvent::AuthorityChecked { archived, eligible } => {
            if archived {
                (answered, DecisionAction::Refuse(DecisionRefusal::ProjectArchived))
            } else if !eligible {
                (answered, DecisionAction::Refuse(DecisionRefusal::ApproverIneligible))
            } else {
                (DecisionStage::FirstPlan, DecisionAction::Continue)
            }
        },
        DecisionEvent::FirstPlanned { accepted, expired, evidence_issue } => {
            if !accepted {
                (answered, DecisionAction::RefusePlanned { reconcile: expired || evidence_issue })
            } else {
                (DecisionStage::SecondPlan, DecisionAction::Continue)
            }
        },
        DecisionEvent::SecondPlanned { status, accepted, rejection, satisfies } => {
            if status != RequirementStatus::Pending {
                (answered, DecisionAction::RefuseReconciled)
            } else if !accepted {
                (answered, DecisionAction::RefusePlanned { reconcile: false })
            } else {
                (DecisionStage::WriteBoundary { rejection, satisfies }, DecisionAction::Continue)
            }
        },
        DecisionEvent::ExpiryChecked { expired } => {
            if expired {
                (answered, DecisionAction::RefuseExpired)
            } else {
                match stage {
                    DecisionStage::WriteBoundary { rejection, satisfies } => (
                        answered,
                        DecisionAction::Record { rejection, satisfies },
                    ),
                    _ => (answered, DecisionAction::RefuseUnavailable),
                }
            }
        },
    }
}

/// A refused first plan reconciles the requirement exactly when it had reached a terminal state:
/// when it had expired, or when its frozen evidence no longer held (expired or not); a refusal for
/// any other reason leaves it as it is. An accepted first plan goes on to the second.
pub proof fn refused_first_plans_reconcile_terminal_requirements(accepted: bool, expired: bool, evidence_issue: bool)
    ensures
        ({
            let (next, action) = decision_step_spec(
                DecisionStage::FirstPlan,
                DecisionEvent::FirstPlanned { accepted, expired, evidence_issue },
            );
            &&& !accepted && evidence_issue ==> action == DecisionAction::RefusePlanned { reconcile: true }
            &&& !accepted && expired ==> action == DecisionAction::RefusePlanned { reconcile: true }
            &&& !accepted && !expired && !evidence_issue ==> action == DecisionAction::RefusePlanned { reconcile: false }
            &&& accepted ==> next == DecisionStage::SecondPlan && action == DecisionAction::Continue
        }),
{
}

/// The action a run of the command ends with: the first answer other than `Continue` that the
/// events give from `stage`, or none when they run out (or stop fitting) before one.
pub open spec fn final_action(stage: DecisionStage, events: Seq<DecisionEvent>) -> Option<DecisionAction>
    decreases events.len(),
{
    if events.len() == 0 || !fits(stage, events[0]) {
        None
    } else {
        let (next, action) = decision_step_spec(stage, events[0]);
        if action is Continue {
            final_action(next, events.drop_first())
        } else {
            Some(action)
        }
    }
}

/// A decision is recorded only through every gate: the requirement and its deployment exist, the
/// actor may view them, no earlier decision answers the request, the deployment is outside any
/// archive, the actor may decide, both plans accept, the requirement is still pending once
/// reconciled, and it has not expired at the write boundary. What is recorded is what the second
/// plan decided.
pub proof fn a_decision_is_recorded_only_through_every_gate(events: Seq<DecisionEvent>)
    requires
        final_action(DecisionStage::Open, events) matches Some(DecisionAction::Record { .. }),
    ensures
        events.len() >= 6,
        events[0] == (DecisionEvent::Opened { requirement_found: true, deployment_found: true, visible: true }),
        events[1] == (DecisionEvent::ReplayLooked { earlier_matches: None }),
        events[2] == (DecisionEvent::AuthorityChecked { archived: false, eligible: true }),
        events[3] matches DecisionEvent::FirstPlanned { accepted: true, .. },
        events[4] matches DecisionEvent::SecondPlanned { status: RequirementStatus::Pending, accepted: true, .. },
        events[5] == (DecisionEvent::ExpiryChecked { expired: false }),
        final_action(DecisionStage::Open, events) == Some(match events[4] {
            DecisionEvent::SecondPlanned { rejection, satisfies, .. } => DecisionAction::Record { rejection, satisfies },
            _ => DecisionAction::RefuseUnavailable,
        }),
{
    reveal_with_fuel(final_action, 7);
    let s1 = events.drop_first();
    let s2 = s1.drop_first();
    let s3 = s2.drop_first();
    let s4 = s3.drop_first();
    let s5 = s4.drop_first();
    assert(events.len() > 0);
    assert(s1.len() > 0);
    assert(s2.len() > 0);
    assert(s3.len() > 0);
    assert(s4.len() > 0);
    assert(s5.len() > 0);
    assert(s1[0] == events[1]);
    assert(s2[0] == events[2]);
    assert(s3[0] == events[3]);
    assert(s4[0] == events[4]);
    assert(s5[0] == events[5]);
}

} // verus!
