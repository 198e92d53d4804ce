//! The order in which the approval decision command reads, plans and writes.

use hive_persistence::decision_flow::{
    decision_step, event_fits, DecisionAction, DecisionEvent, DecisionRefusal, DecisionStage,
};
use hive_persistence::lifecycle::RequirementStatus;

fn opened() -> DecisionEvent {
    DecisionEvent::Opened { requirement_found: true, deployment_found: true, visible: true }
}

fn second(status: RequirementStatus, accepted: bool) -> DecisionEvent {
    DecisionEvent::SecondPlanned { status, accepted, rejection: false, satisfies: true }
}

/// Runs the stages on the given facts and returns the action the command ends with.
fn run(events: Vec<DecisionEvent>) -> DecisionAction {
    let mut stage = DecisionStage::Open;
    for event in events {
        let (next, action) = decision_step(stage, event);
        if action != DecisionAction::Continue {
            return action;
        }
        stage = next;
    }
    panic!("the facts ran out before an answer");
}

#[test]
fn a_decision_passing_every_gate_is_recorded_as_the_second_plan_says() {
    let answer = run(vec![
        opened(),
        DecisionEvent::ReplayLooked { earlier_matches: None },
        DecisionEvent::AuthorityChecked { archived: false, eligible: true },
        DecisionEvent::FirstPlanned { accepted: true, expired: false, evidence_issue: false },
        second(RequirementStatus::Pending, true),
        DecisionEvent::ExpiryChecked { expired: false },
    ]);
    assert_eq!(answer, DecisionAction::Record { rejection: false, satisfies: true });
}

#[test]
fn a_missing_or_hidden_requirement_is_refused_before_anything_else() {
    assert_eq!(
        run(vec![DecisionEvent::Opened { requirement_found: false, deployment_found: true, visible: true }]),
        DecisionAction::RefuseUnavailable
    );
    assert_eq!(
        run(vec![DecisionEvent::Opened { requirement_found: true, deployment_found: false, visible: false }]),
        DecisionAction::RefuseUnavailable
    );
    assert_eq!(
        run(vec![DecisionEvent::Opened { requirement_found: true, deployment_found: true, visible: false }]),
        DecisionAction::RefuseHidden
    );
}

#[test]
fn an_earlier_decision_under_the_request_is_replayed_or_a_conflict() {
    assert_eq!(
        run(vec![opened(), DecisionEvent::ReplayLooked { earlier_matches: Some(true) }]),
        DecisionAction::ReplayEarlierDecision
    );
    let conflict = run(vec![opened(), DecisionEvent::ReplayLooked { earlier_matches: Some(false) }]);
    assert_eq!(conflict, DecisionAction::Refuse(DecisionRefusal::IdempotencyConflict));
    assert_eq!(DecisionRefusal::IdempotencyConflict.as_str(), "IDEMPOTENCY_CONFLICT");
}

#[test]
fn an_archive_is_refused_before_an_ineligible_actor() {
    let replay = DecisionEvent::ReplayLooked { earlier_matches: None };
    assert_eq!(
        run(vec![opened(), replay, DecisionEvent::AuthorityChecked { archived: true, eligible: false }]),
        DecisionAction::Refuse(DecisionRefusal::ProjectArchived)
    );
    assert_eq!(
        run(vec![opened(), replay, DecisionEvent::AuthorityChecked { archived: false, eligible: false }]),
        DecisionAction::Refuse(DecisionRefusal::ApproverIneligible)
    );
    assert_eq!(DecisionRefusal::ApproverIneligible.as_str(), "APPROVER_INELIGIBLE");
    assert_eq!(DecisionRefusal::ProjectArchived.as_str(), "PROJECT_ARCHIVED");
}

#[test]
fn a_refused_plan_reconciles_only_a_requirement_that_reached_a_terminal_state() {
    let prefix = vec![
        opened(),
        DecisionEvent::ReplayLooked { earlier_matches: None },
        DecisionEvent::AuthorityChecked { archived: false, eligible: true },
    ];
    let mut expired = prefix.clone();
    expired.push(DecisionEvent::FirstPlanned { accepted: false, expired: true, evidence_issue: false });
    assert_eq!(run(expired), DecisionAction::RefusePlanned { reconcile: true });
    let mut duplicate = prefix.clone();
    duplicate.push(DecisionEvent::FirstPlanned { accepted: false, expired: false, evidence_issue: false });
    assert_eq!(run(duplicate), DecisionAction::RefusePlanned { reconcile: false });

    let accepted = DecisionEvent::FirstPlanned { accepted: true, expired: false, evidence_issue: false };
    let mut reconciled = prefix.clone();
    reconciled.extend([accepted, second(RequirementStatus::Invalidated, true)]);
    assert_eq!(run(reconciled), DecisionAction::RefuseReconciled);
    let mut refused = prefix.clone();
    refused.extend([accepted, second(RequirementStatus::Pending, false)]);
    assert_eq!(run(refused), DecisionAction::RefusePlanned { reconcile: false });
    let mut late = prefix;
    late.extend([
        accepted,
        second(RequirementStatus::Pending, true),
        DecisionEvent::ExpiryChecked { expired: true },
    ]);
    assert_eq!(run(late), DecisionAction::RefuseExpired);
}

#[test]
fn an_event_fits_only_the_stage_that_reads_it() {
    assert!(event_fits(DecisionStage::Open, opened()));
    assert!(!event_fits(DecisionStage::Replay, opened()));
    assert!(event_fits(
        DecisionStage::WriteBoundary { rejection: false, satisfies: true },
        DecisionEvent::ExpiryChecked { expired: false }
    ));
    assert!(!event_fits(DecisionStage::Answered, DecisionEvent::ExpiryChecked { expired: false }));
}
