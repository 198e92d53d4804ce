//! The deployment lifecycle commands' decisions: `deploy` admits a new cycle, `cancel`
//! terminalizes one in place, `promote` records a promotion fact and `recovery` backs `retry` and
//! `rollback`. Each command re-reads its facts under the row locks and answers the first refusal
//! of its ladder, or proceeds; the idempotency receipts make a retried command answer what the
//! first one did.

use crate::ids::{uuid_parsed, uuid_text, uuid_to_string};
use crate::lifecycle::{is_cancellable, Lifecycle};
use crate::text::{decimal, decimal_text, is_present, is_valid_key, present, str_equal, trim, trimmed, valid_key};
use vstd::prelude::*;

verus! {

/// Why a command is refused.
#[derive(PartialEq, Eq, Structural, Clone, Copy, Debug)]
pub enum Refusal {
    /// The deployment, or what the command names, is not visible to the caller.
    NotFound,
    /// The caller sees the deployment but lacks the capability.
    Forbidden,
    /// The deployment moved on from the revision the caller expected.
    Conflict { deployment_id: u128, expected_revision: i64, actual_revision: i64 },
    /// The deployment's lifecycle does not allow the command.
    Lifecycle,
    /// The command's input is invalid.
    Invalid,
    /// The idempotency key was used for a different command.
    Idempotency,
    /// A rollback needs a reason.
    ReasonRequired,
    /// A production rollback needs the environment's confirmation.
    ConfirmationRequired,
    /// The confirmation names another environment.
    ConfirmationMismatch,
    /// Too many requests are pending.
    RateLimited,
}

/// What a command answers once its ladder has run.
#[derive(PartialEq, Eq, Structural, Clone, Copy, Debug)]
pub enum Admission {
    /// Every check passed: the command performs its writes.
    Proceed,
    /// A retried command answers the deployment its receipt recorded, as a replay.
    Replay(u128),
    /// A repeated deploy answers the deployment its key already admitted, as a success.
    Existing(u128),
    /// The command is refused.
    Refused(Refusal),
}

/// What a caller may do on a project, as read under the lock the step takes.
#[derive(PartialEq, Eq, Structural, Clone, Copy, Debug)]
pub struct Access {
    /// The caller holds the project's view capability.
    pub can_view: bool,
    /// The caller holds the capability the command demands.
    pub capable: bool,
}

/// An access check: a missing subject or one the caller cannot see is not found, one the caller
/// sees without the command's capability is forbidden.
pub open spec fn access_refusal(access: Option<Access>) -> Option<Refusal> {
    match access {
        None => Some(Refusal::NotFound),
        Some(a) => if !a.can_view {
            Some(Refusal::NotFound)
        } else if !a.capable {
            Some(Refusal::Forbidden)
        } else {
            None
        },
    }
}

fn check_access(access: Option<Access>) -> (r: Option<Refusal>)
    ensures
        r == access_refusal(access),
{
    match access {
        None => Some(Refusal::NotFound),
        Some(a) => if !a.can_view {
            Some(Refusal::NotFound)
        } else if !a.capable {
            Some(Refusal::Forbidden)
        } else {
            None
        },
    }
}

/// A stored receipt of an earlier command under the same idempotency key.
pub struct Receipt {
    /// The fingerprint the earlier command recorded.
    pub fingerprint: String,
    /// The deployment it answered.
    pub result_deployment_id: u128,
    /// Whether that deployment can still be read.
    pub result_found: bool,
}

/// A receipt answers a retry with the same fingerprint by replaying its deployment (not found
/// when that is gone) and refuses any other command under the key.
pub open spec fn receipt_answer(receipt: Receipt, fingerprint: Seq<char>) -> Admission {
    if receipt.fingerprint@ == fingerprint {
        if receipt.result_found {
            Admission::Replay(receipt.result_deployment_id)
        } else {
            Admission::Refused(Refusal::NotFound)
        }
    } else {
        Admission::Refused(Refusal::Idempotency)
    }
}

fn answer_receipt(receipt: &Receipt, fingerprint: &str) -> (r: Admission)
    ensures
        r == receipt_answer(*receipt, fingerprint@),
{
    if str_equal(receipt.fingerprint.as_str(), fingerprint) {
        if receipt.result_found {
            Admission::Replay(receipt.result_deployment_id)
        } else {
            Admission::Refused(Refusal::NotFound)
        }
    } else {
        Admission::Refused(Refusal::Idempotency)
    }
}

/// The revision conflict a command answers when the deployment moved under it.
pub open spec fn conflict(deployment_id: u128, expected_revision: i64, actual_revision: i64) -> Refusal {
    Refusal::Conflict { deployment_id, expected_revision, actual_revision }
}

/// The conflict a command answers when its guarded write or its commit lost a race: against the
/// revision that won, or the expected one when the deployment can no longer be read.
pub fn lost_race(deployment_id: u128, expected_revision: i64, raced: Option<i64>) -> (r: Refusal)
    ensures
        r == conflict(deployment_id, expected_revision, match raced {
            Some(revision) => revision,
            None => expected_revision,
        }),
{
    Refusal::Conflict {
        deployment_id,
        expected_revision,
        actual_revision: match raced {
            Some(revision) => revision,
            None => expected_revision,
        },
    }
}

/// The facts `cancel` reads before it writes.
pub struct CancelFacts {
    /// The caller's access to the deployment's project, or nothing when there is no deployment.
    pub access: Option<Access>,
    pub revision: i64,
    pub lifecycle: Lifecycle,
}

/// `cancel` refuses a deployment the caller cannot see or may not cancel, one that moved on from
/// the expected revision, and one whose lifecycle cannot be canceled.
pub open spec fn cancel_spec(deployment_id: u128, expected_revision: i64, f: CancelFacts) -> Result<(), Refusal> {
    match access_refusal(f.access) {
        Some(refusal) => Err(refusal),
        None => if f.revision != expected_revision {
            Err(conflict(deployment_id, expected_revision, f.revision))
        } else if !is_cancellable(f.lifecycle) {
            Err(Refusal::Lifecycle)
        } else {
            Ok(())
        },
    }
}

/// Whether `cancel` may terminalize the deployment, or why not.
pub fn cancel(deployment_id: u128, expected_revision: i64, f: &CancelFacts) -> (r: Result<(), Refusal>)
    ensures
        r == cancel_spec(deployment_id, expected_revision, *f),
{
    if let Some(refusal) = check_access(f.access) {
        return Err(refusal);
    }
    if f.revision != expected_revision {
        return Err(Refusal::Conflict { deployment_id, expected_revision, actual_revision: f.revision });
    }
    if !f.lifecycle.is_cancellable() {
        return Err(Refusal::Lifecycle);
    }
    Ok(())
}

/// The reason a cancellation's audit records: caller text is never stored, only whether there was
/// any.
pub fn safe_reason(value: &str) -> (r: &'static str)
    ensures
        r@ == if trimmed(value@).len() > 0 {
            "Cancellation was requested by an authorized project principal."@
        } else {
            "Cancellation was requested from the local deployment detail."@
        },
{
    if !present(Some(value)) {
        "Cancellation was requested from the local deployment detail."
    } else {
        "Cancellation was requested by an authorized project principal."
    }
}

/// The facts `promote` reads before it writes.
pub struct PromoteFacts {
    /// The caller's access to the deployment's project before the row lock, or nothing when the
    /// deployment does not exist.
    pub preauthorized: Option<Access>,
    /// The caller's access again under the deployment's row lock, or nothing when it is gone.
    pub locked: Option<Access>,
    /// The receipt of an earlier promotion under the key.
    pub receipt: Option<Receipt>,
    pub revision: i64,
    pub lifecycle: Lifecycle,
    /// The deployment's runtime health status.
    pub runtime_health: String,
}

/// `promote` checks access before and under the row lock, answers a receipt under the key, then
/// refuses an invalid key, a moved revision, and anything but an `ACTIVE` deployment whose
/// runtime health is `HEALTHY`.
pub open spec fn promote_spec(
    deployment_id: u128,
    expected_revision: i64,
    key: Seq<char>,
    fingerprint: Seq<char>,
    f: PromoteFacts,
) -> Admission {
    if access_refusal(f.preauthorized) is Some {
        Admission::Refused(access_refusal(f.preauthorized)->0)
    } else if access_refusal(f.locked) is Some {
        Admission::Refused(access_refusal(f.locked)->0)
    } else if f.receipt is Some {
        receipt_answer(f.receipt->0, fingerprint)
    } else if !is_valid_key(key) {
        Admission::Refused(Refusal::Invalid)
    } else if f.revision != expected_revision {
        Admission::Refused(conflict(deployment_id, expected_revision, f.revision))
    } else if !(f.lifecycle is Active) || f.runtime_health@ != "HEALTHY"@ {
        Admission::Refused(Refusal::Lifecycle)
    } else {
        Admission::Proceed
    }
}

/// What `promote` answers, or whether it records the promotion.
pub fn promote(deployment_id: u128, expected_revision: i64, key: &str, fingerprint: &str, f: &PromoteFacts) -> (r: Admission)
    ensures
        r == promote_spec(deployment_id, expected_revision, key@, fingerprint@, *f),
{
    if let Some(refusal) = check_access(f.preauthorized) {
        return Admission::Refused(refusal);
    }
    if let Some(refusal) = check_access(f.locked) {
        return Admission::Refused(refusal);
    }
    if let Some(receipt) = &f.receipt {
        return answer_receipt(receipt, fingerprint);
    }
    if !valid_key(key) {
        return Admission::Refused(Refusal::Invalid);
    }
    if f.revision != expected_revision {
        return Admission::Refused(Refusal::Conflict { deployment_id, expected_revision, actual_revision: f.revision });
    }
    proof { reveal_strlit("HEALTHY"); }
    if f.lifecycle != Lifecycle::Active || !str_equal(f.runtime_health.as_str(), "HEALTHY") {
        return Admission::Refused(Refusal::Lifecycle);
    }
    Admission::Proceed
}

/// The fact a recorded promotion stores.
pub struct PromotionFact {
    pub deployment_id: u128,
    pub action_receipt_id: u128,
    pub agent_version_id: u128,
    pub target_digest: String,
    /// The runtime-health generation the promotion was taken against.
    pub runtime_health_generation: i64,
}

/// The promotion fact of an admitted promotion: the deployment's version and target digest, and
/// the runtime-health generation it was admitted against, so a later observation of the runtime
/// cannot be taken for the one that justified it.
pub fn promotion_fact(
    deployment_id: u128,
    receipt_id: u128,
    agent_version_id: u128,
    target_digest: &str,
    runtime_health_generation: i64,
) -> (r: PromotionFact)
    ensures
        r.deployment_id == deployment_id,
        r.action_receipt_id == receipt_id,
        r.agent_version_id == agent_version_id,
        r.target_digest@ == target_digest@,
        r.runtime_health_generation == runtime_health_generation,
{
    PromotionFact {
        deployment_id,
        action_receipt_id: receipt_id,
        agent_version_id,
        target_digest: String::from_str(target_digest),
        runtime_health_generation,
    }
}

/// The two recovery commands.
#[derive(PartialEq, Eq, Structural, Clone, Copy, Debug)]
pub enum RecoveryAction {
    Retry,
    Rollback,
}

/// The stored name of a recovery action.
pub open spec fn action_name(action: RecoveryAction) -> Seq<char> {
    match action {
        RecoveryAction::Retry => "RETRY"@,
        RecoveryAction::Rollback => "ROLLBACK"@,
    }
}

impl RecoveryAction {
    /// The stored name of the action.
    pub fn name(&self) -> (r: &'static str)
        ensures
            r@ == action_name(*self),
    {
        match self {
            RecoveryAction::Retry => "RETRY",
            RecoveryAction::Rollback => "ROLLBACK",
        }
    }

    /// The audit action the source deployment records.
    pub fn recorded_event(&self) -> (r: &'static str)
        ensures
            r@ == action_name(*self) + "_RECORDED"@,
    {
        proof {
            reveal_strlit("RETRY");
            reveal_strlit("ROLLBACK");
            reveal_strlit("_RECORDED");
            reveal_strlit("RETRY_RECORDED");
            reveal_strlit("ROLLBACK_RECORDED");
        }
        let r = match self {
            RecoveryAction::Retry => "RETRY_RECORDED",
            RecoveryAction::Rollback => "ROLLBACK_RECORDED",
        };
        assert(r@ =~= action_name(*self) + "_RECORDED"@);
        r
    }
}

/// The reason a recovery's audit records: caller text is never stored, only whether there was
/// any.
pub fn safe_recovery_reason(value: Option<&str>) -> (r: &'static str)
    ensures
        r@ == if is_present(match value { Some(text) => Some(text@), None => None }) {
            "An authorized project principal supplied the required recovery reason."@
        } else {
            "No caller-entered recovery reason was recorded."@
        },
{
    if !present(value) {
        "No caller-entered recovery reason was recorded."
    } else {
        "An authorized project principal supplied the required recovery reason."
    }
}

/// The version a recovery's new cycle targets: a retry the source's own version, a rollback the
/// rollback target read for it.
pub open spec fn recovery_version_spec(action: RecoveryAction, source_version: u128, rollback_target: Option<u128>) -> Option<u128> {
    match action {
        RecoveryAction::Retry => Some(source_version),
        RecoveryAction::Rollback => rollback_target,
    }
}

/// The version a recovery's new cycle targets.
pub fn recovery_version(action: RecoveryAction, source_version: u128, rollback_target: Option<u128>) -> (r: Option<u128>)
    ensures
        r == recovery_version_spec(action, source_version, rollback_target),
{
    match action {
        RecoveryAction::Retry => Some(source_version),
        RecoveryAction::Rollback => rollback_target,
    }
}

/// The caller's side of a recovery command.
pub struct RecoveryCommand<'a> {
    pub action: RecoveryAction,
    pub expected_revision: i64,
    pub key: &'a str,
    /// The requested target version, canonicalized.
    pub target_version: Option<&'a str>,
    pub reason: Option<&'a str>,
    pub production_confirmation: Option<&'a str>,
    /// The command's fingerprint, compared against a stored receipt.
    pub fingerprint: &'a str,
}

/// The facts `recovery` reads before it writes.
pub struct RecoveryFacts {
    /// The caller's access to the source's project before the row lock, or nothing when the
    /// source does not exist.
    pub preauthorized: Option<Access>,
    /// The caller's access again under the source's row lock, or nothing when it is gone.
    pub locked: Option<Access>,
    /// The receipt of an earlier command of the same action under the key.
    pub receipt: Option<Receipt>,
    pub revision: i64,
    pub lifecycle: Lifecycle,
    /// The logical class of the source's environment.
    pub environment_class: String,
    /// The stable identifier of the source's environment definition.
    pub stable_definition_id: String,
    /// The source's project is active.
    pub project_active: bool,
    /// The version the new cycle targets, as `recovery_version` chose it.
    pub version: Option<u128>,
    /// The caller supplied a compiled request.
    pub has_request: bool,
    /// The compiled request was planned against the compilation inputs read under the locks.
    pub same_inputs: bool,
    /// The caller or the project has too many pending requests.
    pub over_quota: bool,
}

/// `recovery` checks access before and under the row lock, answers a receipt under the key, then
/// refuses, in this order: an invalid key; a rollback target that is not an identifier; a moved
/// revision; a rollback without a reason; a production rollback without the environment's
/// confirmation, or with another environment's; an inactive project; a retry of anything but a
/// failed deployment, a rollback of anything but a failed or active one; no target version; no
/// compiled request; a request planned against other inputs (a revision conflict); too many
/// pending requests.
pub open spec fn recovery_spec(deployment_id: u128, c: RecoveryCommand, f: RecoveryFacts) -> Admission {
    let rollback = c.action is Rollback;
    if access_refusal(f.preauthorized) is Some {
        Admission::Refused(access_refusal(f.preauthorized)->0)
    } else if access_refusal(f.locked) is Some {
        Admission::Refused(access_refusal(f.locked)->0)
    } else if f.receipt is Some {
        receipt_answer(f.receipt->0, c.fingerprint@)
    } else if !is_valid_key(c.key@) {
        Admission::Refused(Refusal::Invalid)
    } else if rollback && c.target_version is Some && uuid_parsed(c.target_version->0@) is None {
        Admission::Refused(Refusal::Invalid)
    } else if f.revision != c.expected_revision {
        Admission::Refused(conflict(deployment_id, c.expected_revision, f.revision))
    } else if rollback && !is_present(match c.reason { Some(text) => Some(text@), None => None }) {
        Admission::Refused(Refusal::ReasonRequired)
    } else if rollback && f.environment_class@ == "PRODUCTION"@ && c.production_confirmation is None {
        Admission::Refused(Refusal::ConfirmationRequired)
    } else if rollback && f.environment_class@ == "PRODUCTION"@
        && f.stable_definition_id@ != trimmed(c.production_confirmation->0@) {
        Admission::Refused(Refusal::ConfirmationMismatch)
    } else if !f.project_active {
        Admission::Refused(Refusal::Lifecycle)
    } else if !rollback && !(f.lifecycle is Failed) {
        Admission::Refused(Refusal::Lifecycle)
    } else if rollback && !(f.lifecycle is Failed || f.lifecycle is Active) {
        Admission::Refused(Refusal::Lifecycle)
    } else if f.version is None {
        Admission::Refused(Refusal::Lifecycle)
    } else if !f.has_request {
        Admission::Refused(Refusal::Invalid)
    } else if !f.same_inputs {
        Admission::Refused(conflict(deployment_id, c.expected_revision, f.revision))
    } else if f.over_quota {
        Admission::Refused(Refusal::RateLimited)
    } else {
        Admission::Proceed
    }
}

/// What `recovery` answers, or whether it creates the new cycle.
pub fn recovery(deployment_id: u128, c: &RecoveryCommand, f: &RecoveryFacts) -> (r: Admission)
    ensures
        r == recovery_spec(deployment_id, *c, *f),
{
    let rollback = c.action == RecoveryAction::Rollback;
    if let Some(refusal) = check_access(f.preauthorized) {
        return Admission::Refused(refusal);
    }
    if let Some(refusal) = check_access(f.locked) {
        return Admission::Refused(refusal);
    }
    if let Some(receipt) = &f.receipt {
        return answer_receipt(receipt, c.fingerprint);
    }
    if !valid_key(c.key) {
        return Admission::Refused(Refusal::Invalid);
    }
    if rollback && !crate::ids::valid_optional_uuid(c.target_version) {
        return Admission::Refused(Refusal::Invalid);
    }
    if f.revision != c.expected_revision {
        return Admission::Refused(
            Refusal::Conflict { deployment_id, expected_revision: c.expected_revision, actual_revision: f.revision },
        );
    }
    if rollback {
        if !present(c.reason) {
            return Admission::Refused(Refusal::ReasonRequired);
        }
        proof { reveal_strlit("PRODUCTION"); }
        if str_equal(f.environment_class.as_str(), "PRODUCTION") {
            match c.production_confirmation {
                None => return Admission::Refused(Refusal::ConfirmationRequired),
                Some(confirmation) => {
                    if !str_equal(f.stable_definition_id.as_str(), trim(confirmation)) {
                        return Admission::Refused(Refusal::ConfirmationMismatch);
                    }
                },
            }
        }
    }
    if !f.project_active {
        return Admission::Refused(Refusal::Lifecycle);
    }
    if !rollback && f.lifecycle != Lifecycle::Failed {
        return Admission::Refused(Refusal::Lifecycle);
    }
    if rollback && !(f.lifecycle == Lifecycle::Failed || f.lifecycle == Lifecycle::Active) {
        return Admission::Refused(Refusal::Lifecycle);
    }
    if f.version.is_none() {
        return Admission::Refused(Refusal::Lifecycle);
    }
    if !f.has_request {
        return Admission::Refused(Refusal::Invalid);
    }
    if !f.same_inputs {
        return Admission::Refused(
            Refusal::Conflict { deployment_id, expected_revision: c.expected_revision, actual_revision: f.revision },
        );
    }
    if f.over_quota {
        return Admission::Refused(Refusal::RateLimited);
    }
    Admission::Proceed
}

/// The most requests one principal may have pending in a project.
pub const MAX_PENDING_REQUESTS_PER_PRINCIPAL: u64 = 20;

/// The most requests a project may have pending.
pub const MAX_PENDING_REQUESTS_PER_PROJECT: u64 = 100;

/// The lifecycle statuses a still-pending deployment request can hold.
pub open spec fn is_pending_request(status: Lifecycle) -> bool {
    status is Requested || status is AwaitingApproval || status is Approved || status is InProgress
}

/// Whether a deployment counts against the pending-request quotas.
pub fn pending_request(status: Lifecycle) -> (r: bool)
    ensures
        r == is_pending_request(status),
{
    match status {
        Lifecycle::Requested | Lifecycle::AwaitingApproval | Lifecycle::Approved | Lifecycle::InProgress => true,
        _ => false,
    }
}

/// A new request is over quota when the principal already has 20 pending requests in the
/// project, or the project has 100.
pub fn over_pending_quota(per_principal: u64, per_project: u64) -> (r: bool)
    ensures
        r == (per_principal >= MAX_PENDING_REQUESTS_PER_PRINCIPAL || per_project >= MAX_PENDING_REQUESTS_PER_PROJECT),
{
    per_principal >= MAX_PENDING_REQUESTS_PER_PRINCIPAL || per_project >= MAX_PENDING_REQUESTS_PER_PROJECT
}

/// The text a recovery or promotion's fingerprint digests: the action, the deployment, the
/// expected revision, the canonical target version (empty when absent) and the digests of the
/// reason and the confirmation (empty when they are not present), separated by `|`.
pub open spec fn action_fingerprint_spec(
    action: Seq<char>,
    deployment_id: u128,
    revision: i64,
    target_version: Option<Seq<char>>,
    reason_digest: Option<Seq<char>>,
    confirmation_digest: Option<Seq<char>>,
) -> Seq<char> {
    let or_empty = |value: Option<Seq<char>>| match value {
        Some(text) => text,
        None => Seq::<char>::empty(),
    };
    action + "|"@ + uuid_text(deployment_id) + "|"@ + decimal(revision as int) + "|"@ + or_empty(target_version) + "|"@
        + or_empty(reason_digest) + "|"@ + or_empty(confirmation_digest)
}

fn append_optional(out: &mut String, value: Option<&str>)
    ensures
        final(out)@ == old(out)@ + match value {
            Some(text) => text@,
            None => Seq::<char>::empty(),
        },
{
    match value {
        Some(text) => out.append(text),
        None => {
            assert(out@ =~= out@ + Seq::<char>::empty());
        },
    }
}

/// The text a recovery or promotion's fingerprint digests.
pub fn action_fingerprint_text(
    action: &str,
    deployment_id: u128,
    revision: i64,
    target_version: Option<&str>,
    reason_digest: Option<&str>,
    confirmation_digest: Option<&str>,
) -> (r: String)
    ensures
        r@ == action_fingerprint_spec(
            action@,
            deployment_id,
            revision,
            match target_version { Some(t) => Some(t@), None => None },
            match reason_digest { Some(t) => Some(t@), None => None },
            match confirmation_digest { Some(t) => Some(t@), None => None },
        ),
{
    let mut out = String::from_str(action);
    out.append("|");
    let id = uuid_to_string(deployment_id);
    out.append(id.as_str());
    out.append("|");
    let number = decimal_text(revision);
    out.append(number.as_str());
    out.append("|");
    append_optional(&mut out, target_version);
    out.append("|");
    append_optional(&mut out, reason_digest);
    out.append("|");
    append_optional(&mut out, confirmation_digest);
    assert(out@ =~= action_fingerprint_spec(
        action@,
        deployment_id,
        revision,
        match target_version { Some(t) => Some(t@), None => None },
        match reason_digest { Some(t) => Some(t@), None => None },
        match confirmation_digest { Some(t) => Some(t@), None => None },
    ));
    out
}

/// The text a recovery's new cycle's idempotency key digests: the action, the source deployment,
/// the principal and the caller's key, separated by `|`.
pub fn child_key_text(action: RecoveryAction, deployment_id: u128, principal_id: u128, key: &str) -> (r: String)
    ensures
        r@ == action_name(action) + "|"@ + uuid_text(deployment_id) + "|"@ + uuid_text(principal_id) + "|"@ + key@,
{
    let mut out = String::from_str(action.name());
    out.append("|");
    let source = uuid_to_string(deployment_id);
    out.append(source.as_str());
    out.append("|");
    let principal = uuid_to_string(principal_id);
    out.append(principal.as_str());
    out.append("|");
    out.append(key);
    out
}

/// A deployment an idempotency key already admitted in the project.
pub struct IdempotencyHit {
    pub deployment_id: u128,
    /// The request fingerprint it was admitted with (empty when it has none).
    pub fingerprint: String,
    /// Whether the deployment can still be read in full.
    pub found: bool,
}

/// The facts `deploy` reads before it writes.
pub struct DeployFacts {
    /// The caller's access to the version's project before the locks, or nothing when the
    /// version does not exist.
    pub preauthorized: Option<Access>,
    /// The caller's access again under the locks, or nothing when the version is gone.
    pub locked: Option<Access>,
    /// The version's project is active.
    pub project_active: bool,
    /// The compiled request was planned against the compilation inputs read under the locks.
    pub same_inputs: bool,
    /// A deployment the key already admitted in the project.
    pub existing: Option<IdempotencyHit>,
    /// The caller or the project has too many pending requests.
    pub over_quota: bool,
}

/// The answer a deployment an idempotency key already admitted gives: the same request answers
/// it (not found when it cannot be read), any other is an idempotency refusal.
pub open spec fn existing_answer(hit: IdempotencyHit, fingerprint: Seq<char>) -> Admission {
    if hit.fingerprint@ == fingerprint {
        if hit.found {
            Admission::Existing(hit.deployment_id)
        } else {
            Admission::Refused(Refusal::NotFound)
        }
    } else {
        Admission::Refused(Refusal::Idempotency)
    }
}

/// `deploy` checks access before and under the locks, refuses an inactive project or an invalid
/// key as invalid and a request planned against other inputs as a conflict on the version, answers
/// a key that already admitted a deployment, and refuses too many pending requests.
pub open spec fn deploy_spec(version_id: u128, key: Seq<char>, fingerprint: Seq<char>, f: DeployFacts) -> Admission {
    if access_refusal(f.preauthorized) is Some {
        Admission::Refused(access_refusal(f.preauthorized)->0)
    } else if access_refusal(f.locked) is Some {
        Admission::Refused(access_refusal(f.locked)->0)
    } else if !f.project_active || !is_valid_key(key) {
        Admission::Refused(Refusal::Invalid)
    } else if !f.same_inputs {
        Admission::Refused(conflict(version_id, 0, 1))
    } else if f.existing is Some {
        existing_answer(f.existing->0, fingerprint)
    } else if f.over_quota {
        Admission::Refused(Refusal::RateLimited)
    } else {
        Admission::Proceed
    }
}

fn answer_existing(hit: &IdempotencyHit, fingerprint: &str) -> (r: Admission)
    ensures
        r == existing_answer(*hit, fingerprint@),
{
    if str_equal(hit.fingerprint.as_str(), fingerprint) {
        if hit.found {
            Admission::Existing(hit.deployment_id)
        } else {
            Admission::Refused(Refusal::NotFound)
        }
    } else {
        Admission::Refused(Refusal::Idempotency)
    }
}

/// What `deploy` answers, or whether it admits the new cycle.
pub fn deploy(version_id: u128, key: &str, fingerprint: &str, f: &DeployFacts) -> (r: Admission)
    ensures
        r == deploy_spec(version_id, key@, fingerprint@, *f),
{
    if let Some(refusal) = check_access(f.preauthorized) {
        return Admission::Refused(refusal);
    }
    if let Some(refusal) = check_access(f.locked) {
        return Admission::Refused(refusal);
    }
    if !f.project_active || !valid_key(key) {
        return Admission::Refused(Refusal::Invalid);
    }
    if !f.same_inputs {
        return Admission::Refused(Refusal::Conflict { deployment_id: version_id, expected_revision: 0, actual_revision: 1 });
    }
    if let Some(hit) = &f.existing {
        return answer_existing(hit, fingerprint);
    }
    if f.over_quota {
        return Admission::Refused(Refusal::RateLimited);
    }
    Admission::Proceed
}

/// How a command answers a transaction that failed: a serialization failure at commit is two
/// overlapping admissions racing on the project's quota claim, answered as rate limited; any
/// other failure stays an error.
pub fn commit_failure(serialization_failure: bool) -> (r: Option<Refusal>)
    ensures
        r == if serialization_failure { Some(Refusal::RateLimited) } else { None },
{
    if serialization_failure {
        Some(Refusal::RateLimited)
    } else {
        None
    }
}

/// What a `deploy` whose transaction failed answers.
#[derive(PartialEq, Eq, Structural, Clone, Copy, Debug)]
pub enum DeployFailure {
    /// The failure was the key's own replay: answer this deployment.
    Existing(u128),
    /// The replayed deployment cannot be read: a not-found error.
    Unreadable(u128),
    /// The failure is answered with a refusal.
    Refused(Refusal),
    /// The failure stays an error.
    Error,
}

/// A unique violation under a valid key is first taken for the key's own replay: a deployment the
/// key admitted with the same fingerprint answers (or is an unreadable error), one with another
/// fingerprint is an idempotency refusal. Otherwise a serialization failure is rate limited and
/// anything else stays an error.
pub open spec fn deploy_failure_spec(
    unique_violation: bool,
    serialization_failure: bool,
    key: Seq<char>,
    existing: Option<IdempotencyHit>,
    fingerprint: Seq<char>,
) -> DeployFailure {
    if unique_violation && is_valid_key(key) && existing is Some {
        let hit = existing->0;
        if hit.fingerprint@ == fingerprint {
            if hit.found {
                DeployFailure::Existing(hit.deployment_id)
            } else {
                DeployFailure::Unreadable(hit.deployment_id)
            }
        } else {
            DeployFailure::Refused(Refusal::Idempotency)
        }
    } else if serialization_failure {
        DeployFailure::Refused(Refusal::RateLimited)
    } else {
        DeployFailure::Error
    }
}

/// What a `deploy` whose transaction failed answers, given the deployment its key admitted in
/// the version's project, if any.
pub fn deploy_failure(
    unique_violation: bool,
    serialization_failure: bool,
    key: &str,
    existing: &Option<IdempotencyHit>,
    fingerprint: &str,
) -> (r: DeployFailure)
    ensures
        r == deploy_failure_spec(unique_violation, serialization_failure, key@, *existing, fingerprint@),
{
    if unique_violation && valid_key(key) {
        if let Some(hit) = existing {
            return if str_equal(hit.fingerprint.as_str(), fingerprint) {
                if hit.found {
                    DeployFailure::Existing(hit.deployment_id)
                } else {
                    DeployFailure::Unreadable(hit.deployment_id)
                }
            } else {
                DeployFailure::Refused(Refusal::Idempotency)
            };
        }
    }
    if serialization_failure {
        DeployFailure::Refused(Refusal::RateLimited)
    } else {
        DeployFailure::Error
    }
}

/// The text a new deployment's request fingerprint digests: the version, the environment
/// definition version and the strategy, separated by `|`.
pub fn deploy_fingerprint_text(version_id: u128, environment_id: u128, strategy: &str) -> (r: String)
    ensures
        r@ == uuid_text(version_id) + "|"@ + uuid_text(environment_id) + "|"@ + strategy@,
{
    let mut out = uuid_to_string(version_id);
    out.append("|");
    let environment = uuid_to_string(environment_id);
    out.append(environment.as_str());
    out.append("|");
    out.append(strategy);
    out
}

/// A caller that cannot see a deployment's project learns nothing about the deployment: whatever
/// else holds, `cancel`, `promote` and `recovery` all answer not found.
pub proof fn unseen_deployments_are_not_found(
    deployment_id: u128,
    expected_revision: i64,
    key: Seq<char>,
    fingerprint: Seq<char>,
    cancel: CancelFacts,
    promote: PromoteFacts,
    command: RecoveryCommand,
    recovery: RecoveryFacts,
)
    requires
        cancel.access matches Some(a) ==> !a.can_view,
        promote.preauthorized matches Some(a) ==> !a.can_view,
        recovery.preauthorized matches Some(a) ==> !a.can_view,
    ensures
        cancel_spec(deployment_id, expected_revision, cancel) == Err::<(), Refusal>(Refusal::NotFound),
        promote_spec(deployment_id, expected_revision, key, fingerprint, promote) == Admission::Refused(Refusal::NotFound),
        recovery_spec(deployment_id, command, recovery) == Admission::Refused(Refusal::NotFound),
{
}

/// A retried command answers what the first one did: once the caller is authorized, a receipt
/// under the key with the same fingerprint replays its deployment whatever the revision, the
/// lifecycle or the key's validity has become, and a receipt with another fingerprint is an
/// idempotency refusal.
pub proof fn retried_commands_replay(
    deployment_id: u128,
    expected_revision: i64,
    key: Seq<char>,
    fingerprint: Seq<char>,
    promote: PromoteFacts,
    command: RecoveryCommand,
    recovery: RecoveryFacts,
)
    requires
        access_refusal(promote.preauthorized) is None,
        access_refusal(promote.locked) is None,
        promote.receipt is Some,
        access_refusal(recovery.preauthorized) is None,
        access_refusal(recovery.locked) is None,
        recovery.receipt is Some,
    ensures
        promote_spec(deployment_id, expected_revision, key, fingerprint, promote) == receipt_answer(promote.receipt->0, fingerprint),
        recovery_spec(deployment_id, command, recovery) == receipt_answer(recovery.receipt->0, command.fingerprint@),
        promote.receipt->0.fingerprint@ == fingerprint && promote.receipt->0.result_found
            ==> promote_spec(deployment_id, expected_revision, key, fingerprint, promote)
            == Admission::Replay(promote.receipt->0.result_deployment_id),
        promote.receipt->0.fingerprint@ != fingerprint
            ==> promote_spec(deployment_id, expected_revision, key, fingerprint, promote)
            == Admission::Refused(Refusal::Idempotency),
{
}

/// How the application boundary classes a statement failure that reached it.
#[derive(PartialEq, Eq, Structural, Clone, Copy, Debug)]
pub enum RepositoryErrorKind {
    /// A serialization failure or unique violation: the caller's to retry.
    Conflict,
    /// A row the statement needed was not found.
    NotFound,
    /// Any other failure: the dependency is unavailable.
    Unavailable,
}

/// Classes a statement failure: a serialization failure or a unique violation is a conflict the
/// caller may retry, a missing record is not found, and anything else is unavailable.
pub fn repository_error(serialization_failure: bool, unique_violation: bool, record_not_found: bool) -> (r: RepositoryErrorKind)
    ensures
        r == if serialization_failure || unique_violation {
            RepositoryErrorKind::Conflict
        } else if record_not_found {
            RepositoryErrorKind::NotFound
        } else {
            RepositoryErrorKind::Unavailable
        },
{
    if serialization_failure || unique_violation {
        RepositoryErrorKind::Conflict
    } else if record_not_found {
        RepositoryErrorKind::NotFound
    } else {
        RepositoryErrorKind::Unavailable
    }
}

/// Access held before and under the lock: the caller sees the project and holds the capability.
pub open spec fn granted(access: Option<Access>) -> bool {
    access matches Some(a) && a.can_view && a.capable
}

/// A cancellation goes ahead only for a caller who sees the project and may cancel, on the revision
/// the caller expected, for a deployment that has not yet become active or terminal; every other
/// case is refused.
pub proof fn a_cancellation_passes_every_gate(deployment_id: u128, expected_revision: i64, f: CancelFacts)
    ensures
        cancel_spec(deployment_id, expected_revision, f) is Ok <==> {
            &&& granted(f.access)
            &&& f.revision == expected_revision
            &&& (f.lifecycle is Requested || f.lifecycle is AwaitingApproval || f.lifecycle is Approved
                || f.lifecycle is InProgress)
        },
{
}

/// A promotion is recorded only for an authorized caller with no earlier promotion under the key,
/// a valid key, the expected revision, and an `ACTIVE` deployment whose runtime is `HEALTHY`.
pub proof fn a_promotion_passes_every_gate(
    deployment_id: u128,
    expected_revision: i64,
    key: Seq<char>,
    fingerprint: Seq<char>,
    f: PromoteFacts,
)
    ensures
        promote_spec(deployment_id, expected_revision, key, fingerprint, f) is Proceed <==> {
            &&& granted(f.preauthorized)
            &&& granted(f.locked)
            &&& f.receipt is None
            &&& is_valid_key(key)
            &&& f.revision == expected_revision
            &&& f.lifecycle is Active
            &&& f.runtime_health@ == "HEALTHY"@
        },
{
}

/// A recovery cycle is created only for an authorized caller with no earlier command under the key,
/// a valid key, the expected revision, an active project, a target version, a compiled request
/// planned against the current inputs and room in the pending quota; a retry only from a `FAILED`
/// source, and a rollback only from a `FAILED` or `ACTIVE` one, with a reason, and, in production,
/// the environment's own confirmation.
pub proof fn a_recovery_passes_every_gate(deployment_id: u128, c: RecoveryCommand, f: RecoveryFacts)
    ensures
        recovery_spec(deployment_id, c, f) is Proceed ==> {
            &&& granted(f.preauthorized)
            &&& granted(f.locked)
            &&& f.receipt is None
            &&& is_valid_key(c.key@)
            &&& f.revision == c.expected_revision
            &&& f.project_active
            &&& f.version is Some
            &&& f.has_request
            &&& f.same_inputs
            &&& !f.over_quota
            &&& c.action is Retry ==> f.lifecycle is Failed
            &&& c.action is Rollback ==> {
                &&& f.lifecycle is Failed || f.lifecycle is Active
                &&& c.reason matches Some(reason) && trimmed(reason@).len() > 0
                &&& f.environment_class@ == "PRODUCTION"@ ==> (c.production_confirmation matches Some(text)
                    && trimmed(text@) == f.stable_definition_id@)
            }
        },
{
}

/// A deployment is admitted only for an authorized caller, on an active project, with a valid key,
/// a compiled request planned against the current inputs, no deployment the key already admitted,
/// and room in the pending-request quota; a key that already admitted one answers that deployment
/// only for the same request.
pub proof fn a_deployment_request_passes_every_gate(version_id: u128, key: Seq<char>, fingerprint: Seq<char>, f: DeployFacts)
    ensures
        deploy_spec(version_id, key, fingerprint, f) is Proceed <==> {
            &&& granted(f.preauthorized)
            &&& granted(f.locked)
            &&& f.project_active
            &&& is_valid_key(key)
            &&& f.same_inputs
            &&& f.existing is None
            &&& !f.over_quota
        },
        f.over_quota ==> !(deploy_spec(version_id, key, fingerprint, f) is Proceed),
        deploy_spec(version_id, key, fingerprint, f) matches Admission::Existing(id) ==> (f.existing matches Some(hit)
            && hit.deployment_id == id && hit.fingerprint@ == fingerprint && hit.found),
{
}

} // verus!
