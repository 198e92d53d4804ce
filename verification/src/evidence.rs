//! Whether a deployment's frozen approval cycle still holds: the frozen-policy match between the
//! deployment, its policy snapshot and its version-1 plan, the state of each evidence snapshot,
//! and the evidence issue that stands in the way of an approval.
//!
//! Every comparison keeps SQL's `NULL`-is-never-equal semantics: two absent values are not equal.

use crate::json::{get, json_equal, json_get, json_same, json_strings, string_list, string_views, Json, JsonNumber};
use crate::clock::wall_clock;
use crate::rows::{DeploymentRow, PlanRow};
use crate::text::{sort_texts, str_equal, texts_sorted, views_of};
use vstd::std_specs::cmp::PartialEqSpec;
use vstd::prelude::*;

verus! {

/// SQL equality, where a comparison with `NULL` is never true.
pub open spec fn sql_equal<T: PartialEq>(left: Option<T>, right: Option<T>) -> bool {
    match (left, right) {
        (Some(l), Some(r)) => l.eq_spec(&r),
        _ => false,
    }
}

/// SQL equality of two nullable values: never true when either side is `NULL`, and otherwise
/// the values' own equality.
pub fn sql_eq<T: PartialEq>(left: &Option<T>, right: &Option<T>) -> (r: bool)
    ensures
        left is None || right is None ==> !r,
        T::obeys_eq_spec() ==> r == sql_equal(*left, *right),
{
    match (left, right) {
        (Some(l), Some(r)) => l == r,
        _ => false,
    }
}

/// SQL equality of two nullable texts.
pub open spec fn sql_text_equal(left: Option<String>, right: Option<String>) -> bool {
    match (left, right) {
        (Some(l), Some(r)) => l@ == r@,
        _ => false,
    }
}

/// SQL equality of two nullable texts.
pub fn sql_eq_text(left: &Option<String>, right: &Option<String>) -> (r: bool)
    ensures
        r == sql_text_equal(*left, *right),
{
    match (left, right) {
        (Some(l), Some(r)) => str_equal(l.as_str(), r.as_str()),
        _ => false,
    }
}

/// SQL equality of two nullable identifiers.
pub open spec fn sql_id_equal(left: Option<u128>, right: Option<u128>) -> bool {
    match (left, right) {
        (Some(l), Some(r)) => l == r,
        _ => false,
    }
}

/// The six facts an approval cycle is frozen against, held by the policy snapshot and by every
/// evidence snapshot.
pub struct Binding {
    pub binding_digest: Option<String>,
    pub agent_version_id: Option<u128>,
    pub environment_definition_version_id: Option<u128>,
    pub target_digest: Option<String>,
    pub plan_digest: Option<String>,
    pub package_digest: Option<String>,
}

/// Whether two bindings name the same frozen cycle: all six facts present on both sides and equal.
pub open spec fn bindings_match(a: Binding, b: Binding) -> bool {
    &&& sql_text_equal(a.binding_digest, b.binding_digest)
    &&& sql_id_equal(a.agent_version_id, b.agent_version_id)
    &&& sql_id_equal(a.environment_definition_version_id, b.environment_definition_version_id)
    &&& sql_text_equal(a.target_digest, b.target_digest)
    &&& sql_text_equal(a.plan_digest, b.plan_digest)
    &&& sql_text_equal(a.package_digest, b.package_digest)
}

/// Whether two bindings name the same frozen cycle.
pub fn digests_match(a: &Binding, b: &Binding) -> (r: bool)
    ensures
        r == bindings_match(*a, *b),
{
    sql_eq_text(&a.binding_digest, &b.binding_digest) && sql_eq(
        &a.agent_version_id,
        &b.agent_version_id,
    ) && sql_eq(&a.environment_definition_version_id, &b.environment_definition_version_id)
        && sql_eq_text(&a.target_digest, &b.target_digest) && sql_eq_text(
        &a.plan_digest,
        &b.plan_digest,
    ) && sql_eq_text(&a.package_digest, &b.package_digest)
}

/// One evidence snapshot of a deployment. Instants are nanoseconds since the Unix epoch.
pub struct EvidenceSnapshot {
    pub id: u128,
    pub deployment_id: u128,
    pub kind: String,
    pub digest: String,
    pub expires_at: Option<i64>,
    pub binding: Binding,
}

/// The kind of a recorded evidence invalidation.
#[derive(PartialEq, Eq, Structural, Clone, Copy, Debug)]
pub enum InvalidationKind {
    Failed,
    Revoked,
}

/// A recorded invalidation of one evidence snapshot.
pub struct Invalidation {
    pub evidence_snapshot_id: u128,
    pub kind: InvalidationKind,
}

/// A deployment's frozen policy snapshot.
pub struct PolicySnapshot {
    pub deployment_id: u128,
    pub policy_digest: String,
    pub policy_revision: i64,
    pub policy_matrix: Json,
    pub environment_class: String,
    pub risk: String,
    pub required_evidence: Json,
    pub required_approvers: i32,
    pub evaluation_requirement_expires_at: Option<i64>,
    pub binding: Binding,
}

/// The state an evidence snapshot is reported in.
#[derive(PartialEq, Eq, Structural, Clone, Copy, Debug)]
pub enum EvidenceState {
    Valid,
    Expired,
    Mismatch,
    Failed,
    Revoked,
    Missing,
}

impl EvidenceState {
    /// The stored and reported spelling of the state.
    pub fn as_str(&self) -> (r: &'static str)
        ensures
            r@ == evidence_state_text(*self),
    {
        match self {
            EvidenceState::Valid => "VALID",
            EvidenceState::Expired => "EXPIRED",
            EvidenceState::Mismatch => "MISMATCH",
            EvidenceState::Failed => "FAILED",
            EvidenceState::Revoked => "REVOKED",
            EvidenceState::Missing => "MISSING",
        }
    }
}

/// The spelling of an evidence state.
pub open spec fn evidence_state_text(state: EvidenceState) -> Seq<char> {
    match state {
        EvidenceState::Valid => "VALID"@,
        EvidenceState::Expired => "EXPIRED"@,
        EvidenceState::Mismatch => "MISMATCH"@,
        EvidenceState::Failed => "FAILED"@,
        EvidenceState::Revoked => "REVOKED"@,
        EvidenceState::Missing => "MISSING"@,
    }
}

/// Whether an invalidation of `kind` was recorded against the snapshot `id`.
pub open spec fn invalidated_as(invalidations: Seq<Invalidation>, id: u128, kind: InvalidationKind) -> bool {
    exists|i: int|
        0 <= i < invalidations.len() && (#[trigger] invalidations[i]).evidence_snapshot_id == id
            && invalidations[i].kind == kind
}

/// The state of an evidence snapshot against the deployment's frozen policy, its recorded
/// invalidations and the instant `now`: `FAILED` outranks `REVOKED`, either outranks expiry,
/// and an unexpired snapshot is `VALID` exactly when its whole binding matches the policy's.
pub open spec fn snapshot_state(
    evidence: EvidenceSnapshot,
    policy: PolicySnapshot,
    invalidations: Seq<Invalidation>,
    now: i64,
) -> EvidenceState {
    if invalidated_as(invalidations, evidence.id, InvalidationKind::Failed) {
        EvidenceState::Failed
    } else if invalidated_as(invalidations, evidence.id, InvalidationKind::Revoked) {
        EvidenceState::Revoked
    } else if evidence.expires_at matches Some(at) && at <= now {
        EvidenceState::Expired
    } else if bindings_match(evidence.binding, policy.binding) {
        EvidenceState::Valid
    } else {
        EvidenceState::Mismatch
    }
}

/// Whether an invalidation of `kind` was recorded against the snapshot `id`.
pub(crate) fn has_invalidation(invalidations: &Vec<Invalidation>, id: u128, kind: InvalidationKind) -> (r: bool)
    ensures
        r == invalidated_as(invalidations@, id, kind),
{
    let mut i: usize = 0;
    while i < invalidations.len()
        invariant
            i <= invalidations@.len(),
            forall|k: int|
                0 <= k < i ==> !((#[trigger] invalidations@[k]).evidence_snapshot_id == id
                    && invalidations@[k].kind == kind),
        decreases invalidations@.len() - i,
    {
        if invalidations[i].evidence_snapshot_id == id && invalidations[i].kind == kind {
            return true;
        }
        i = i + 1;
    }
    false
}

/// The evidence state, decided against the deployment's frozen policy, its recorded
/// invalidations and the clock.
pub fn evidence_state(
    evidence: &EvidenceSnapshot,
    policy: &PolicySnapshot,
    invalidations: &Vec<Invalidation>,
    now: i64,
) -> (r: EvidenceState)
    ensures
        r == snapshot_state(*evidence, *policy, invalidations@, now),
{
    if has_invalidation(invalidations, evidence.id, InvalidationKind::Failed) {
        return EvidenceState::Failed;
    }
    if has_invalidation(invalidations, evidence.id, InvalidationKind::Revoked) {
        return EvidenceState::Revoked;
    }
    match evidence.expires_at {
        Some(at) => {
            if at <= now {
                return EvidenceState::Expired;
            }
        },
        None => {},
    }
    if digests_match(&evidence.binding, &policy.binding) {
        EvidenceState::Valid
    } else {
        EvidenceState::Mismatch
    }
}

/// The policy facts the evidence decision runs against: the frozen binding and the required
/// evidence kinds, in the order the snapshot lists them.
pub struct PolicyRow {
    pub binding: Binding,
    pub required_evidence: Vec<String>,
}

/// The policy row of a policy snapshot.
pub fn policy_row(policy: &PolicySnapshot) -> (r: PolicyRow)
    ensures
        r.binding == policy.binding,
        string_views(r.required_evidence@) == json_strings(policy.required_evidence),
{
    PolicyRow {
        binding: clone_binding(&policy.binding),
        required_evidence: string_list(&policy.required_evidence),
    }
}

/// A copy of a binding.
pub fn clone_binding(b: &Binding) -> (r: Binding)
    ensures
        r == *b,
{
    Binding {
        binding_digest: b.binding_digest.clone(),
        agent_version_id: b.agent_version_id,
        environment_definition_version_id: b.environment_definition_version_id,
        target_digest: b.target_digest.clone(),
        plan_digest: b.plan_digest.clone(),
        package_digest: b.package_digest.clone(),
    }
}

/// A deployment's evidence snapshots and the identifiers of every snapshot an invalidation
/// covers, read once for the whole evidence decision.
pub struct EvidenceFacts {
    pub snapshots: Vec<EvidenceSnapshot>,
    pub invalidated: Vec<u128>,
}

/// Whether `s` is a snapshot of evidence `kind` that counts towards the frozen cycle right now:
/// bound to the policy's cycle, unexpired at `now` and never invalidated.
pub open spec fn counts_as_valid(facts: EvidenceFacts, s: EvidenceSnapshot, policy: PolicyRow, kind: Seq<char>, now: i64) -> bool {
    &&& s.kind@ == kind
    &&& bindings_match(s.binding, policy.binding)
    &&& (s.expires_at matches Some(at) ==> at > now)
    &&& !facts.invalidated@.contains(s.id)
}

/// Whether a snapshot of `kind` is bound to the policy's cycle, expired at `now` and never
/// invalidated.
pub open spec fn counts_as_expired(facts: EvidenceFacts, s: EvidenceSnapshot, policy: PolicyRow, kind: Seq<char>, now: i64) -> bool {
    &&& s.kind@ == kind
    &&& bindings_match(s.binding, policy.binding)
    &&& (s.expires_at matches Some(at) && at <= now)
    &&& !facts.invalidated@.contains(s.id)
}

/// Whether some snapshot of `kind` holds for the frozen cycle at `now`.
pub open spec fn kind_valid(facts: EvidenceFacts, policy: PolicyRow, kind: Seq<char>, now: i64) -> bool {
    exists|i: int| 0 <= i < facts.snapshots@.len() && counts_as_valid(facts, #[trigger] facts.snapshots@[i], policy, kind, now)
}

/// Whether any snapshot of `kind` was recorded at all.
pub open spec fn kind_observed(facts: EvidenceFacts, kind: Seq<char>) -> bool {
    exists|i: int| 0 <= i < facts.snapshots@.len() && (#[trigger] facts.snapshots@[i]).kind@ == kind
}

/// Whether some snapshot of `kind` is bound to the cycle but past its expiry at `now`.
pub open spec fn kind_expired(facts: EvidenceFacts, policy: PolicyRow, kind: Seq<char>, now: i64) -> bool {
    exists|i: int| 0 <= i < facts.snapshots@.len() && counts_as_expired(facts, #[trigger] facts.snapshots@[i], policy, kind, now)
}

/// Whether `id` is among the invalidated snapshots.
fn invalidated_contains(invalidated: &Vec<u128>, id: u128) -> (r: bool)
    ensures
        r == invalidated@.contains(id),
{
    let mut i: usize = 0;
    while i < invalidated.len()
        invariant
            i <= invalidated@.len(),
            forall|k: int| 0 <= k < i ==> invalidated@[k] != id,
        decreases invalidated@.len() - i,
    {
        if invalidated[i] == id {
            assert(invalidated@[i as int] == id);
            return true;
        }
        i = i + 1;
    }
    false
}

impl EvidenceFacts {
    /// Whether a snapshot of `kind` holds for the frozen cycle at `now`.
    pub fn valid(&self, policy: &PolicyRow, kind: &str, now: i64) -> (r: bool)
        ensures
            r == kind_valid(*self, *policy, kind@, now),
    {
        let mut i: usize = 0;
        while i < self.snapshots.len()
            invariant
                i <= self.snapshots@.len(),
                forall|k: int| 0 <= k < i ==> !counts_as_valid(*self, #[trigger] self.snapshots@[k], *policy, kind@, now),
            decreases self.snapshots@.len() - i,
        {
            let s = &self.snapshots[i];
            let unexpired = match s.expires_at {
                Some(at) => at > now,
                None => true,
            };
            if str_equal(s.kind.as_str(), kind) && digests_match(&s.binding, &policy.binding) && unexpired
                && !invalidated_contains(&self.invalidated, s.id) {
                assert(counts_as_valid(*self, self.snapshots@[i as int], *policy, kind@, now));
                return true;
            }
            i = i + 1;
        }
        false
    }

    /// Whether any snapshot of `kind` was recorded.
    pub fn observed(&self, kind: &str) -> (r: bool)
        ensures
            r == kind_observed(*self, kind@),
    {
        let mut i: usize = 0;
        while i < self.snapshots.len()
            invariant
                i <= self.snapshots@.len(),
                forall|k: int| 0 <= k < i ==> (#[trigger] self.snapshots@[k]).kind@ != kind@,
            decreases self.snapshots@.len() - i,
        {
            if str_equal(self.snapshots[i].kind.as_str(), kind) {
                assert(self.snapshots@[i as int].kind@ == kind@);
                return true;
            }
            i = i + 1;
        }
        false
    }

    /// Whether a snapshot of `kind` is bound to the cycle but expired at `now`.
    pub fn expired(&self, policy: &PolicyRow, kind: &str, now: i64) -> (r: bool)
        ensures
            r == kind_expired(*self, *policy, kind@, now),
    {
        let mut i: usize = 0;
        while i < self.snapshots.len()
            invariant
                i <= self.snapshots@.len(),
                forall|k: int| 0 <= k < i ==> !counts_as_expired(*self, #[trigger] self.snapshots@[k], *policy, kind@, now),
            decreases self.snapshots@.len() - i,
        {
            let s = &self.snapshots[i];
            let past = match s.expires_at {
                Some(at) => at <= now,
                None => false,
            };
            if str_equal(s.kind.as_str(), kind) && digests_match(&s.binding, &policy.binding) && past
                && !invalidated_contains(&self.invalidated, s.id) {
                assert(counts_as_expired(*self, self.snapshots@[i as int], *policy, kind@, now));
                return true;
            }
            i = i + 1;
        }
        false
    }
}

/// Why the frozen cycle's required evidence does not hold.
#[derive(PartialEq, Eq, Structural, Clone, Copy, Debug)]
pub enum EvidenceIssue {
    Missing,
    Expired,
    Mismatch,
}

/// The refusal code of an evidence issue.
pub open spec fn evidence_issue_text(issue: EvidenceIssue) -> Seq<char> {
    match issue {
        EvidenceIssue::Missing => "APPROVAL_EVIDENCE_MISSING"@,
        EvidenceIssue::Expired => "APPROVAL_EVIDENCE_EXPIRED"@,
        EvidenceIssue::Mismatch => "APPROVAL_EVIDENCE_MISMATCH"@,
    }
}

impl EvidenceIssue {
    /// The refusal code of the issue.
    pub fn as_str(&self) -> (r: &'static str)
        ensures
            r@ == evidence_issue_text(*self),
    {
        match self {
            EvidenceIssue::Missing => "APPROVAL_EVIDENCE_MISSING",
            EvidenceIssue::Expired => "APPROVAL_EVIDENCE_EXPIRED",
            EvidenceIssue::Mismatch => "APPROVAL_EVIDENCE_MISMATCH",
        }
    }
}

/// The issue one unsatisfied required kind raises: never observed is `MISSING`, observed and
/// expired is `EXPIRED`, anything else observed is `MISMATCH`.
pub open spec fn kind_issue(facts: EvidenceFacts, policy: PolicyRow, kind: Seq<char>, now: i64) -> EvidenceIssue {
    if !kind_observed(facts, kind) {
        EvidenceIssue::Missing
    } else if kind_expired(facts, policy, kind, now) {
        EvidenceIssue::Expired
    } else {
        EvidenceIssue::Mismatch
    }
}

/// The issue decided by the required kinds from position `i` on: the first kind without a
/// valid snapshot decides it, and none at all is no issue.
pub open spec fn issue_from(facts: EvidenceFacts, policy: PolicyRow, now: i64, i: int) -> Option<EvidenceIssue>
    decreases policy.required_evidence@.len() - i,
{
    if i < 0 || i >= policy.required_evidence@.len() {
        None
    } else if kind_valid(facts, policy, policy.required_evidence@[i]@, now) {
        issue_from(facts, policy, now, i + 1)
    } else {
        Some(kind_issue(facts, policy, policy.required_evidence@[i]@, now))
    }
}

/// Why the frozen cycle's required evidence does not hold at `now`, or `None` when every
/// required kind has a valid snapshot.
pub open spec fn evidence_issue_spec(facts: EvidenceFacts, policy: PolicyRow, now: i64) -> Option<EvidenceIssue> {
    issue_from(facts, policy, now, 0)
}

proof fn issue_from_none(facts: EvidenceFacts, policy: PolicyRow, now: i64, i: int)
    requires
        0 <= i <= policy.required_evidence@.len(),
    ensures
        issue_from(facts, policy, now, i) is None <==> forall|j: int| i <= j < policy.required_evidence@.len()
            ==> kind_valid(facts, policy, #[trigger] policy.required_evidence@[j]@, now),
    decreases policy.required_evidence@.len() - i,
{
    if i < policy.required_evidence@.len() {
        issue_from_none(facts, policy, now, i + 1);
    }
}

/// The frozen cycle's evidence holds (no issue) exactly when every required kind has a valid
/// snapshot at `now`.
pub proof fn evidence_holds_exactly_when_every_required_kind_is_valid(facts: EvidenceFacts, policy: PolicyRow, now: i64)
    ensures
        evidence_issue_spec(facts, policy, now) is None <==> forall|j: int| 0 <= j < policy.required_evidence@.len()
            ==> kind_valid(facts, policy, #[trigger] policy.required_evidence@[j]@, now),
{
    issue_from_none(facts, policy, now, 0);
}

/// Why the frozen cycle's required evidence does not hold at `now`.
pub fn evidence_issue_at(policy: &PolicyRow, facts: &EvidenceFacts, now: i64) -> (r: Option<EvidenceIssue>)
    ensures
        r == evidence_issue_spec(*facts, *policy, now),
{
    let mut i: usize = 0;
    while i < policy.required_evidence.len()
        invariant
            i <= policy.required_evidence@.len(),
            issue_from(*facts, *policy, now, i as int) == evidence_issue_spec(*facts, *policy, now),
        decreases policy.required_evidence@.len() - i,
    {
        let kind = policy.required_evidence[i].as_str();
        if facts.valid(policy, kind, now) {
            i = i + 1;
            continue;
        }
        if !facts.observed(kind) {
            return Some(EvidenceIssue::Missing);
        }
        if facts.expired(policy, kind, now) {
            return Some(EvidenceIssue::Expired);
        }
        return Some(EvidenceIssue::Mismatch);
    }
    None
}

/// Why the frozen cycle's required evidence does not hold, taken on the service clock.
pub fn evidence_issue_of(policy: &PolicyRow, facts: &EvidenceFacts) -> (r: Option<EvidenceIssue>)
    ensures
        exists|now: i64| r == evidence_issue_spec(*facts, *policy, now),
{
    let now = wall_clock();
    evidence_issue_at(policy, facts, now)
}

/// The policy-matrix cell a snapshot froze: `<class>_<risk>`.
pub open spec fn matrix_cell(policy: PolicySnapshot) -> Seq<char> {
    policy.environment_class@ + "_"@ + policy.risk@
}

/// Whether the rule cell a policy matrix holds still says what the snapshot froze: the same
/// approver count and the same evidence list.
pub open spec fn rule_matches(rule: Json, policy: PolicySnapshot) -> bool {
    &&& json_get(rule, "requiredApprovers"@) matches Some(count) && json_same(
        count,
        Json::Number(JsonNumber::Int(policy.required_approvers as i128)),
    )
    &&& json_get(rule, "requiredEvidence"@) matches Some(evidence) && json_same(
        evidence,
        policy.required_evidence,
    )
}

/// The join conditions between a deployment, its frozen policy snapshot and its version-1 plan:
/// the six binding facts equal under SQL's null semantics, the same environment class, and a
/// matrix cell for the snapshot's class and risk whose rule is the one the snapshot froze. A
/// matrix with no such cell is no rule and never matches.
pub open spec fn policy_match(deployment: DeploymentRow, policy: PolicySnapshot, plan: PlanRow) -> bool {
    &&& sql_id_equal(policy.binding.agent_version_id, Some(deployment.agent_version_id))
    &&& sql_id_equal(
        policy.binding.environment_definition_version_id,
        deployment.environment_definition_version_id,
    )
    &&& sql_text_equal(policy.binding.target_digest, plan.target_digest)
    &&& policy.binding.plan_digest matches Some(d) && d@ == plan.plan_digest@
    &&& policy.binding.package_digest matches Some(d) && d@ == plan.package_digest@
    &&& policy.environment_class@ == deployment.environment_class@
    &&& json_get(policy.policy_matrix, matrix_cell(policy)) matches Some(rule) && rule_matches(rule, policy)
}

/// Whether the deployment still matches the policy snapshot and plan it was frozen against.
pub fn policy_matches(deployment: &DeploymentRow, policy: &PolicySnapshot, plan: &PlanRow) -> (r: bool)
    ensures
        r == policy_match(*deployment, *policy, *plan),
{
    if !sql_eq(&policy.binding.agent_version_id, &Some(deployment.agent_version_id)) || !sql_eq(
        &policy.binding.environment_definition_version_id,
        &deployment.environment_definition_version_id,
    ) || !sql_eq_text(&policy.binding.target_digest, &plan.target_digest) {
        return false;
    }
    let plan_ok = match &policy.binding.plan_digest {
        Some(d) => str_equal(d.as_str(), plan.plan_digest.as_str()),
        None => false,
    };
    let package_ok = match &policy.binding.package_digest {
        Some(d) => str_equal(d.as_str(), plan.package_digest.as_str()),
        None => false,
    };
    if !plan_ok || !package_ok || !str_equal(
        policy.environment_class.as_str(),
        deployment.environment_class.as_str(),
    ) {
        return false;
    }
    let cell = String::from_str(policy.environment_class.as_str()).concat("_").concat(
        policy.risk.as_str(),
    );
    let rule = match get(&policy.policy_matrix, cell.as_str()) {
        Some(rule) => rule,
        None => return false,
    };
    let count_ok = match get(rule, "requiredApprovers") {
        Some(count) => json_equal(
            count,
            &Json::Number(JsonNumber::Int(policy.required_approvers as i128)),
        ),
        None => false,
    };
    let evidence_ok = match get(rule, "requiredEvidence") {
        Some(evidence) => json_equal(evidence, &policy.required_evidence),
        None => false,
    };
    count_ok && evidence_ok
}

/// Whether `kinds` lists the evaluation evidence kind.
pub open spec fn lists_evaluation(kinds: Seq<String>) -> bool {
    exists|i: int| 0 <= i < kinds.len() && (#[trigger] kinds[i])@ == "EVALUATION_PASSED"@
}

/// A deployment is waiting for an evaluation when its policy requires the evaluation evidence,
/// its frozen cycle still matches, the only issue is missing evidence, no evaluation evidence was
/// recorded yet, and every other required kind is already valid at `now`. `waiting` is the
/// deployment's policy row with no frozen-cycle test; `frozen` the same row when the cycle still
/// matches its plan and policy.
pub open spec fn waiting_spec(waiting: Option<PolicyRow>, frozen: Option<PolicyRow>, facts: EvidenceFacts, now: i64) -> bool {
    match (waiting, frozen) {
        (Some(w), Some(f)) => {
            &&& lists_evaluation(w.required_evidence@)
            &&& evidence_issue_spec(facts, f, now) == Some(EvidenceIssue::Missing)
            &&& !kind_observed(facts, "EVALUATION_PASSED"@)
            &&& forall|i: int| 0 <= i < w.required_evidence@.len() && (#[trigger] w.required_evidence@[i])@ != "EVALUATION_PASSED"@
                    ==> kind_valid(facts, f, w.required_evidence@[i]@, now)
        },
        _ => false,
    }
}

/// Whether `kinds` lists the evaluation evidence kind.
fn lists_evaluation_kind(kinds: &Vec<String>) -> (r: bool)
    ensures
        r == lists_evaluation(kinds@),
{
    let mut i: usize = 0;
    while i < kinds.len()
        invariant
            i <= kinds@.len(),
            forall|k: int| 0 <= k < i ==> (#[trigger] kinds@[k])@ != "EVALUATION_PASSED"@,
        decreases kinds@.len() - i,
    {
        if str_equal(kinds[i].as_str(), "EVALUATION_PASSED") {
            return true;
        }
        i = i + 1;
    }
    false
}

/// Whether the deployment is waiting for an evaluation to finish rather than missing evidence
/// for good.
pub fn waiting_for_evaluation(
    waiting: Option<&PolicyRow>,
    frozen: Option<&PolicyRow>,
    facts: &EvidenceFacts,
    now: i64,
) -> (r: bool)
    ensures
        r == waiting_spec(
            match waiting {
                Some(w) => Some(*w),
                None => None,
            },
            match frozen {
                Some(f) => Some(*f),
                None => None,
            },
            *facts,
            now,
        ),
{
    let w = match waiting {
        Some(w) => w,
        None => return false,
    };
    if !lists_evaluation_kind(&w.required_evidence) {
        return false;
    }
    let f = match frozen {
        Some(f) => f,
        None => return false,
    };
    if evidence_issue_at(f, facts, now) != Some(EvidenceIssue::Missing) {
        return false;
    }
    if facts.observed("EVALUATION_PASSED") {
        return false;
    }
    let mut i: usize = 0;
    while i < w.required_evidence.len()
        invariant
            waiting == Some(w),
            frozen == Some(f),
            lists_evaluation(w.required_evidence@),
            evidence_issue_spec(*facts, *f, now) == Some(EvidenceIssue::Missing),
            !kind_observed(*facts, "EVALUATION_PASSED"@),
            i <= w.required_evidence@.len(),
            forall|k: int| 0 <= k < i && (#[trigger] w.required_evidence@[k])@ != "EVALUATION_PASSED"@
                ==> kind_valid(*facts, *f, w.required_evidence@[k]@, now),
        decreases w.required_evidence@.len() - i,
    {
        let kind = w.required_evidence[i].as_str();
        if !str_equal(kind, "EVALUATION_PASSED") {
            if !facts.valid(f, kind, now) {
                proof {
                    let k = i as int;
                    assert(w.required_evidence@[k]@ != "EVALUATION_PASSED"@);
                    assert(!kind_valid(*facts, *f, w.required_evidence@[k]@, now));
                }
                return false;
            }
        }
        i = i + 1;
    }
    true
}

/// One required evidence kind of a frozen cycle as the approval surface lists it: the snapshot
/// that stands for it, or none (`MISSING`).
pub struct DeploymentEvidenceSnapshot {
    pub kind: String,
    pub digest: Option<String>,
    pub binding_digest: Option<String>,
    pub expires_at: Option<i64>,
    pub state: EvidenceState,
}

/// The optional view of an optional string.
pub open spec fn text_view(value: Option<String>) -> Option<Seq<char>> {
    match value {
        Some(text) => Some(text@),
        None => None,
    }
}

/// A listed entry as plain values: kind, digest, binding digest, expiry and state.
pub open spec fn listed_view(e: DeploymentEvidenceSnapshot) -> (Seq<char>, Option<Seq<char>>, Option<Seq<char>>, Option<i64>, EvidenceState) {
    (e.kind@, text_view(e.digest), text_view(e.binding_digest), e.expires_at, e.state)
}

/// The plain values of a listing.
pub open spec fn listed_views(entries: Seq<DeploymentEvidenceSnapshot>) -> Seq<(Seq<char>, Option<Seq<char>>, Option<Seq<char>>, Option<i64>, EvidenceState)> {
    entries.map_values(|e: DeploymentEvidenceSnapshot| listed_view(e))
}

/// The entries of the deployment's snapshots of evidence `kind`, in the order given, each with its
/// state against the frozen policy.
pub open spec fn snapshot_entries(
    kind: Seq<char>,
    snapshots: Seq<EvidenceSnapshot>,
    policy: PolicySnapshot,
    invalidations: Seq<Invalidation>,
    now: i64,
) -> Seq<(Seq<char>, Option<Seq<char>>, Option<Seq<char>>, Option<i64>, EvidenceState)>
    decreases snapshots.len(),
{
    if snapshots.len() == 0 {
        Seq::empty()
    } else {
        let earlier = snapshot_entries(kind, snapshots.drop_last(), policy, invalidations, now);
        let s = snapshots.last();
        if s.deployment_id == policy.deployment_id && s.kind@ == kind {
            earlier.push((kind, Some(s.digest@), text_view(s.binding.binding_digest), s.expires_at,
                snapshot_state(s, policy, invalidations, now)))
        } else {
            earlier
        }
    }
}

/// The entries of one required kind: its snapshots, or a single `MISSING` entry when there is none.
pub open spec fn kind_entries(
    kind: Seq<char>,
    snapshots: Seq<EvidenceSnapshot>,
    policy: PolicySnapshot,
    invalidations: Seq<Invalidation>,
    now: i64,
) -> Seq<(Seq<char>, Option<Seq<char>>, Option<Seq<char>>, Option<i64>, EvidenceState)> {
    let found = snapshot_entries(kind, snapshots, policy, invalidations, now);
    if found.len() == 0 {
        seq![(kind, None, None, None, EvidenceState::Missing)]
    } else {
        found
    }
}

/// The listing of the required kinds, in the order given.
pub open spec fn evidence_listing(
    kinds: Seq<Seq<char>>,
    snapshots: Seq<EvidenceSnapshot>,
    policy: PolicySnapshot,
    invalidations: Seq<Invalidation>,
    now: i64,
) -> Seq<(Seq<char>, Option<Seq<char>>, Option<Seq<char>>, Option<i64>, EvidenceState)>
    decreases kinds.len(),
{
    if kinds.len() == 0 {
        Seq::empty()
    } else {
        evidence_listing(kinds.drop_last(), snapshots, policy, invalidations, now)
            + kind_entries(kinds.last(), snapshots, policy, invalidations, now)
    }
}

fn copy_text(value: &Option<String>) -> (r: Option<String>)
    ensures
        text_view(r) == text_view(*value),
{
    match value {
        Some(text) => Some(text.clone()),
        None => None,
    }
}

/// The entries one required kind contributes to the listing.
fn list_kind(
    kind: &String,
    policy: &PolicySnapshot,
    snapshots: &Vec<EvidenceSnapshot>,
    invalidations: &Vec<Invalidation>,
    now: i64,
    out: &mut Vec<DeploymentEvidenceSnapshot>,
)
    ensures
        listed_views(final(out)@) == listed_views(old(out)@) + kind_entries(kind@, snapshots@, *policy, invalidations@, now),
{
    let ghost start = listed_views(out@);
    let mut found: usize = 0;
    let mut i: usize = 0;
    while i < snapshots.len()
        invariant
            i <= snapshots@.len(),
            listed_views(out@) == start + snapshot_entries(kind@, snapshots@.take(i as int), *policy, invalidations@, now),
            found as int == snapshot_entries(kind@, snapshots@.take(i as int), *policy, invalidations@, now).len(),
            found <= i,
        decreases snapshots@.len() - i,
    {
        assert(snapshots@.take(i as int + 1).drop_last() =~= snapshots@.take(i as int));
        let snapshot = &snapshots[i];
        if snapshot.deployment_id == policy.deployment_id && str_equal(snapshot.kind.as_str(), kind.as_str()) {
            let ghost prior = out@;
            let state = evidence_state(snapshot, policy, invalidations, now);
            out.push(DeploymentEvidenceSnapshot {
                kind: kind.clone(),
                digest: Some(snapshot.digest.clone()),
                binding_digest: copy_text(&snapshot.binding.binding_digest),
                expires_at: snapshot.expires_at,
                state,
            });
            assert(listed_views(out@) =~= listed_views(prior).push(listed_view(out@.last())));
            found = found + 1;
        }
        i = i + 1;
    }
    assert(snapshots@.take(snapshots@.len() as int) =~= snapshots@);
    if found == 0 {
        let ghost prior = out@;
        out.push(DeploymentEvidenceSnapshot {
            kind: kind.clone(),
            digest: None,
            binding_digest: None,
            expires_at: None,
            state: EvidenceState::Missing,
        });
        assert(listed_views(out@) =~= listed_views(prior).push(listed_view(out@.last())));
        assert(listed_views(out@) =~= start + kind_entries(kind@, snapshots@, *policy, invalidations@, now));
    } else {
        assert(listed_views(out@) =~= start + kind_entries(kind@, snapshots@, *policy, invalidations@, now));
    }
}

/// The evidence a frozen cycle requires, as the approval surface lists it: every kind the policy
/// snapshot requires, in text order, each with the deployment's snapshots of that kind in the
/// order given, or a `MISSING` entry when there is none.
pub fn approval_evidence(
    policy: &PolicySnapshot,
    snapshots: &Vec<EvidenceSnapshot>,
    invalidations: &Vec<Invalidation>,
    now: i64,
) -> (r: Vec<DeploymentEvidenceSnapshot>)
    ensures
        exists|kinds: Seq<Seq<char>>| {
            &&& texts_sorted(kinds)
            &&& kinds.to_multiset() == json_strings(policy.required_evidence).to_multiset()
            &&& listed_views(r@) == evidence_listing(kinds, snapshots@, *policy, invalidations@, now)
        },
{
    let required = string_list(&policy.required_evidence);
    assert(views_of(required@) =~= string_views(required@));
    let kinds = sort_texts(required);
    let ghost ks = views_of(kinds@);
    let mut out: Vec<DeploymentEvidenceSnapshot> = Vec::new();
    let mut i: usize = 0;
    assert(listed_views(out@) =~= Seq::empty());
    while i < kinds.len()
        invariant
            i <= kinds@.len(),
            ks == views_of(kinds@),
            listed_views(out@) == evidence_listing(ks.take(i as int), snapshots@, *policy, invalidations@, now),
        decreases kinds@.len() - i,
    {
        assert(ks.take(i as int + 1).drop_last() =~= ks.take(i as int));
        assert(ks.take(i as int + 1).last() == kinds@[i as int]@);
        list_kind(&kinds[i], policy, snapshots, invalidations, now, &mut out);
        i = i + 1;
    }
    assert(ks.take(ks.len() as int) =~= ks);
    out
}

/// The evidence issue of a deployment: a deployment whose frozen cycle no longer matches (no
/// policy row) is a mismatch; otherwise the issue of its required kinds at `now`.
pub open spec fn approval_issue_spec(policy: Option<PolicyRow>, facts: EvidenceFacts, now: i64) -> Option<EvidenceIssue> {
    match policy {
        None => Some(EvidenceIssue::Mismatch),
        Some(p) => evidence_issue_spec(facts, p, now),
    }
}

/// The evidence issue of a deployment at `now`, given its policy row when the frozen cycle still
/// matches.
pub fn approval_evidence_issue(policy: Option<&PolicyRow>, facts: &EvidenceFacts, now: i64) -> (r: Option<EvidenceIssue>)
    ensures
        r == approval_issue_spec(match policy { Some(p) => Some(*p), None => None }, *facts, now),
{
    match policy {
        None => Some(EvidenceIssue::Mismatch),
        Some(p) => evidence_issue_at(p, facts, now),
    }
}

proof fn issue_from_reads_only_the_kinds(facts: EvidenceFacts, a: PolicyRow, b: PolicyRow, now: i64, i: int)
    requires
        a.binding == b.binding,
        string_views(a.required_evidence@) == string_views(b.required_evidence@),
    ensures
        issue_from(facts, a, now, i) == issue_from(facts, b, now, i),
    decreases a.required_evidence@.len() - i,
{
    assert(a.required_evidence@.len() == string_views(a.required_evidence@).len());
    assert(b.required_evidence@.len() == string_views(b.required_evidence@).len());
    if 0 <= i < a.required_evidence@.len() {
        let k = a.required_evidence@[i]@;
        assert(k == string_views(a.required_evidence@)[i]);
        assert(b.required_evidence@[i]@ == string_views(b.required_evidence@)[i]);
        assert(kind_valid(facts, a, k, now) == kind_valid(facts, b, k, now)) by {
            assert forall|j: int| 0 <= j < facts.snapshots@.len() implies
                counts_as_valid(facts, facts.snapshots@[j], a, k, now) == counts_as_valid(facts, facts.snapshots@[j], b, k, now) by {}
        }
        assert(kind_expired(facts, a, k, now) == kind_expired(facts, b, k, now)) by {
            assert forall|j: int| 0 <= j < facts.snapshots@.len() implies
                counts_as_expired(facts, facts.snapshots@[j], a, k, now) == counts_as_expired(facts, facts.snapshots@[j], b, k, now) by {}
        }
        issue_from_reads_only_the_kinds(facts, a, b, now, i + 1);
    }
}

/// The evidence issue of a deployment, from its row, its policy snapshot and its version-1 plan as
/// read: a missing row, or a policy snapshot that no longer matches its deployment and plan, is a
/// mismatch; otherwise the issue of the snapshot's required kinds at `now` (the same for every
/// policy row with the snapshot's binding and required kinds).
pub fn deployment_evidence_issue(
    deployment: Option<&DeploymentRow>,
    policy: Option<&PolicySnapshot>,
    plan: Option<&PlanRow>,
    facts: &EvidenceFacts,
    now: i64,
) -> (r: Option<EvidenceIssue>)
    ensures
        match (deployment, policy, plan) {
            (Some(d), Some(p), Some(v)) => if policy_match(*d, *p, *v) {
                forall|row: PolicyRow| row.binding == p.binding && string_views(row.required_evidence@)
                    == json_strings(p.required_evidence) ==> r == #[trigger] evidence_issue_spec(*facts, row, now)
            } else {
                r == Some(EvidenceIssue::Mismatch)
            },
            _ => r == Some(EvidenceIssue::Mismatch),
        },
{
    match (deployment, policy, plan) {
        (Some(d), Some(p), Some(v)) => {
            if !policy_matches(d, p, v) {
                return Some(EvidenceIssue::Mismatch);
            }
            let row = policy_row(p);
            let r = evidence_issue_at(&row, facts, now);
            assert forall|other: PolicyRow| other.binding == p.binding && string_views(other.required_evidence@)
                == json_strings(p.required_evidence) implies r == #[trigger] evidence_issue_spec(*facts, other, now) by {
                issue_from_reads_only_the_kinds(*facts, row, other, now, 0);
            }
            r
        },
        _ => Some(EvidenceIssue::Mismatch),
    }
}

/// Whether a deployment's evidence holds at `now`: its frozen cycle still matches and no required
/// kind lacks a valid snapshot.
pub fn evidence_ready(policy: Option<&PolicyRow>, facts: &EvidenceFacts, now: i64) -> (r: bool)
    ensures
        r == (approval_issue_spec(match policy { Some(p) => Some(*p), None => None }, *facts, now) is None),
{
    approval_evidence_issue(policy, facts, now).is_none()
}

} // verus!
