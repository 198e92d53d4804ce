//! The approval decision command's own rules: the refusal a requirement that is no longer pending
//! answers, the canonical text a decision request's fingerprint digests, how a recorded decision
//! stores its comment and rejection reason, the approvers that qualify, and the principals a
//! requirement's answer names.

use crate::lifecycle::RequirementStatus;
use crate::text::{decimal, decimal_injective, decimal_text, str_equal, trim, trimmed};
use vstd::prelude::*;

verus! {

/// The refusal code a decision on a requirement that is no longer pending answers: its expiry,
/// the evidence code that invalidated it when that is one of the three evidence codes, and
/// `APPROVAL_REQUIREMENT_NOT_PENDING` otherwise.
pub open spec fn state_problem(status: RequirementStatus, invalidation_code: Option<Seq<char>>) -> Seq<char> {
    if status is Expired {
        "APPROVAL_REQUIREMENT_EXPIRED"@
    } else if status is Invalidated && invalidation_code is Some && (
        invalidation_code->0 == "APPROVAL_EVIDENCE_MISSING"@
        || invalidation_code->0 == "APPROVAL_EVIDENCE_EXPIRED"@
        || invalidation_code->0 == "APPROVAL_EVIDENCE_MISMATCH"@) {
        invalidation_code->0
    } else {
        "APPROVAL_REQUIREMENT_NOT_PENDING"@
    }
}

/// The refusal code of a requirement that is no longer pending.
pub fn requirement_state_problem(status: RequirementStatus, invalidation_code: Option<&str>) -> (r: String)
    ensures
        r@ == state_problem(status, match invalidation_code { Some(c) => Some(c@), None => None }),
{
    if status == RequirementStatus::Expired {
        return String::from_str("APPROVAL_REQUIREMENT_EXPIRED");
    }
    if status == RequirementStatus::Invalidated {
        if let Some(code) = invalidation_code {
            if str_equal(code, "APPROVAL_EVIDENCE_MISSING") || str_equal(code, "APPROVAL_EVIDENCE_EXPIRED")
                || str_equal(code, "APPROVAL_EVIDENCE_MISMATCH") {
                return String::from_str(code);
            }
        }
    }
    String::from_str("APPROVAL_REQUIREMENT_NOT_PENDING")
}

/// The fields of a decision request its retry key owns.
pub struct DecisionCommand {
    /// `APPROVE` or `REJECT`.
    pub value: String,
    pub expected_revision: i64,
    pub comment: Option<String>,
    pub rejection_reason: Option<String>,
}

/// The text that stands for an absent optional field: a lone U+0001, so an absent field differs
/// from an empty one.
pub open spec fn absent_marker() -> Seq<char> {
    seq!['\u{1}']
}

/// An optional field's text, or the absent marker.
pub open spec fn field_text(value: Option<String>) -> Seq<char> {
    match value {
        Some(text) => text@,
        None => absent_marker(),
    }
}

/// The canonical text a decision request's fingerprint digests: the value, the expected revision,
/// the comment and the rejection reason, separated by NUL characters.
pub open spec fn decision_canonical_spec(c: DecisionCommand) -> Seq<char> {
    let nul = seq!['\0'];
    (c.value@ + nul) + ((decimal(c.expected_revision as int) + nul) + ((field_text(c.comment) + nul) + field_text(
        c.rejection_reason,
    )))
}

fn append_field(out: &mut String, value: &Option<String>)
    ensures
        final(out)@ == old(out)@ + field_text(*value),
{
    match value {
        Some(text) => out.append(text.as_str()),
        None => {
            proof { reveal_strlit("\u{1}"); }
            out.append("\u{1}");
        },
    }
}

/// The canonical text of a decision request, which its fingerprint digests.
pub fn decision_request_canonical(c: &DecisionCommand) -> (r: String)
    ensures
        r@ == decision_canonical_spec(*c),
{
    proof { reveal_strlit("\0"); }
    let mut out = String::from_str(c.value.as_str());
    out.append("\0");
    let revision = decimal_text(c.expected_revision);
    out.append(revision.as_str());
    out.append("\0");
    append_field(&mut out, &c.comment);
    out.append("\0");
    append_field(&mut out, &c.rejection_reason);
    assert(out@ =~= decision_canonical_spec(*c));
    out
}

/// A text holds no NUL character.
pub open spec fn nul_free(text: Seq<char>) -> bool {
    forall|i: int| 0 <= i < text.len() ==> text[i] != '\0'
}

/// A field the canonical text can tell apart: free of NUL characters and not the absent marker
/// itself.
pub open spec fn separable(value: Option<String>) -> bool {
    match value {
        Some(text) => nul_free(text@) && text@ != absent_marker(),
        None => true,
    }
}

/// Two texts each followed by a NUL and a rest agree on both parts when neither text holds a NUL.
proof fn split_at_nul(a: Seq<char>, ra: Seq<char>, b: Seq<char>, rb: Seq<char>)
    requires
        nul_free(a),
        nul_free(b),
        a + seq!['\0'] + ra == b + seq!['\0'] + rb,
    ensures
        a == b,
        ra == rb,
{
    let x = a + seq!['\0'] + ra;
    let y = b + seq!['\0'] + rb;
    if a.len() < b.len() {
        assert(x[a.len() as int] == '\0');
        assert(y[a.len() as int] == b[a.len() as int]);
    } else if b.len() < a.len() {
        assert(y[b.len() as int] == '\0');
        assert(x[b.len() as int] == a[b.len() as int]);
    } else {
        assert(a =~= x.subrange(0, a.len() as int));
        assert(b =~= y.subrange(0, b.len() as int));
        assert(ra =~= x.subrange(a.len() as int + 1, x.len() as int));
        assert(rb =~= y.subrange(b.len() as int + 1, y.len() as int));
    }
}

/// The canonical text tells every field it covers apart: two decision requests whose values hold
/// no NUL and whose comments and rejection reasons are separable have the same canonical text only
/// when they agree on the value, the expected revision, the comment and the rejection reason.
pub proof fn decision_canonical_distinguishes(a: DecisionCommand, b: DecisionCommand)
    requires
        nul_free(a.value@),
        nul_free(b.value@),
        separable(a.comment),
        separable(b.comment),
        separable(a.rejection_reason),
        separable(b.rejection_reason),
        decision_canonical_spec(a) == decision_canonical_spec(b),
    ensures
        a.value@ == b.value@,
        a.expected_revision == b.expected_revision,
        field_text(a.comment) == field_text(b.comment),
        a.comment is Some <==> b.comment is Some,
        a.comment is Some ==> a.comment->0@ == b.comment->0@,
        a.rejection_reason is Some <==> b.rejection_reason is Some,
        a.rejection_reason is Some ==> a.rejection_reason->0@ == b.rejection_reason->0@,
{
    let nul = seq!['\0'];
    let da = decimal(a.expected_revision as int);
    let db = decimal(b.expected_revision as int);
    decimal_injective(a.expected_revision as int, b.expected_revision as int);
    decimal_injective(b.expected_revision as int, a.expected_revision as int);
    let ca = field_text(a.comment);
    let cb = field_text(b.comment);
    let wa = field_text(a.rejection_reason);
    let wb = field_text(b.rejection_reason);
    assert(nul_free(ca));
    assert(nul_free(cb));
    assert(nul_free(da));
    assert(nul_free(db));
    split_at_nul(a.value@, (da + nul) + ((ca + nul) + wa), b.value@, (db + nul) + ((cb + nul) + wb));
    split_at_nul(da, (ca + nul) + wa, db, (cb + nul) + wb);
    split_at_nul(ca, wa, cb, wb);
}

/// The comment a recorded decision stores: none on a rejection or for blank text, the trimmed
/// text otherwise.
pub open spec fn stored_comment(value: Seq<char>, comment: Option<Seq<char>>) -> Option<Seq<char>> {
    if value == "REJECT"@ {
        None
    } else {
        match comment {
            Some(text) => if trimmed(text).len() == 0 { None } else { Some(trimmed(text)) },
            None => None,
        }
    }
}

/// The comment a recorded decision stores.
pub fn decision_comment(value: &str, comment: Option<&str>) -> (r: Option<String>)
    ensures
        match r { Some(t) => Some(t@), None => None } == stored_comment(value@, match comment { Some(c) => Some(c@), None => None }),
{
    if str_equal(value, "REJECT") {
        return None;
    }
    match comment {
        Some(text) => {
            let normalized = trim(text);
            if normalized.unicode_len() == 0 {
                None
            } else {
                Some(String::from_str(normalized))
            }
        },
        None => None,
    }
}

/// The rejection reason a recorded decision stores: the trimmed text on a rejection, none on an
/// approval.
pub open spec fn stored_rejection_reason(value: Seq<char>, reason: Option<Seq<char>>) -> Option<Seq<char>> {
    if value == "REJECT"@ {
        match reason {
            Some(text) => Some(trimmed(text)),
            None => None,
        }
    } else {
        None
    }
}

/// The rejection reason a recorded decision stores.
pub fn decision_rejection_reason(value: &str, reason: Option<&str>) -> (r: Option<String>)
    ensures
        match r { Some(t) => Some(t@), None => None } == stored_rejection_reason(value@, match reason { Some(c) => Some(c@), None => None }),
{
    if str_equal(value, "REJECT") {
        match reason {
            Some(text) => Some(String::from_str(trim(text))),
            None => None,
        }
    } else {
        None
    }
}

/// The rejection reason a rejection's audit records: the trimmed text, or empty.
pub fn audited_rejection_reason(reason: Option<&str>) -> (r: &str)
    ensures
        r@ == match reason { Some(text) => trimmed(text@), None => Seq::<char>::empty() },
{
    match reason {
        Some(text) => trim(text),
        None => {
            proof { reveal_strlit(""); }
            ""
        },
    }
}

/// The qualifying approval count a requirement reports: a satisfied one counts its frozen
/// participants, any other the approvers that qualify now.
pub fn qualifying_approval_count(status: RequirementStatus, participants: usize, qualifying_now: i32) -> (r: i32)
    requires
        participants <= i32::MAX,
    ensures
        r == if status is Satisfied { participants as int } else { qualifying_now as int },
{
    if status == RequirementStatus::Satisfied {
        participants as i32
    } else {
        qualifying_now
    }
}

/// The approvers among a requirement's approving actors that qualify: every actor other than the
/// requester that is an eligible approver, in the actors' order.
pub open spec fn qualifying_spec(actors: Seq<u128>, eligible: Seq<bool>, requester: u128) -> Seq<u128>
    decreases actors.len(),
{
    if actors.len() == 0 || eligible.len() != actors.len() {
        Seq::empty()
    } else {
        let earlier = qualifying_spec(actors.drop_last(), eligible.drop_last(), requester);
        if actors.last() != requester && eligible.last() {
            earlier.push(actors.last())
        } else {
            earlier
        }
    }
}

/// The qualifying approvers, given whether each approving actor is an eligible approver.
pub fn qualifying_approvers(actors: &Vec<u128>, eligible: &Vec<bool>, requester: u128) -> (r: Vec<u128>)
    requires
        eligible@.len() == actors@.len(),
    ensures
        r@ == qualifying_spec(actors@, eligible@, requester),
{
    let mut out: Vec<u128> = Vec::new();
    let mut i: usize = 0;
    while i < actors.len()
        invariant
            i <= actors@.len(),
            eligible@.len() == actors@.len(),
            out@ == qualifying_spec(actors@.take(i as int), eligible@.take(i as int), requester),
        decreases actors@.len() - i,
    {
        assert(actors@.take(i as int + 1).drop_last() =~= actors@.take(i as int));
        assert(eligible@.take(i as int + 1).drop_last() =~= eligible@.take(i as int));
        if actors[i] != requester && eligible[i] {
            out.push(actors[i]);
        }
        i = i + 1;
    }
    assert(actors@.take(actors@.len() as int) =~= actors@);
    assert(eligible@.take(eligible@.len() as int) =~= eligible@);
    out
}

/// A requirement as far as the principals its answer names: its requester and its satisfied
/// participants.
pub struct RequirementPrincipals {
    pub requester_id: u128,
    pub participants: Vec<u128>,
}

/// The principals a list of requirements names, each requester before its participants.
pub open spec fn named_principals(requirements: Seq<RequirementPrincipals>) -> Seq<u128>
    decreases requirements.len(),
{
    if requirements.len() == 0 {
        Seq::empty()
    } else {
        named_principals(requirements.drop_last()) + seq![requirements.last().requester_id]
            + requirements.last().participants@
    }
}

/// Every principal the requirements name, each once, in the order first named.
pub fn approval_principal_ids(requirements: &Vec<RequirementPrincipals>) -> (r: Vec<u128>)
    ensures
        r@.no_duplicates(),
        forall|x: u128| r@.contains(x) <==> named_principals(requirements@).contains(x),
        forall|a: int, b: int| 0 <= a < b < r@.len() ==>
            named_principals(requirements@).index_of_first(r@[a])->0 < named_principals(requirements@).index_of_first(r@[b])->0,
{
    let mut ids: Vec<u128> = Vec::new();
    let ghost mut seen: Seq<u128> = Seq::empty();
    let mut i: usize = 0;
    while i < requirements.len()
        invariant
            i <= requirements@.len(),
            seen == named_principals(requirements@.take(i as int)),
            first_seen_order(ids@, seen),
        decreases requirements@.len() - i,
    {
        assert(requirements@.take(i as int + 1).drop_last() =~= requirements@.take(i as int));
        let requirement = &requirements[i];
        let mut names: Vec<u128> = Vec::new();
        names.push(requirement.requester_id);
        let mut k: usize = 0;
        while k < requirement.participants.len()
            invariant
                k <= requirement.participants@.len(),
                names@ == seq![requirement.requester_id] + requirement.participants@.take(k as int),
            decreases requirement.participants@.len() - k,
        {
            names.push(requirement.participants[k]);
            assert(names@ =~= seq![requirement.requester_id] + requirement.participants@.take(k as int + 1));
            k = k + 1;
        }
        assert(requirement.participants@.take(k as int) =~= requirement.participants@);
        let mut j: usize = 0;
        while j < names.len()
            invariant
                j <= names@.len(),
                first_seen_order(ids@, seen + names@.take(j as int)),
            decreases names@.len() - j,
        {
            let id = names[j];
            let ghost before = seen + names@.take(j as int);
            assert(seen + names@.take(j as int + 1) =~= before.push(id));
            let present = contains_id(&ids, id);
            if !present {
                proof { record_new(ids@, before, id); }
                ids.push(id);
            } else {
                proof { record_known(ids@, before, id); }
            }
            j = j + 1;
        }
        proof {
            assert(names@.take(names@.len() as int) =~= names@);
            assert(named_principals(requirements@.take(i as int + 1)) =~= seen + names@);
            seen = seen + names@;
        }
        i = i + 1;
    }
    assert(requirements@.take(requirements@.len() as int) =~= requirements@);
    ids
}

/// `ids` lists every value of `seen` once, in the order each first occurs in `seen`.
pub open spec fn first_seen_order(ids: Seq<u128>, seen: Seq<u128>) -> bool {
    &&& ids.no_duplicates()
    &&& forall|x: u128| ids.contains(x) <==> seen.contains(x)
    &&& forall|a: int, b: int| 0 <= a < b < ids.len() ==>
        seen.index_of_first(ids[a])->0 < seen.index_of_first(ids[b])->0
}

proof fn record_new(ids: Seq<u128>, seen: Seq<u128>, id: u128)
    requires
        first_seen_order(ids, seen),
        !ids.contains(id),
    ensures
        first_seen_order(ids.push(id), seen.push(id)),
{
    index_of_first_push(seen, id);
    let next = ids.push(id);
    assert forall|x: u128| next.contains(x) <==> seen.push(id).contains(x) by {
        if next.contains(x) {
            let w = choose|w: int| 0 <= w < next.len() && next[w] == x;
            if w < ids.len() {
                assert(ids[w] == x);
                assert(ids.contains(x));
                let v = choose|v: int| 0 <= v < seen.len() && seen[v] == x;
                assert(seen.push(id)[v] == x);
            } else {
                assert(seen.push(id)[seen.len() as int] == x);
            }
        }
        if seen.push(id).contains(x) {
            let w = choose|w: int| 0 <= w < seen.push(id).len() && seen.push(id)[w] == x;
            if w < seen.len() {
                assert(seen[w] == x);
                assert(seen.contains(x));
                let v = choose|v: int| 0 <= v < ids.len() && ids[v] == x;
                assert(next[v] == x);
            } else {
                assert(next[ids.len() as int] == x);
            }
        }
    }
    assert forall|a: int, b: int| 0 <= a < b < next.len() implies
        seen.push(id).index_of_first(next[a])->0 < seen.push(id).index_of_first(next[b])->0 by {
        assert(next[a] == ids[a]);
        assert(ids.contains(ids[a]));
        seen.index_of_first_ensures(ids[a]);
        if b < ids.len() {
            assert(next[b] == ids[b]);
            assert(ids.contains(ids[b]));
        } else {
            assert(next[b] == id);
        }
    }
    assert forall|a: int, b: int| 0 <= a < b < next.len() implies next[a] != next[b] by {
        if b == ids.len() {
            assert(ids.contains(next[a]));
        }
    }
}

proof fn record_known(ids: Seq<u128>, seen: Seq<u128>, id: u128)
    requires
        first_seen_order(ids, seen),
        ids.contains(id),
    ensures
        first_seen_order(ids, seen.push(id)),
{
    index_of_first_push(seen, id);
    assert forall|x: u128| ids.contains(x) <==> seen.push(id).contains(x) by {
        if ids.contains(x) {
            let v = choose|v: int| 0 <= v < seen.len() && seen[v] == x;
            assert(seen.push(id)[v] == x);
        }
        if seen.push(id).contains(x) {
            let w = choose|w: int| 0 <= w < seen.push(id).len() && seen.push(id)[w] == x;
            if w < seen.len() {
                assert(seen[w] == x);
                assert(seen.contains(x));
            }
        }
    }
    assert forall|a: int, b: int| 0 <= a < b < ids.len() implies
        seen.push(id).index_of_first(ids[a])->0 < seen.push(id).index_of_first(ids[b])->0 by {
        assert(ids.contains(ids[a]));
        assert(ids.contains(ids[b]));
    }
}

/// Whether an identifier is in a list.
fn contains_id(ids: &Vec<u128>, id: u128) -> (r: bool)
    ensures
        r == ids@.contains(id),
{
    let mut k: usize = 0;
    while k < ids.len()
        invariant
            k <= ids@.len(),
            forall|m: int| 0 <= m < k ==> ids@[m] != id,
        decreases ids@.len() - k,
    {
        if ids[k] == id {
            assert(ids@[k as int] == id);
            return true;
        }
        k = k + 1;
    }
    false
}

/// Appending a value keeps the first index of every value already present, and gives a new value
/// the last index.
proof fn index_of_first_push(s: Seq<u128>, x: u128)
    ensures
        forall|y: u128| s.contains(y) ==> (#[trigger] s.push(x).index_of_first(y)) == s.index_of_first(y),
        !s.contains(x) ==> s.push(x).index_of_first(x) == Some(s.len() as int),
{
    assert forall|y: u128| s.contains(y) implies (#[trigger] s.push(x).index_of_first(y)) == s.index_of_first(y) by {
        s.index_of_first_ensures(y);
        s.push(x).index_of_first_ensures(y);
        let i = s.index_of_first(y)->0;
        assert(s.push(x)[i] == y);
        let j = s.push(x).index_of_first(y)->0;
        if j < i {
            assert(s[j] == y);
        }
    }
    if !s.contains(x) {
        s.push(x).index_of_first_ensures(x);
        assert(s.push(x)[s.len() as int] == x);
        let j = s.push(x).index_of_first(x)->0;
        if j < s.len() {
            assert(s[j] == x);
        }
    }
}

/// A stale approval cannot quietly carry a release: once `reconcile_pending` terminalizes a cycle
/// and the requirement moves to the status and code it names, a decision arriving afterward is
/// refused with the evidence code that invalidated it, or with its expiry, and a cycle invalidated
/// because its deployment moved on is refused as no longer pending.
pub proof fn terminalized_cycles_refuse_with_their_code(f: crate::approval::PendingFacts)
    requires
        crate::approval::reconciliation_spec(f) is Terminalize,
    ensures
        ({
            let (action, code) = match crate::approval::reconciliation_spec(f) {
                crate::approval::Reconciliation::Terminalize { action, code, .. } => (action, code),
                _ => (crate::approval::TerminalAction::Invalidated, crate::approval::ApprovalCode::TerminalLifecycle),
            };
            let status = crate::approval::terminal_status(action);
            let stored = crate::approval::transition_spec(status, Some(code)).invalidation_code;
            let problem = state_problem(status, match stored {
                Some(c) => Some(crate::approval::approval_code_text(c)),
                None => None,
            });
            &&& action is Expired ==> problem == "APPROVAL_REQUIREMENT_EXPIRED"@
            &&& code matches crate::approval::ApprovalCode::Evidence(issue) ==> problem == crate::evidence::evidence_issue_text(issue)
            &&& code is TerminalLifecycle ==> problem == "APPROVAL_REQUIREMENT_NOT_PENDING"@
        }),
{
    reveal_strlit("TERMINAL_LIFECYCLE");
    reveal_strlit("APPROVAL_EVIDENCE_MISSING");
    reveal_strlit("APPROVAL_EVIDENCE_EXPIRED");
    reveal_strlit("APPROVAL_EVIDENCE_MISMATCH");
}

/// A requirement whose qualifying approvals are counted.
#[derive(PartialEq, Eq, Structural, Clone, Copy, Debug)]
pub struct CountedRequirement {
    pub id: u128,
    /// The requirement is satisfied, so its participant list is frozen.
    pub satisfied: bool,
    /// How many participants its frozen list holds.
    pub participants: usize,
}

/// How many of the approvals (requirement, whether the approver qualifies) on requirement `id`
/// come from qualifying approvers.
pub open spec fn qualified_approvals(approvals: Seq<(u128, bool)>, id: u128) -> int
    decreases approvals.len(),
{
    if approvals.len() == 0 {
        0
    } else {
        qualified_approvals(approvals.drop_last(), id) + if approvals.last().0 == id && approvals.last().1 {
            1int
        } else {
            0int
        }
    }
}

proof fn qualified_approvals_bounded(approvals: Seq<(u128, bool)>, id: u128)
    ensures
        0 <= qualified_approvals(approvals, id) <= approvals.len(),
    decreases approvals.len(),
{
    if approvals.len() > 0 {
        qualified_approvals_bounded(approvals.drop_last(), id);
    }
}

/// The qualifying approval count of each requirement, in the order given: a satisfied one counts
/// its frozen participants; any other counts the distinct approvers on an active project, other
/// than the requester, whose approval qualifies (the approvals as the join read them, one per
/// requirement and approver, each with whether the approver holds the decide capability).
pub fn qualifying_approval_counts(requirements: &Vec<CountedRequirement>, approvals: &Vec<(u128, bool)>) -> (r: Vec<i32>)
    requires
        approvals@.len() <= i32::MAX,
        forall|i: int| 0 <= i < requirements@.len() ==> (#[trigger] requirements@[i]).participants <= i32::MAX,
    ensures
        r@.len() == requirements@.len(),
        forall|i: int| 0 <= i < requirements@.len() ==> (#[trigger] r@[i]) == if requirements@[i].satisfied {
            requirements@[i].participants as int
        } else {
            qualified_approvals(approvals@, requirements@[i].id)
        },
{
    let mut counts: Vec<i32> = Vec::new();
    let mut i: usize = 0;
    while i < requirements.len()
        invariant
            i <= requirements@.len(),
            counts@.len() == i,
            approvals@.len() <= i32::MAX,
            forall|k: int| 0 <= k < requirements@.len() ==> (#[trigger] requirements@[k]).participants <= i32::MAX,
            forall|k: int| 0 <= k < i ==> (#[trigger] counts@[k]) == if requirements@[k].satisfied {
                requirements@[k].participants as int
            } else {
                qualified_approvals(approvals@, requirements@[k].id)
            },
        decreases requirements@.len() - i,
    {
        let requirement = requirements[i];
        if requirement.satisfied {
            counts.push(requirement.participants as i32);
        } else {
            let mut count: i32 = 0;
            let mut j: usize = 0;
            while j < approvals.len()
                invariant
                    j <= approvals@.len() <= i32::MAX,
                    count == qualified_approvals(approvals@.take(j as int), requirement.id),
                decreases approvals@.len() - j,
            {
                assert(approvals@.take(j as int + 1).drop_last() =~= approvals@.take(j as int));
                proof { qualified_approvals_bounded(approvals@.take(j as int), requirement.id); }
                let (id, qualified) = approvals[j];
                if id == requirement.id && qualified {
                    count = count + 1;
                }
                j = j + 1;
            }
            assert(approvals@.take(approvals@.len() as int) =~= approvals@);
            counts.push(count);
        }
        i = i + 1;
    }
    counts
}

/// There are never more qualifying approvers than approving actors.
pub proof fn qualifying_spec_bounded(actors: Seq<u128>, eligible: Seq<bool>, requester: u128)
    ensures
        qualifying_spec(actors, eligible, requester).len() <= actors.len(),
    decreases actors.len(),
{
    if actors.len() > 0 && eligible.len() == actors.len() {
        qualifying_spec_bounded(actors.drop_last(), eligible.drop_last(), requester);
    }
}

} // verus!
