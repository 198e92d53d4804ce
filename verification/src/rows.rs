//! The rows the rules read, as plain values: a deployment, its frozen version-1 plan, and the
//! helpers that index and check rows read in a batch. Identifiers are 128-bit UUID values and
//! instants are nanoseconds since the Unix epoch.

use crate::lifecycle::Lifecycle;
use std::collections::HashMap;
use vstd::prelude::*;

verus! {

broadcast use vstd::std_specs::hash::group_hash_axioms;

/// A deployment row.
pub struct DeploymentRow {
    pub id: u128,
    pub organization_id: u128,
    pub project_id: u128,
    pub agent_id: u128,
    pub agent_version_id: u128,
    pub environment_class: String,
    pub environment_definition_version_id: Option<u128>,
    pub lifecycle: Lifecycle,
    pub revision: i64,
    pub requested_by: u128,
    pub requested_at: i64,
    pub project_lifecycle_revision: Option<i64>,
}

/// A deployment's frozen version-1 plan.
pub struct PlanRow {
    pub id: u128,
    pub deployment_id: u128,
    pub target_digest: Option<String>,
    pub plan_digest: String,
    pub package_digest: String,
    pub agent_content_digest: Option<String>,
    pub catalog_release_digest: Option<String>,
}

/// A nullable column read into a non-null field failed: the column was null.
pub struct NullColumn {
    pub column: String,
}

/// Reads a nullable column into a non-null field, naming the column when it is null.
pub fn required<T>(value: Option<T>, column: &str) -> (r: Result<T, NullColumn>)
    ensures
        match value {
            Some(v) => r == Ok::<T, NullColumn>(v),
            None => r matches Err(e) && e.column@ == column@,
        },
{
    match value {
        Some(v) => Ok(v),
        None => Err(NullColumn { column: String::from_str(column) }),
    }
}

/// The map a list of rows indexes to under `keys`: each key to the last row that carries it.
pub open spec fn index_of<M>(rows: Seq<M>, keys: Seq<u128>) -> Map<u128, M>
    decreases rows.len(),
{
    if rows.len() == 0 || keys.len() != rows.len() {
        Map::empty()
    } else {
        index_of(rows.drop_last(), keys.drop_last()).insert(keys.last(), rows.last())
    }
}

/// Indexes rows by a key read from each, the last of a duplicate key winning.
pub fn by_id<M, F: Fn(&M) -> u128>(rows: Vec<M>, key: F) -> (r: HashMap<u128, M>)
    requires
        forall|i: int| 0 <= i < rows@.len() ==> key.requires((&rows@[i],)),
    ensures
        exists|keys: Seq<u128>|
            {
                &&& keys.len() == rows@.len()
                &&& forall|i: int| 0 <= i < rows@.len() ==> key.ensures((&rows@[i],), #[trigger] keys[i])
                &&& r@ == index_of(rows@, keys)
            },
{
    let ghost original = rows@;
    let mut index: HashMap<u128, M> = HashMap::new();
    let ghost mut keys: Seq<u128> = Seq::empty();
    let mut rows = rows;
    let mut done: usize = 0;
    let n = rows.len();
    while done < n
        invariant
            n == original.len(),
            done <= n,
            rows@ == original.skip(done as int),
            keys.len() == done,
            forall|i: int| 0 <= i < original.len() ==> key.requires((&original[i],)),
            forall|i: int| 0 <= i < done ==> key.ensures((&original[i],), #[trigger] keys[i]),
            index@ == index_of(original.take(done as int), keys),
        decreases n - done,
    {
        let row = rows.remove(0);
        assert(row == original[done as int]);
        assert(rows@ =~= original.skip(done as int + 1));
        let k = key(&row);
        let ghost old_keys = keys;
        let ghost old_index = index@;
        proof {
            keys = keys.push(k);
            assert(original.take(done as int + 1).drop_last() =~= original.take(done as int));
            assert(keys.drop_last() =~= keys.take(done as int));
        }
        index.insert(k, row);
        proof {
            assert(original.take(done as int + 1).last() == original[done as int]);
            assert(keys.drop_last() =~= old_keys);
            assert(index@ == old_index.insert(k, original[done as int]));
            assert(index@ == index_of(original.take(done as int + 1), keys));
        }
        done = done + 1;
    }
    assert(original.take(n as int) =~= original);
    index
}

/// `latest` holds, for each deployment among `keys` (deployment, attempt number), the position of
/// its first attempt with the highest number.
pub open spec fn latest_positions(keys: Seq<(u128, i64)>, latest: Map<u128, usize>) -> bool {
    &&& forall|k: u128| latest.dom().contains(k) <==> exists|i: int| 0 <= i < keys.len() && (#[trigger] keys[i]).0 == k
    &&& forall|k: u128| #[trigger] latest.dom().contains(k) ==> {
        let i = latest[k] as int;
        &&& 0 <= i < keys.len()
        &&& keys[i].0 == k
        &&& forall|j: int| 0 <= j < keys.len() && (#[trigger] keys[j]).0 == k ==> keys[j].1 <= keys[i].1
        &&& forall|j: int| 0 <= j < i && (#[trigger] keys[j]).0 == k ==> keys[j].1 < keys[i].1
    }
}

/// The current attempt of each deployment, from its attempts as (deployment, attempt number)
/// pairs in the order read: the position of the first attempt with the highest number.
pub fn latest_attempts(keys: &Vec<(u128, i64)>) -> (r: HashMap<u128, usize>)
    ensures
        latest_positions(keys@, r@),
{
    let mut latest: HashMap<u128, usize> = HashMap::new();
    let mut i: usize = 0;
    while i < keys.len()
        invariant
            i <= keys@.len(),
            latest_positions(keys@.take(i as int), latest@),
        decreases keys@.len() - i,
    {
        let (deployment, number) = keys[i];
        let ghost prefix = keys@.take(i as int);
        let ghost next = keys@.take(i as int + 1);
        assert(next =~= prefix.push(keys@[i as int]));
        let ghost before = latest@;
        let replace = match latest.get(&deployment) {
            Some(current) => {
                let (_, current_number) = keys[*current];
                proof {
                    assert(before.dom().contains(deployment));
                    assert(prefix[*current as int] == keys@[*current as int]);
                }
                current_number < number
            },
            None => true,
        };
        if replace {
            latest.insert(deployment, i);
        }
        proof {
            assert forall|k: u128| latest@.dom().contains(k) <==> exists|m: int| 0 <= m < next.len() && (#[trigger] next[m]).0 == k by {
                if latest@.dom().contains(k) && k != deployment {
                    assert(before.dom().contains(k));
                    let m = choose|m: int| 0 <= m < prefix.len() && (#[trigger] prefix[m]).0 == k;
                    assert(next[m] == prefix[m]);
                }
                if latest@.dom().contains(k) && k == deployment {
                    assert(next[i as int].0 == k);
                }
                if exists|m: int| 0 <= m < next.len() && (#[trigger] next[m]).0 == k {
                    let m = choose|m: int| 0 <= m < next.len() && (#[trigger] next[m]).0 == k;
                    if m < i {
                        assert(prefix[m] == next[m]);
                        assert(before.dom().contains(k));
                    }
                }
            }
            assert forall|k: u128| #[trigger] latest@.dom().contains(k) implies {
                let p = latest@[k] as int;
                &&& 0 <= p < next.len()
                &&& next[p].0 == k
                &&& forall|j: int| 0 <= j < next.len() && (#[trigger] next[j]).0 == k ==> next[j].1 <= next[p].1
                &&& forall|j: int| 0 <= j < p && (#[trigger] next[j]).0 == k ==> next[j].1 < next[p].1
            } by {
                if k != deployment {
                    assert(before.dom().contains(k));
                    assert(latest@[k] == before[k]);
                    let p = before[k] as int;
                    assert(next[p] == prefix[p]);
                    assert forall|j: int| 0 <= j < next.len() && (#[trigger] next[j]).0 == k implies next[j].1 <= next[p].1 by {
                        if j < i {
                            assert(next[j] == prefix[j]);
                        }
                    }
                    assert forall|j: int| 0 <= j < p && (#[trigger] next[j]).0 == k implies next[j].1 < next[p].1 by {
                        assert(next[j] == prefix[j]);
                    }
                } else if replace {
                    assert(latest@[k] == i);
                    assert forall|j: int| 0 <= j < next.len() && (#[trigger] next[j]).0 == k implies next[j].1 <= next[i as int].1 by {
                        if j < i {
                            assert(next[j] == prefix[j]);
                            if before.dom().contains(k) {
                                let p = before[k] as int;
                                assert(prefix[j].1 <= prefix[p].1);
                            }
                        }
                    }
                    assert forall|j: int| 0 <= j < i && (#[trigger] next[j]).0 == k implies next[j].1 < next[i as int].1 by {
                        assert(next[j] == prefix[j]);
                        if before.dom().contains(k) {
                            let p = before[k] as int;
                            assert(prefix[j].1 <= prefix[p].1);
                        } else {
                            assert(exists|m: int| 0 <= m < prefix.len() && (#[trigger] prefix[m]).0 == k);
                        }
                    }
                } else {
                    assert(before.dom().contains(k));
                    let p = before[k] as int;
                    assert(next[p] == prefix[p]);
                    assert forall|j: int| 0 <= j < next.len() && (#[trigger] next[j]).0 == k implies next[j].1 <= next[p].1 by {
                        if j < i {
                            assert(next[j] == prefix[j]);
                        }
                    }
                    assert forall|j: int| 0 <= j < p && (#[trigger] next[j]).0 == k implies next[j].1 < next[p].1 by {
                        assert(next[j] == prefix[j]);
                    }
                }
            }
        }
        i = i + 1;
    }
    assert(keys@.take(keys@.len() as int) =~= keys@);
    latest
}

/// What a rollback target is looked up by: the row's project, agent, environment definition
/// version, requested instant and identifier.
#[derive(PartialEq, Eq, Structural, Clone, Copy, Debug)]
pub struct RollbackTargetKey {
    pub project_id: u128,
    pub agent_id: u128,
    pub environment_definition_version_id: u128,
    pub requested_at: i64,
    pub id: u128,
}

impl RollbackTargetKey {
    /// The key of a deployment, or nothing for a deployment with no environment, which has no
    /// rollback target at all.
    pub fn of(deployment: &DeploymentRow) -> (r: Option<RollbackTargetKey>)
        ensures
            match deployment.environment_definition_version_id {
                Some(environment) => r == Some(RollbackTargetKey {
                    project_id: deployment.project_id,
                    agent_id: deployment.agent_id,
                    environment_definition_version_id: environment,
                    requested_at: deployment.requested_at,
                    id: deployment.id,
                }),
                None => r is None,
            },
    {
        match deployment.environment_definition_version_id {
            Some(environment) => Some(RollbackTargetKey {
                project_id: deployment.project_id,
                agent_id: deployment.agent_id,
                environment_definition_version_id: environment,
                requested_at: deployment.requested_at,
                id: deployment.id,
            }),
            None => None,
        }
    }
}

/// An `ACTIVE` deployment that may be a rollback target, as the candidate read returns it.
#[derive(PartialEq, Eq, Structural, Clone, Copy, Debug)]
pub struct RollbackCandidate {
    pub id: u128,
    pub project_id: u128,
    pub agent_id: u128,
    pub environment_definition_version_id: Option<u128>,
    pub requested_at: i64,
    pub agent_version_id: u128,
}

/// The candidate is the same agent in the same environment of the same project.
pub open spec fn same_target(key: RollbackTargetKey, c: RollbackCandidate) -> bool {
    c.project_id == key.project_id && c.agent_id == key.agent_id
        && c.environment_definition_version_id == Some(key.environment_definition_version_id)
}

/// The candidate is another deployment requested before the key's own row, ordered by requested
/// instant and then by identifier.
pub open spec fn requested_before(key: RollbackTargetKey, c: RollbackCandidate) -> bool {
    c.id != key.id && (c.requested_at < key.requested_at || (c.requested_at == key.requested_at && c.id < key.id))
}

/// The candidate is a prior target of the key, of the requested version when one is given.
pub open spec fn prior_target(key: RollbackTargetKey, c: RollbackCandidate, version: Option<u128>) -> bool {
    same_target(key, c) && requested_before(key, c) && match version {
        Some(v) => c.agent_version_id == v,
        None => true,
    }
}

/// Candidates are listed newest first: by requested instant, then by identifier, descending.
pub open spec fn newest_first(candidates: Seq<RollbackCandidate>) -> bool {
    forall|i: int, j: int| 0 <= i < j < candidates.len() ==>
        candidates[j].requested_at < candidates[i].requested_at
            || (candidates[j].requested_at == candidates[i].requested_at && candidates[j].id <= candidates[i].id)
}

/// The rollback target of a key among candidates listed newest first: the first prior target
/// listed, which is the newest prior target.
pub fn rollback_target(key: &RollbackTargetKey, candidates: &Vec<RollbackCandidate>, version: Option<u128>) -> (r: Option<usize>)
    ensures
        match r {
            Some(i) => {
                &&& i < candidates@.len()
                &&& prior_target(*key, candidates@[i as int], version)
                &&& forall|j: int| 0 <= j < i ==> !prior_target(*key, #[trigger] candidates@[j], version)
                &&& newest_first(candidates@) ==> forall|j: int| 0 <= j < candidates@.len()
                    && prior_target(*key, #[trigger] candidates@[j], version) ==> (candidates@[j].requested_at
                    < candidates@[i as int].requested_at || (candidates@[j].requested_at
                    == candidates@[i as int].requested_at && candidates@[j].id <= candidates@[i as int].id))
            },
            None => forall|j: int| 0 <= j < candidates@.len() ==> !prior_target(*key, #[trigger] candidates@[j], version),
        },
{
    let mut i: usize = 0;
    while i < candidates.len()
        invariant
            i <= candidates@.len(),
            forall|j: int| 0 <= j < i ==> !prior_target(*key, #[trigger] candidates@[j], version),
        decreases candidates@.len() - i,
    {
        let c = &candidates[i];
        let same = c.project_id == key.project_id && c.agent_id == key.agent_id
            && c.environment_definition_version_id == Some(key.environment_definition_version_id);
        let before = c.id != key.id && (c.requested_at < key.requested_at || (c.requested_at == key.requested_at
            && c.id < key.id));
        let version_ok = match version {
            Some(v) => c.agent_version_id == v,
            None => true,
        };
        if same && before && version_ok {
            return Some(i);
        }
        i = i + 1;
    }
    None
}

/// The version a rollback returns to: the version of the newest prior `ACTIVE` deployment of the
/// source's agent in its environment, pinned to the requested version when one is given, which
/// must then read as an identifier.
pub fn rollback_target_version(
    key: &RollbackTargetKey,
    requested: Option<&str>,
    candidates: &Vec<RollbackCandidate>,
) -> (r: Option<u128>)
    ensures
        match requested {
            Some(text) if crate::ids::uuid_parsed(text@) is None => r is None,
            _ => {
                let version = match requested {
                    Some(text) => crate::ids::uuid_parsed(text@),
                    None => None,
                };
                match r {
                    Some(v) => exists|i: int| 0 <= i < candidates@.len() && prior_target(*key, #[trigger] candidates@[i], version)
                        && candidates@[i].agent_version_id == v
                        && forall|j: int| 0 <= j < i ==> !prior_target(*key, #[trigger] candidates@[j], version),
                    None => forall|j: int| 0 <= j < candidates@.len() ==> !prior_target(*key, #[trigger] candidates@[j], version),
                }
            },
        },
{
    let version = match requested {
        Some(text) => match crate::ids::parse_uuid(text) {
            Some(id) => Some(id),
            None => return None,
        },
        None => None,
    };
    match rollback_target(key, candidates, version) {
        Some(i) => Some(candidates[i].agent_version_id),
        None => None,
    }
}

/// Whether a deployment row is assembled into a full deployment: every related row is present,
/// and a summary read (one without the canonical plan) also needs the retained review facts.
pub fn assembled(related_present: bool, review_present: bool, include_canonical_plan: bool) -> (r: bool)
    ensures
        r == (related_present && (review_present || include_canonical_plan)),
{
    related_present && (review_present || include_canonical_plan)
}

/// The lifecycle a new deployment starts in: awaiting approval when its rule needs approvers,
/// requested otherwise.
pub fn initial_lifecycle(required_approvers: i32) -> (r: Lifecycle)
    ensures
        r == if required_approvers > 0 { Lifecycle::AwaitingApproval } else { Lifecycle::Requested },
{
    if required_approvers > 0 {
        Lifecycle::AwaitingApproval
    } else {
        Lifecycle::Requested
    }
}

/// Where a frozen plan's package is found: `local://packages/` and its digest.
pub fn package_reference(package_digest: &str) -> (r: String)
    ensures
        r@ == "local://packages/"@ + package_digest@,
{
    let mut out = String::from_str("local://packages/");
    out.append(package_digest);
    out
}

/// The evidence kinds a new deployment freezes snapshots for: every required kind but the
/// evaluation evidence, which its own owner appends.
pub open spec fn frozen_kinds(kinds: Seq<Seq<char>>) -> Seq<Seq<char>>
    decreases kinds.len(),
{
    if kinds.len() == 0 {
        Seq::empty()
    } else {
        let earlier = frozen_kinds(kinds.drop_last());
        if kinds.last() == "EVALUATION_PASSED"@ {
            earlier
        } else {
            earlier.push(kinds.last())
        }
    }
}

/// The evidence kinds a new deployment freezes snapshots for, in the order required.
pub fn frozen_evidence_kinds(kinds: &Vec<String>) -> (r: Vec<String>)
    ensures
        crate::text::views_of(r@) == frozen_kinds(crate::text::views_of(kinds@)),
{
    let ghost all = crate::text::views_of(kinds@);
    let mut out: Vec<String> = Vec::new();
    let mut i: usize = 0;
    assert(crate::text::views_of(out@) =~= Seq::<Seq<char>>::empty());
    while i < kinds.len()
        invariant
            i <= kinds@.len(),
            all == crate::text::views_of(kinds@),
            crate::text::views_of(out@) == frozen_kinds(all.take(i as int)),
        decreases kinds@.len() - i,
    {
        assert(all.take(i as int + 1).drop_last() =~= all.take(i as int));
        assert(all.take(i as int + 1).last() == kinds@[i as int]@);
        if !crate::text::str_equal(kinds[i].as_str(), "EVALUATION_PASSED") {
            let ghost prior = out@;
            out.push(kinds[i].clone());
            assert(crate::text::views_of(out@) =~= crate::text::views_of(prior).push(kinds@[i as int]@));
        }
        i = i + 1;
    }
    assert(all.take(all.len() as int) =~= all);
    out
}

/// The text a frozen evidence snapshot's digest digests: the binding digest and the kind,
/// separated by `|`.
pub fn evidence_digest_text(binding_digest: &str, kind: &str) -> (r: String)
    ensures
        r@ == binding_digest@ + "|"@ + kind@,
{
    let mut out = String::from_str(binding_digest);
    out.append("|");
    out.append(kind);
    out
}

/// The attempt an audit event is anchored on, and its number: the attempt its facts name when it
/// is one of the deployment's (with that attempt's number), else the deployment's latest attempt,
/// else none, numbered 0.
pub fn timeline_anchor(
    supplied: Option<u128>,
    supplied_number: Option<i64>,
    latest: Option<(u128, i64)>,
) -> (r: (Option<u128>, i64))
    ensures
        r == match (supplied, supplied_number) {
            (Some(id), Some(number)) => (Some(id), number),
            _ => match latest {
                Some((id, number)) => (Some(id), number),
                None => (None::<u128>, 0i64),
            },
        },
{
    match (supplied, supplied_number) {
        (Some(id), Some(number)) => (Some(id), number),
        _ => match latest {
            Some((id, number)) => (Some(id), number),
            None => (None, 0),
        },
    }
}

/// The attempt an audit event's facts name: their `attemptId` member, when it is a string that
/// reads as an identifier.
pub fn attempt_id_from_facts(facts: &crate::json::Json) -> (r: Option<u128>)
    ensures
        r == match crate::json::json_get(*facts, "attemptId"@) {
            Some(value) => match crate::json::json_text(value) {
                Some(text) => crate::ids::uuid_parsed(text),
                None => None,
            },
            None => None,
        },
{
    match crate::json::get(facts, "attemptId") {
        Some(value) => match crate::json::as_str(value) {
            Some(text) => crate::ids::parse_uuid(text),
            None => None,
        },
        None => None,
    }
}

} // verus!
