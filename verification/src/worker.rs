//! The outbox delivery engine's decisions: how a claimed event's payload and type route it, the
//! bounded retry schedule and its jitter, what executing and completing a deployment record, the
//! heartbeat a worker reports and the rate gate of its opportunistic approval maintenance.

use crate::json::{json_get, json_text, Json};
use crate::lifecycle::{awaits_execution, is_terminal, Lifecycle};
use crate::text::{str_equal, trim, trimmed};
use vstd::arithmetic::power2::{lemma2_to64, pow2};
use vstd::prelude::*;

verus! {

/// How many deliveries of one event the worker attempts before it dead-letters the event.
pub const MAX_WORKER_DELIVERIES: i32 = 3;

/// What an outbox event's payload asks the local execution fixture to do.
#[derive(PartialEq, Eq, Structural, Clone, Copy, Debug)]
pub enum WorkerMode {
    Success,
    Failure,
    Retry,
    Poison,
    Invalid,
}

/// The stored name of a mode.
pub open spec fn mode_name(mode: WorkerMode) -> Seq<char> {
    match mode {
        WorkerMode::Success => "SUCCESS"@,
        WorkerMode::Failure => "FAILURE"@,
        WorkerMode::Retry => "RETRY"@,
        WorkerMode::Poison => "POISON"@,
        WorkerMode::Invalid => "INVALID"@,
    }
}

impl WorkerMode {
    /// The stored name of the mode, which the outbox row and the heartbeat both carry.
    pub fn name(&self) -> (r: &'static str)
        ensures
            r@ == mode_name(*self),
    {
        match self {
            WorkerMode::Success => "SUCCESS",
            WorkerMode::Failure => "FAILURE",
            WorkerMode::Retry => "RETRY",
            WorkerMode::Poison => "POISON",
            WorkerMode::Invalid => "INVALID",
        }
    }
}

/// The mode a payload carries: its `mode` member when that is the exact name of one of the four
/// modes, `INVALID` for anything else.
pub open spec fn decoded_mode(payload: Json) -> WorkerMode {
    match json_get(payload, "mode"@) {
        Some(value) => match json_text(value) {
            Some(text) => if text == "SUCCESS"@ {
                WorkerMode::Success
            } else if text == "FAILURE"@ {
                WorkerMode::Failure
            } else if text == "RETRY"@ {
                WorkerMode::Retry
            } else if text == "POISON"@ {
                WorkerMode::Poison
            } else {
                WorkerMode::Invalid
            },
            None => WorkerMode::Invalid,
        },
        None => WorkerMode::Invalid,
    }
}

/// The mode an outbox payload carries.
pub fn decode_mode(payload: &Json) -> (r: WorkerMode)
    ensures
        r == decoded_mode(*payload),
{
    let text = match crate::json::get(payload, "mode") {
        Some(value) => match crate::json::as_str(value) {
            Some(text) => text,
            None => return WorkerMode::Invalid,
        },
        None => return WorkerMode::Invalid,
    };
    if str_equal(text, "SUCCESS") {
        WorkerMode::Success
    } else if str_equal(text, "FAILURE") {
        WorkerMode::Failure
    } else if str_equal(text, "RETRY") {
        WorkerMode::Retry
    } else if str_equal(text, "POISON") {
        WorkerMode::Poison
    } else {
        WorkerMode::Invalid
    }
}

/// Whether a character may appear in a SQLSTATE: an ASCII upper-case letter or digit.
pub open spec fn sqlstate_char(c: char) -> bool {
    ('A' <= c && c <= 'Z') || ('0' <= c && c <= '9')
}

/// The heartbeat's failure code for a database error: `SQLSTATE_` and the error's code when it is
/// five upper-case letters or digits, `DATABASE_FAILURE` for any other code or none.
pub open spec fn failure_code_spec(code: Option<Seq<char>>) -> Seq<char> {
    match code {
        Some(text) => if text.len() == 5 && forall|i: int| 0 <= i < 5 ==> sqlstate_char(#[trigger] text[i]) {
            "SQLSTATE_"@ + text
        } else {
            "DATABASE_FAILURE"@
        },
        None => "DATABASE_FAILURE"@,
    }
}

/// The heartbeat's failure code for a database error carrying `code`, if any.
pub fn failure_code_of(code: Option<&str>) -> (r: String)
    ensures
        r@ == failure_code_spec(match code { Some(c) => Some(c@), None => None }),
{
    let text = match code {
        Some(text) => text,
        None => return String::from_str("DATABASE_FAILURE"),
    };
    if text.unicode_len() != 5 {
        return String::from_str("DATABASE_FAILURE");
    }
    let mut i: usize = 0;
    while i < 5
        invariant
            code == Some(text),
            text@.len() == 5,
            i <= 5,
            forall|k: int| 0 <= k < i ==> sqlstate_char(#[trigger] text@[k]),
        decreases 5 - i,
    {
        let c = text.get_char(i);
        if !(('A' <= c && c <= 'Z') || ('0' <= c && c <= '9')) {
            assert(!sqlstate_char(text@[i as int]));
            return String::from_str("DATABASE_FAILURE");
        }
        i = i + 1;
    }
    String::from_str("SQLSTATE_").concat(text)
}

/// What the worker does with a claimed event.
#[derive(Clone, Copy, Debug)]
pub enum Delivery {
    /// Dead-letter the event, recording the detail.
    DeadLetter(&'static str),
    /// Return the event to the queue after its retry delay, recording the detail.
    Retry(&'static str),
    /// Execute the deployment.
    Execute,
    /// Complete the deployment's running attempt.
    Complete,
}

/// The detail of a rejected mode.
pub open spec fn unrecognized_mode() -> Seq<char> {
    "The local worker rejected an unrecognized event mode."@
}

/// How a claimed event is delivered: a retry, poison or invalid mode, or an event of no type, is
/// retried until its delivery count reaches the maximum and dead-lettered then (an invalid mode
/// records that it was rejected, the others that they were isolated or will retry); an
/// `EXECUTE_DEPLOYMENT` event executes, a `COMPLETE_DEPLOYMENT` event completes, and any other type
/// is dead-lettered as unrecognized.
pub open spec fn delivery_spec(mode: WorkerMode, event_type: Option<Seq<char>>, attempt_count: i32) -> (Seq<char>, Seq<char>) {
    // The first component names the action, the second its detail.
    if mode is Retry || mode is Poison || mode is Invalid || event_type is None {
        if attempt_count >= MAX_WORKER_DELIVERIES {
            ("DEAD_LETTER"@, if mode is Invalid { unrecognized_mode() } else { "The local worker isolated a poison event."@ })
        } else {
            ("RETRY"@, if mode is Invalid { unrecognized_mode() } else { "The local worker will retry this event."@ })
        }
    } else if event_type->0 == "EXECUTE_DEPLOYMENT"@ {
        ("EXECUTE"@, Seq::empty())
    } else if event_type->0 == "COMPLETE_DEPLOYMENT"@ {
        ("COMPLETE"@, Seq::empty())
    } else {
        ("DEAD_LETTER"@, "The local worker rejected an unrecognized event type."@)
    }
}

/// The action and detail of a delivery, as `delivery_spec` names them.
pub open spec fn delivery_view(d: Delivery) -> (Seq<char>, Seq<char>) {
    match d {
        Delivery::DeadLetter(detail) => ("DEAD_LETTER"@, detail@),
        Delivery::Retry(detail) => ("RETRY"@, detail@),
        Delivery::Execute => ("EXECUTE"@, Seq::empty()),
        Delivery::Complete => ("COMPLETE"@, Seq::empty()),
    }
}

/// How a claimed event is delivered.
pub fn deliver_next(mode: WorkerMode, event_type: Option<&str>, attempt_count: i32) -> (r: Delivery)
    ensures
        delivery_view(r) == delivery_spec(mode, match event_type { Some(t) => Some(t@), None => None }, attempt_count),
{
    if mode == WorkerMode::Retry || mode == WorkerMode::Poison || mode == WorkerMode::Invalid || event_type.is_none() {
        if attempt_count >= MAX_WORKER_DELIVERIES {
            return Delivery::DeadLetter(
                if mode == WorkerMode::Invalid {
                    "The local worker rejected an unrecognized event mode."
                } else {
                    "The local worker isolated a poison event."
                },
            );
        }
        return Delivery::Retry(
            if mode == WorkerMode::Invalid {
                "The local worker rejected an unrecognized event mode."
            } else {
                "The local worker will retry this event."
            },
        );
    }
    let kind = match event_type {
        Some(kind) => kind,
        None => return Delivery::Execute,
    };
    if str_equal(kind, "EXECUTE_DEPLOYMENT") {
        Delivery::Execute
    } else if str_equal(kind, "COMPLETE_DEPLOYMENT") {
        Delivery::Complete
    } else {
        Delivery::DeadLetter("The local worker rejected an unrecognized event type.")
    }
}

/// The retry delay in seconds: doubling from one second with each delivery, capped at 30.
pub open spec fn retry_delay_spec(attempt_count: i32) -> int {
    let exponent = if attempt_count <= 1 { 0 } else if attempt_count >= 6 { 5 } else { attempt_count - 1 };
    if pow2(exponent as nat) < 30 { pow2(exponent as nat) as int } else { 30 }
}

/// The retry delay in seconds of an event on its `attempt_count`-th delivery.
pub fn retry_delay_seconds(attempt_count: i32) -> (r: i64)
    ensures
        r == retry_delay_spec(attempt_count),
{
    proof { lemma2_to64(); }
    let exponent: i32 = if attempt_count <= 1 { 0 } else if attempt_count >= 6 { 5 } else { attempt_count - 1 };
    let delay: i64 = match exponent {
        0 => 1,
        1 => 2,
        2 => 4,
        3 => 8,
        4 => 16,
        _ => 32,
    };
    if delay < 30 { delay } else { 30 }
}

/// The low 64 bits of an identifier read as a signed integer, as `Uuid::as_u64_pair().1 as i64`
/// takes them.
pub open spec fn low_signed(id: u128) -> int {
    let low: int = id as int % 0x1_0000_0000_0000_0000;
    if low >= 0x8000_0000_0000_0000 { low - 0x1_0000_0000_0000_0000 } else { low }
}

/// The jitter in milliseconds added to a retry: the low half of the event's identifier, as a
/// signed integer, taken modulo 250 (never negative).
pub open spec fn retry_jitter_spec(id: u128) -> int {
    low_signed(id) % 250
}

/// The jitter in milliseconds added to an event's retry.
pub fn retry_jitter_millis(id: u128) -> (r: i64)
    ensures
        r == retry_jitter_spec(id),
        0 <= r < 250,
{
    let low: u128 = id % 0x1_0000_0000_0000_0000u128;
    if low < 0x8000_0000_0000_0000u128 {
        (low % 250) as i64
    } else {
        let magnitude: u128 = 0x1_0000_0000_0000_0000u128 - low;
        let rest: u128 = magnitude % 250;
        let r: i64 = if rest == 0 { 0 } else { (250 - rest) as i64 };
        proof {
            let q = magnitude as int / 250;
            vstd::arithmetic::div_mod::lemma_fundamental_div_mod(magnitude as int, 250);
            if rest == 0 {
                vstd::arithmetic::div_mod::lemma_fundamental_div_mod_converse(
                    low_signed(id), 250, -q, 0,
                );
            } else {
                vstd::arithmetic::div_mod::lemma_fundamental_div_mod_converse(
                    low_signed(id), 250, -q - 1, 250 - rest,
                );
            }
        }
        r
    }
}

/// How long a retried event waits before it is available again, in milliseconds: its backoff
/// delay in seconds and the jitter its identifier fixes.
pub fn retry_backoff_millis(attempt_count: i32, id: u128) -> (r: i64)
    ensures
        r == retry_delay_spec(attempt_count) * 1000 + retry_jitter_spec(id),
{
    let delay = retry_delay_seconds(attempt_count);
    proof { retry_delay_backs_off(attempt_count, attempt_count); }
    delay * 1000 + retry_jitter_millis(id)
}

/// Whether an event finds its deployment's approval handoff still to establish: no requirement
/// yet, or a pending one.
pub fn approval_handoff_pending(requirement: Option<crate::lifecycle::RequirementStatus>) -> (r: bool)
    ensures
        r == match requirement {
            None => true,
            Some(status) => status is Pending,
        },
{
    match requirement {
        None => true,
        Some(status) => status == crate::lifecycle::RequirementStatus::Pending,
    }
}

/// The facts `execute` decides on, read under the deployment's row lock after any pending
/// handoff was attempted.
pub struct ExecuteFacts {
    /// The deployment's lifecycle, or nothing when it is gone.
    pub lifecycle: Option<Lifecycle>,
    /// The deployment's project is active.
    pub project_active: bool,
    /// The deployment is `APPROVED` with a satisfied requirement.
    pub approved_handoff: bool,
    /// This worker is a ready, approval-compatible worker with a fresh heartbeat.
    pub compatible_worker: bool,
    /// The deployment may execute (`approval_execution_eligible`).
    pub eligible: bool,
    /// Its approval handoff is still to establish.
    pub handoff_pending: bool,
}

/// What `execute` does with an `EXECUTE_DEPLOYMENT` event.
#[derive(PartialEq, Eq, Structural, Clone, Copy, Debug)]
pub enum ExecuteAction {
    /// Mark the event delivered, with nothing to execute.
    Deliver,
    /// Block the deployment's execution, then mark the event delivered.
    BlockAndDeliver,
    /// Return the event to the compatible-worker gate.
    DeferIncompatible,
    /// Return the event until its handoff is established.
    DeferPending,
    /// Start the execution: a running attempt, `IN_PROGRESS`, the first stages, and a
    /// `COMPLETE_DEPLOYMENT` event in the same mode.
    Start,
}

/// `execute` delivers an event whose deployment is gone or no longer waits to execute; blocks one
/// whose project is not active; returns an approved handoff claimed by an incompatible worker;
/// returns an ineligible one whose handoff is still to establish and blocks any other ineligible
/// one; and starts the rest.
pub open spec fn execute_spec(f: ExecuteFacts) -> ExecuteAction {
    match f.lifecycle {
        None => ExecuteAction::Deliver,
        Some(lifecycle) => if !awaits_execution(lifecycle) {
            ExecuteAction::Deliver
        } else if !f.project_active {
            ExecuteAction::BlockAndDeliver
        } else if f.approved_handoff && !f.compatible_worker {
            ExecuteAction::DeferIncompatible
        } else if !f.eligible {
            if f.handoff_pending {
                ExecuteAction::DeferPending
            } else {
                ExecuteAction::BlockAndDeliver
            }
        } else {
            ExecuteAction::Start
        },
    }
}

/// What `execute` does with an `EXECUTE_DEPLOYMENT` event.
pub fn execute(f: &ExecuteFacts) -> (r: ExecuteAction)
    ensures
        r == execute_spec(*f),
{
    let lifecycle = match f.lifecycle {
        None => return ExecuteAction::Deliver,
        Some(lifecycle) => lifecycle,
    };
    if !lifecycle.awaits_execution() {
        return ExecuteAction::Deliver;
    }
    if !f.project_active {
        return ExecuteAction::BlockAndDeliver;
    }
    if f.approved_handoff && !f.compatible_worker {
        return ExecuteAction::DeferIncompatible;
    }
    if !f.eligible {
        return if f.handoff_pending {
            ExecuteAction::DeferPending
        } else {
            ExecuteAction::BlockAndDeliver
        };
    }
    ExecuteAction::Start
}

/// What completing a running attempt records.
#[derive(Clone, Copy, Debug)]
pub struct Completion {
    /// The attempt failed (it succeeded otherwise).
    pub failed: bool,
    pub failure_code: Option<&'static str>,
    pub failure_summary: Option<&'static str>,
    pub stage: &'static str,
    pub stage_status: &'static str,
    pub stage_summary: &'static str,
    /// The lifecycle the deployment moves to.
    pub lifecycle: Lifecycle,
    /// The runtime health status and summary.
    pub health: &'static str,
    pub health_summary: &'static str,
    /// The audit action.
    pub audit_action: &'static str,
}

/// Whether `complete` finishes the deployment's attempt: only a deployment that still exists, has
/// a current attempt and is `IN_PROGRESS`; any other event is only marked delivered.
pub fn completes(lifecycle: Option<Lifecycle>, has_attempt: bool) -> (r: bool)
    ensures
        r == (lifecycle == Some(Lifecycle::InProgress) && has_attempt),
{
    match lifecycle {
        Some(Lifecycle::InProgress) => has_attempt,
        _ => false,
    }
}

/// What completing an attempt in `mode` records: a `FAILURE` mode fails it, with the fixture's
/// failure code and summary, a `FAILED` stage, a `FAILED` deployment and an unhealthy runtime;
/// any other mode succeeds it, with a `COMPLETED` stage, an `ACTIVE` deployment and a healthy one.
pub fn completion(mode: WorkerMode) -> (r: Completion)
    ensures
        r.failed == (mode is Failure),
        r.failed ==> {
            &&& r.lifecycle == Lifecycle::Failed
            &&& r.failure_code matches Some(code) && code@ == "LOCAL_EXECUTION_FAILED"@
            &&& r.failure_summary matches Some(summary)
                && summary@ == "The local execution fixture reported a failure. Review the stage timeline."@
            &&& r.stage@ == "FAILED"@ && r.stage_status@ == "FAILED"@
            &&& r.stage_summary@ == "The local fixture ended with a sanitized failure."@
            &&& r.health@ == "UNHEALTHY"@
            &&& r.health_summary@ == "The local execution did not produce a healthy runtime."@
            &&& r.audit_action@ == "EXECUTION_FAILED"@
        },
        !r.failed ==> {
            &&& r.lifecycle == Lifecycle::Active
            &&& r.failure_code is None && r.failure_summary is None
            &&& r.stage@ == "COMPLETED"@ && r.stage_status@ == "SUCCEEDED"@
            &&& r.stage_summary@ == "The local execution completed successfully."@
            &&& r.health@ == "HEALTHY"@
            &&& r.health_summary@ == "The deterministic local runtime is healthy."@
            &&& r.audit_action@ == "EXECUTION_SUCCEEDED"@
        },
{
    if mode == WorkerMode::Failure {
        Completion {
            failed: true,
            failure_code: Some("LOCAL_EXECUTION_FAILED"),
            failure_summary: Some("The local execution fixture reported a failure. Review the stage timeline."),
            stage: "FAILED",
            stage_status: "FAILED",
            stage_summary: "The local fixture ended with a sanitized failure.",
            lifecycle: Lifecycle::Failed,
            health: "UNHEALTHY",
            health_summary: "The local execution did not produce a healthy runtime.",
            audit_action: "EXECUTION_FAILED",
        }
    } else {
        Completion {
            failed: false,
            failure_code: None,
            failure_summary: None,
            stage: "COMPLETED",
            stage_status: "SUCCEEDED",
            stage_summary: "The local execution completed successfully.",
            lifecycle: Lifecycle::Active,
            health: "HEALTHY",
            health_summary: "The deterministic local runtime is healthy.",
            audit_action: "EXECUTION_SUCCEEDED",
        }
    }
}

/// Whether dead-lettering an event also fails its deployment: only a deployment that still exists
/// and has not reached a terminal lifecycle.
pub fn dead_letter_fails_deployment(lifecycle: Option<Lifecycle>) -> (r: bool)
    ensures
        r == match lifecycle {
            Some(status) => !is_terminal(status),
            None => false,
        },
{
    match lifecycle {
        Some(status) => !status.is_terminal(),
        None => false,
    }
}

/// A failed delivery that the worker recovers in a fresh transaction is dead-lettered once its
/// delivery count reaches the maximum and retried before that; the audit it owes names which.
pub fn recovered_delivery_audit(attempt_count: i32) -> (r: (bool, &'static str))
    ensures
        r.0 == (attempt_count >= MAX_WORKER_DELIVERIES),
        r.1@ == if r.0 { "OUTBOX_DEAD_LETTERED"@ } else { "OUTBOX_DELIVERY_RETRIED"@ },
{
    if attempt_count >= MAX_WORKER_DELIVERIES {
        (true, "OUTBOX_DEAD_LETTERED")
    } else {
        (false, "OUTBOX_DELIVERY_RETRIED")
    }
}

/// A new attempt of a deployment.
#[derive(Clone, Copy, Debug)]
pub struct NewAttempt {
    /// One more than the deployment's latest attempt number, or 1 for its first.
    pub number: i32,
    /// The attempt is recorded as already failed (a poisoned event), or as running.
    pub failed: bool,
    pub failure_code: Option<&'static str>,
}

/// The attempt `insert_attempt` records: numbered after the latest, failed with the poison code
/// when a failure summary is given, running otherwise.
pub fn new_attempt(latest: Option<i32>, failed: bool) -> (r: NewAttempt)
    requires
        match latest { Some(n) => n < i32::MAX, None => true },
    ensures
        r.number == match latest { Some(n) => n + 1, None => 1 },
        r.failed == failed,
        failed ==> (r.failure_code matches Some(code) && code@ == "LOCAL_OUTBOX_POISON"@),
        !failed ==> r.failure_code is None,
{
    NewAttempt {
        number: match latest {
            Some(n) => n + 1,
            None => 1,
        },
        failed,
        failure_code: if failed { Some("LOCAL_OUTBOX_POISON") } else { None },
    }
}

/// The heartbeat row a worker writes.
pub struct Heartbeat {
    /// The worker's identifier, trimmed.
    pub worker_id: String,
    /// The deliveries of its last batch, never negative.
    pub last_batch_deliveries: i32,
    /// How many queued events the bounded read found.
    pub pending_events: i32,
    /// The earliest availability among them (nanoseconds since the Unix epoch).
    pub oldest_pending_at: Option<i64>,
    /// `READY` (or `DEGRADED`).
    pub ready: bool,
    pub failure_code: Option<String>,
}

/// The smallest of a list of instants, if any.
pub open spec fn earliest(values: Seq<i64>) -> Option<i64>
    decreases values.len(),
{
    if values.len() == 0 {
        None
    } else {
        match earliest(values.drop_last()) {
            Some(m) => Some(if values.last() < m { values.last() } else { m }),
            None => Some(values.last()),
        }
    }
}

/// The heartbeat a worker writes from its report and the availability of the queued events the
/// bounded read found: its trimmed identifier, its deliveries (never negative), how many events are
/// queued and the earliest of them.
pub fn write_worker_heartbeat(worker: &str, delivered: i32, ready: bool, failure_code: Option<&str>, queued: &Vec<i64>) -> (r: Heartbeat)
    ensures
        r.worker_id@ == trimmed(worker@),
        r.last_batch_deliveries == if delivered > 0 { delivered } else { 0 },
        r.pending_events == if queued@.len() <= i32::MAX { queued@.len() as int } else { i32::MAX as int },
        r.oldest_pending_at == earliest(queued@),
        r.ready == ready,
        match r.failure_code { Some(t) => Some(t@), None => None } == match failure_code { Some(c) => Some(c@), None => None },
{
    let mut oldest: Option<i64> = None;
    let mut i: usize = 0;
    while i < queued.len()
        invariant
            i <= queued@.len(),
            oldest == earliest(queued@.take(i as int)),
        decreases queued@.len() - i,
    {
        assert(queued@.take(i as int + 1).drop_last() =~= queued@.take(i as int));
        let value = queued[i];
        oldest = match oldest {
            Some(m) => Some(if value < m { value } else { m }),
            None => Some(value),
        };
        i = i + 1;
    }
    assert(queued@.take(queued@.len() as int) =~= queued@);
    let pending: i32 = if queued.len() <= 2147483647usize { queued.len() as i32 } else { 2147483647 };
    Heartbeat {
        worker_id: String::from_str(trim(worker)),
        last_batch_deliveries: if delivered > 0 { delivered } else { 0 },
        pending_events: pending,
        oldest_pending_at: oldest,
        ready,
        failure_code: match failure_code {
            Some(code) => Some(String::from_str(code)),
            None => None,
        },
    }
}

/// The failure a heartbeat reports: when the worker reports ready with no failure of its own, a
/// sticky maintenance failure first, then a failed audit repair; otherwise the worker's own.
pub open spec fn reported_failure_spec(
    ready: bool,
    failure_code: Option<Seq<char>>,
    maintenance_failed: bool,
    recovery_failed: bool,
) -> Option<Seq<char>> {
    if ready && failure_code is None && maintenance_failed {
        Some("APPROVAL_MAINTENANCE_FAILED"@)
    } else if ready && failure_code is None && recovery_failed {
        Some("OUTBOX_RECOVERY_AUDIT_FAILED"@)
    } else {
        failure_code
    }
}

/// The failure a heartbeat reports, and whether it reports ready: only a ready worker with no
/// failure to report is ready.
pub fn record_worker_heartbeat<'a>(
    ready: bool,
    failure_code: Option<&'a str>,
    maintenance_failed: bool,
    recovery_failed: bool,
) -> (r: (bool, Option<&'a str>))
    ensures
        match r.1 { Some(t) => Some(t@), None => None } == reported_failure_spec(
            ready,
            match failure_code { Some(c) => Some(c@), None => None },
            maintenance_failed,
            recovery_failed,
        ),
        r.0 == (ready && r.1 is None),
{
    let reported: Option<&'a str> = if ready && failure_code.is_none() && maintenance_failed {
        Some("APPROVAL_MAINTENANCE_FAILED")
    } else if ready && failure_code.is_none() && recovery_failed {
        Some("OUTBOX_RECOVERY_AUDIT_FAILED")
    } else {
        failure_code
    };
    (ready && reported.is_none(), reported)
}

/// The heartbeat after an opportunistic maintenance pass: ready only when the expiry pass was
/// healthy and every handoff release succeeded, `APPROVAL_MAINTENANCE_FAILED` otherwise.
pub fn maintenance_report(expiry_healthy: bool, handoffs_released: bool) -> (r: (bool, Option<&'static str>))
    ensures
        r.0 == (expiry_healthy && handoffs_released),
        match r.1 { Some(t) => Some(t@), None => None } == if r.0 { None } else { Some("APPROVAL_MAINTENANCE_FAILED"@) },
{
    let succeeded = expiry_healthy && handoffs_released;
    (succeeded, if succeeded { None } else { Some("APPROVAL_MAINTENANCE_FAILED") })
}

/// The rate gate of the opportunistic maintenance pass: due once the clock (milliseconds) reaches
/// the scheduled instant, which then moves one second past now.
pub fn approval_maintenance_due(now: i64, scheduled: i64) -> (r: Option<i64>)
    requires
        now <= i64::MAX - 1_000,
    ensures
        r == if now >= scheduled { Some((now + 1_000) as i64) } else { None::<i64> },
{
    if now >= scheduled {
        Some(now + 1_000)
    } else {
        None
    }
}

/// Whether a worker's stored heartbeat already reports a sticky maintenance failure: `DEGRADED`
/// with the `APPROVAL_MAINTENANCE_FAILED` code.
pub fn approval_maintenance_failed(ready: bool, failure_code: Option<&str>) -> (r: bool)
    ensures
        r == (!ready && match failure_code {
            Some(code) => code@ == "APPROVAL_MAINTENANCE_FAILED"@,
            None => false,
        }),
{
    if ready {
        return false;
    }
    match failure_code {
        Some(code) => str_equal(code, "APPROVAL_MAINTENANCE_FAILED"),
        None => false,
    }
}

/// The retry schedule backs off and is capped: a later delivery never waits less than an earlier
/// one, the first waits one second, and none waits more than 30.
pub proof fn retry_delay_backs_off(earlier: i32, later: i32)
    requires
        earlier <= later,
    ensures
        retry_delay_spec(earlier) <= retry_delay_spec(later),
        1 <= retry_delay_spec(earlier) <= 30,
        earlier <= 1 ==> retry_delay_spec(earlier) == 1,
{
    lemma2_to64();
}

/// A claimed event is retried only while its delivery count is below the maximum: at or past it,
/// every delivery either dead-letters the event or acts on it, so no event is retried forever.
pub proof fn deliveries_stop_retrying_at_the_limit(mode: WorkerMode, event_type: Option<Seq<char>>, attempt_count: i32)
    requires
        attempt_count >= MAX_WORKER_DELIVERIES,
    ensures
        delivery_spec(mode, event_type, attempt_count).0 != "RETRY"@,
{
    reveal_strlit("RETRY");
    reveal_strlit("DEAD_LETTER");
    reveal_strlit("EXECUTE");
    reveal_strlit("COMPLETE");
    assert("RETRY"@[0] == 'R');
    assert("DEAD_LETTER"@[0] == 'D');
    assert("EXECUTE"@[0] == 'E');
    assert("COMPLETE"@[0] == 'C');
}

/// A claimed event executes or completes its deployment only when its mode names an outcome and
/// its type names that step; an event with a retry, poison or invalid mode, or with no type, is
/// retried while its delivery count is below the maximum.
pub proof fn deliveries_act_only_on_their_own_step(mode: WorkerMode, event_type: Option<Seq<char>>, attempt_count: i32)
    ensures
        delivery_spec(mode, event_type, attempt_count).0 == "EXECUTE"@ ==> (mode is Success || mode is Failure)
            && event_type == Some("EXECUTE_DEPLOYMENT"@),
        delivery_spec(mode, event_type, attempt_count).0 == "COMPLETE"@ ==> (mode is Success || mode is Failure)
            && event_type == Some("COMPLETE_DEPLOYMENT"@),
        (mode is Retry || mode is Poison || mode is Invalid || event_type is None) && attempt_count < MAX_WORKER_DELIVERIES
            ==> delivery_spec(mode, event_type, attempt_count).0 == "RETRY"@,
{
    reveal_strlit("RETRY");
    reveal_strlit("DEAD_LETTER");
    reveal_strlit("EXECUTE");
    reveal_strlit("COMPLETE");
    assert("RETRY"@[0] == 'R');
    assert("DEAD_LETTER"@[0] == 'D');
    assert("EXECUTE"@[0] == 'E');
    assert("COMPLETE"@[0] == 'C');
}

} // verus!
