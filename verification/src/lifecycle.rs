//! The deployment lifecycle and the approval-requirement statuses, with the predicates every rule
//! reads from them.

use vstd::prelude::*;

verus! {

/// The lifecycle status of a deployment.
#[derive(PartialEq, Eq, Structural, Clone, Copy, Debug)]
pub enum Lifecycle {
    Requested,
    AwaitingApproval,
    Approved,
    InProgress,
    Active,
    Failed,
    Canceled,
    RolledBack,
}

/// A status no further transition leaves.
pub open spec fn is_terminal(status: Lifecycle) -> bool {
    status is Failed || status is Canceled || status is RolledBack
}

/// A status a cancel command may still terminalize: anything before the deployment became
/// active or reached a terminal status.
pub open spec fn is_cancellable(status: Lifecycle) -> bool {
    status is Requested || status is AwaitingApproval || status is Approved || status is InProgress
}

/// A status that waits for the worker to execute it.
pub open spec fn awaits_execution(status: Lifecycle) -> bool {
    status is Requested || status is Approved
}

/// A status past the approval stage: executing, executed, or terminal.
pub open spec fn has_started_execution(status: Lifecycle) -> bool {
    status is InProgress || status is Active || status is Failed || status is Canceled
        || status is RolledBack
}

impl Lifecycle {
    /// Whether no further transition leaves this status.
    pub fn is_terminal(&self) -> (r: bool)
        ensures
            r == is_terminal(*self),
    {
        matches!(self, Lifecycle::Failed | Lifecycle::Canceled | Lifecycle::RolledBack)
    }

    /// Whether a cancel command may still terminalize this status.
    pub fn is_cancellable(&self) -> (r: bool)
        ensures
            r == is_cancellable(*self),
    {
        matches!(
            self,
            Lifecycle::Requested | Lifecycle::AwaitingApproval | Lifecycle::Approved
                | Lifecycle::InProgress
        )
    }

    /// Whether this status waits for the worker to execute it.
    pub fn awaits_execution(&self) -> (r: bool)
        ensures
            r == awaits_execution(*self),
    {
        matches!(self, Lifecycle::Requested | Lifecycle::Approved)
    }

    /// Whether this status is past the approval stage.
    pub fn has_started_execution(&self) -> (r: bool)
        ensures
            r == has_started_execution(*self),
    {
        matches!(
            self,
            Lifecycle::InProgress | Lifecycle::Active | Lifecycle::Failed | Lifecycle::Canceled
                | Lifecycle::RolledBack
        )
    }

    /// The stored spelling of the status.
    pub fn as_str(&self) -> (r: &'static str)
        ensures
            r@ == lifecycle_text(*self),
    {
        match self {
            Lifecycle::Requested => "REQUESTED",
            Lifecycle::AwaitingApproval => "AWAITING_APPROVAL",
            Lifecycle::Approved => "APPROVED",
            Lifecycle::InProgress => "IN_PROGRESS",
            Lifecycle::Active => "ACTIVE",
            Lifecycle::Failed => "FAILED",
            Lifecycle::Canceled => "CANCELED",
            Lifecycle::RolledBack => "ROLLED_BACK",
        }
    }
}

/// The stored spelling of a lifecycle status.
pub open spec fn lifecycle_text(status: Lifecycle) -> Seq<char> {
    match status {
        Lifecycle::Requested => "REQUESTED"@,
        Lifecycle::AwaitingApproval => "AWAITING_APPROVAL"@,
        Lifecycle::Approved => "APPROVED"@,
        Lifecycle::InProgress => "IN_PROGRESS"@,
        Lifecycle::Active => "ACTIVE"@,
        Lifecycle::Failed => "FAILED"@,
        Lifecycle::Canceled => "CANCELED"@,
        Lifecycle::RolledBack => "ROLLED_BACK"@,
    }
}

/// The status of a deployment's approval requirement.
#[derive(PartialEq, Eq, Structural, Clone, Copy, Debug)]
pub enum RequirementStatus {
    Pending,
    Satisfied,
    Rejected,
    Expired,
    Invalidated,
}

impl RequirementStatus {
    /// The stored spelling of the status.
    pub fn as_str(&self) -> (r: &'static str)
        ensures
            r@ == requirement_status_text(*self),
    {
        match self {
            RequirementStatus::Pending => "PENDING",
            RequirementStatus::Satisfied => "SATISFIED",
            RequirementStatus::Rejected => "REJECTED",
            RequirementStatus::Expired => "EXPIRED",
            RequirementStatus::Invalidated => "INVALIDATED",
        }
    }
}

/// The stored spelling of a requirement status.
pub open spec fn requirement_status_text(status: RequirementStatus) -> Seq<char> {
    match status {
        RequirementStatus::Pending => "PENDING"@,
        RequirementStatus::Satisfied => "SATISFIED"@,
        RequirementStatus::Rejected => "REJECTED"@,
        RequirementStatus::Expired => "EXPIRED"@,
        RequirementStatus::Invalidated => "INVALIDATED"@,
    }
}

/// The status the approval surface reports: the stored status, with a `PENDING` requirement
/// whose expiry has passed at `now` reported as `EXPIRED`.
pub open spec fn projected(status: RequirementStatus, expires_at: i64, now: i64) -> RequirementStatus {
    if status is Pending && expires_at <= now {
        RequirementStatus::Expired
    } else {
        status
    }
}

/// The status the approval surface reports at `now`.
pub fn projected_status(status: RequirementStatus, expires_at: i64, now: i64) -> (r: RequirementStatus)
    ensures
        r == projected(status, expires_at, now),
{
    if status == RequirementStatus::Pending && expires_at <= now {
        RequirementStatus::Expired
    } else {
        status
    }
}

} // verus!
