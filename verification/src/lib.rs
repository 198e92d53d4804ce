//! The decision layer of Hive's deployment persistence: the approval-cycle rules, the evidence and
//! frozen-policy checks, the lifecycle gates of the deployment mutations, the outbox worker's
//! delivery decisions, the computed fields of the deployment objects and the approval cursors,
//! each stated over plain values and proved.

pub mod text;
pub mod ids;
pub mod json;
pub mod evidence;
pub mod lifecycle;
pub mod rows;
pub mod clock;
pub mod approval;
pub mod mutations;
pub mod decisions;
pub mod decision_flow;
pub mod worker;
pub mod computed;
pub mod cursors;
