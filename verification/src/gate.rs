//! The dependency gate: a reusable wait-for-parent-readiness primitive.
//!
//! A child resource that needs its parent on the Cloudflare side checks
//! the parent object before mutating anything upstream: a missing parent
//! blocks with a short retry, a parent that is not yet ready blocks with
//! a longer one, and only a ready parent lets the mutation proceed.

use vstd::prelude::*;

verus! {

use vstd::string::StringExecFns;

/// What the lookup of the parent object found.
#[derive(Clone, Debug, PartialEq, Eq)]
pub enum ParentState {
    /// The parent object does not exist.
    Missing,
    /// The parent exists but its status does not mark it ready.
    NotReady,
    /// The parent exists and is ready.
    Ready,
}

/// Seconds until retry when the parent object is missing.
pub const DEPENDENCY_MISSING_REQUEUE_SECS: u64 = 30;

/// Seconds until retry while the parent is not ready, and after a failed
/// upstream create.
pub const DEPENDENCY_WAIT_REQUEUE_SECS: u64 = 60;

/// The status error written while the parent object is missing.
pub open spec fn missing_message(kind: Seq<char>, name: Seq<char>) -> Seq<char> {
    "dependency "@ + kind + "/"@ + name + " not found"@
}

/// The status error written while the parent is not ready.
pub open spec fn not_ready_message(kind: Seq<char>, name: Seq<char>) -> Seq<char> {
    "dependency "@ + kind + "/"@ + name + " is not ready"@
}

/// What the dependency check decides.
#[derive(Clone, Debug, PartialEq, Eq)]
pub enum GateOutcome {
    /// The parent is ready: perform the upstream mutation.
    Proceed,
    /// Wait: surface this error in the object's status and retry after
    /// the given seconds.
    Block { error: String, requeue_secs: u64 },
}

/// Decides from the parent's state whether the child may mutate upstream
/// state, and with which error and retry interval it waits otherwise.
pub fn dependency_gate(parent_kind: &str, parent_name: &String, state: &ParentState) -> (r:
    GateOutcome)
    ensures
        match state {
            ParentState::Ready => r == GateOutcome::Proceed,
            ParentState::Missing => {
                &&& r matches GateOutcome::Block { error, requeue_secs } && error@
                    == missing_message(parent_kind@, parent_name@) && requeue_secs
                    == DEPENDENCY_MISSING_REQUEUE_SECS
            },
            ParentState::NotReady => {
                &&& r matches GateOutcome::Block { error, requeue_secs } && error@
                    == not_ready_message(parent_kind@, parent_name@) && requeue_secs
                    == DEPENDENCY_WAIT_REQUEUE_SECS
            },
        },
{
    match state {
        ParentState::Ready => GateOutcome::Proceed,
        ParentState::Missing => {
            let mut error = String::from_str("dependency ");
            error.append(parent_kind);
            error.append("/");
            error.append(parent_name.as_str());
            error.append(" not found");
            GateOutcome::Block { error, requeue_secs: DEPENDENCY_MISSING_REQUEUE_SECS }
        },
        ParentState::NotReady => {
            let mut error = String::from_str("dependency ");
            error.append(parent_kind);
            error.append("/");
            error.append(parent_name.as_str());
            error.append(" is not ready");
            GateOutcome::Block { error, requeue_secs: DEPENDENCY_WAIT_REQUEUE_SECS }
        },
    }
}

} // verus!
