//! The finalizer protocol: the state machine that gates apply and
//! cleanup, and the notification published on deletion.
//!
//! Every watched object carries a kind-specific finalizer marker. An
//! object that is not being deleted first acquires the marker, and only
//! then does apply logic run; an object with a deletion timestamp runs
//! cleanup while the marker is present, and the marker is removed, and
//! with it the object released for deletion, only after cleanup reports
//! success.

use vstd::prelude::*;

verus! {

use crate::{Action, Error};
use vstd::string::StringExecFns;

/// The finalizer marker of Zone objects.
pub fn zone_finalizer() -> (r: String)
    ensures
        r@ == "zone.cloudflare.com"@,
{
    String::from_str("zone.cloudflare.com")
}

/// The finalizer marker of DNSRecord objects.
pub fn dns_record_finalizer() -> (r: String)
    ensures
        r@ == "dnsrecord.cloudflare.com"@,
{
    String::from_str("dnsrecord.cloudflare.com")
}

/// What one reconcile invocation does with an object, decided from its
/// deletion timestamp and the presence of the finalizer marker.
#[derive(Clone, Copy, Debug, PartialEq, Eq)]
pub enum FinalizerStep {
    /// Not deleted, marker absent: add the marker before any apply runs.
    AddFinalizer,
    /// Not deleted, marker present: run the apply logic.
    RunApply,
    /// Deleted, marker present: run the cleanup logic.
    RunCleanup,
    /// Deleted, marker already gone: nothing to do.
    Ignore,
}

pub open spec fn spec_finalizer_step(has_finalizer: bool, deletion_pending: bool) -> FinalizerStep {
    if deletion_pending {
        if has_finalizer {
            FinalizerStep::RunCleanup
        } else {
            FinalizerStep::Ignore
        }
    } else {
        if has_finalizer {
            FinalizerStep::RunApply
        } else {
            FinalizerStep::AddFinalizer
        }
    }
}

/// Resolves one reconcile invocation of the finalizer protocol.
pub fn finalizer_step(has_finalizer: bool, deletion_pending: bool) -> (r: FinalizerStep)
    ensures
        r == spec_finalizer_step(has_finalizer, deletion_pending),
{
    if deletion_pending {
        if has_finalizer {
            FinalizerStep::RunCleanup
        } else {
            FinalizerStep::Ignore
        }
    } else {
        if has_finalizer {
            FinalizerStep::RunApply
        } else {
            FinalizerStep::AddFinalizer
        }
    }
}

/// What to do with the finalizer marker once cleanup has run.
#[derive(Clone, Debug, PartialEq, Eq)]
pub enum CleanupResolution {
    /// Cleanup succeeded: remove the marker and let deletion complete,
    /// then perform the returned action.
    RemoveFinalizer(Action),
    /// Cleanup failed: keep the marker and retry with this error.
    Retry(Error),
}

pub open spec fn spec_after_cleanup(outcome: Result<Action, Error>) -> CleanupResolution {
    match outcome {
        Ok(a) => CleanupResolution::RemoveFinalizer(a),
        Err(e) => CleanupResolution::Retry(e),
    }
}

/// Decides from the cleanup outcome whether the finalizer marker may be
/// removed: only a confirmed cleanup releases the object.
pub fn after_cleanup(outcome: Result<Action, Error>) -> (r: CleanupResolution)
    ensures
        r == spec_after_cleanup(outcome),
{
    match outcome {
        Ok(a) => CleanupResolution::RemoveFinalizer(a),
        Err(e) => CleanupResolution::Retry(e),
    }
}

/// Law: the finalizer protocol. Apply logic never runs without the
/// marker present; an object that is not being deleted and lacks the
/// marker acquires it first; cleanup runs exactly on a deleted object
/// that still carries the marker; and the marker is removed only after
/// a successful cleanup.
pub proof fn lemma_finalizer_protocol(
    has_finalizer: bool,
    deletion_pending: bool,
    outcome: Result<Action, Error>,
)
    ensures
        spec_finalizer_step(has_finalizer, deletion_pending) == FinalizerStep::RunApply
            ==> has_finalizer,
        !has_finalizer && !deletion_pending ==> spec_finalizer_step(has_finalizer, deletion_pending)
            == FinalizerStep::AddFinalizer,
        (spec_finalizer_step(has_finalizer, deletion_pending) == FinalizerStep::RunCleanup) <==> (
        deletion_pending && has_finalizer),
        (spec_after_cleanup(outcome) is RemoveFinalizer) <==> outcome is Ok,
{
}

/// The note of the deletion notification for the given object name.
pub open spec fn delete_note(name: Seq<char>) -> Seq<char> {
    "Delete `"@ + name + "`"@
}

/// The notification event published while cleaning up a deleted object.
#[derive(Clone, Debug, PartialEq, Eq)]
pub struct DeleteNotification {
    /// The event reason.
    pub reason: String,
    /// The event action.
    pub action: String,
    /// The event note naming the object.
    pub note: String,
}

/// The notification published when deletion of the named object was
/// requested. Cleanup performs no upstream teardown; this event is its
/// only effect.
pub fn delete_notification(name: &String) -> (r: DeleteNotification)
    ensures
        r.reason@ == "DeleteRequested"@,
        r.action@ == "Deleting"@,
        r.note@ == delete_note(name@),
{
    let mut note = String::from_str("Delete `");
    note.append(name.as_str());
    note.append("`");
    DeleteNotification {
        reason: String::from_str("DeleteRequested"),
        action: String::from_str("Deleting"),
        note,
    }
}

} // verus!
