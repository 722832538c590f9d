//! Reconciliation core of a Kubernetes operator that provisions Cloudflare
//! accounts, zones and DNS records from custom resources.
//!
//! The library holds the decision logic of the operator: credential
//! resolution along the reference chain of a resource, the client cache
//! keyed by resolved token, the per-kind reconcile state machines with
//! their dependency gate, and the finalizer protocol. Network and
//! Kubernetes I/O stay outside; the functions here turn plain values
//! (fetched objects, call outcomes) into status patches and requeue
//! decisions.

use vstd::prelude::*;

pub mod account;
pub mod cf_client;
pub mod cloudflare;
pub mod net;
pub mod openapi;
pub mod page_rule;
pub mod dns_record;
pub mod finalize;
pub mod gate;
pub mod text;
pub mod zone;

verus! {

use vstd::string::StringExecFns;

/// What the controller runtime is asked to do with an object after one
/// reconcile attempt: look at it again after a delay, or only when it
/// changes.
#[derive(Clone, Debug, PartialEq, Eq)]
pub enum Action {
    /// Reconcile again after this many seconds.
    Requeue(u64),
    /// Wait for the next watch event on the object.
    AwaitChange,
}

/// Errors surfaced by the reconcile engines. Failures of outside services
/// are carried as their rendered messages; the variant is the error kind.
#[derive(Clone, Debug, PartialEq, Eq)]
pub enum Error {
    SerializationError(String),
    KubeError(String),
    FinalizerError(String),
    IllegalDocument,
    InvalidIpAddress(String),
    UnsupportedRecordType(String),
    CloudflareApiError(String),
}

impl Error {
    /// The error-kind label under which a failed reconcile is counted.
    pub open spec fn spec_metric_label(&self) -> Seq<char> {
        match self {
            Error::SerializationError(_) => "serializationerror"@,
            Error::KubeError(_) => "kubeerror"@,
            Error::FinalizerError(_) => "finalizererror"@,
            Error::IllegalDocument => "illegaldocument"@,
            Error::InvalidIpAddress(_) => "invalidipaddress"@,
            Error::UnsupportedRecordType(_) => "unsupportedrecordtype"@,
            Error::CloudflareApiError(_) => "cloudflareapierror"@,
        }
    }

    /// Label for the failure metric of the telemetry subsystem.
    pub fn metric_label(&self) -> (r: String)
        ensures
            r@ == self.spec_metric_label(),
    {
        match self {
            Error::SerializationError(_) => String::from_str("serializationerror"),
            Error::KubeError(_) => String::from_str("kubeerror"),
            Error::FinalizerError(_) => String::from_str("finalizererror"),
            Error::IllegalDocument => String::from_str("illegaldocument"),
            Error::InvalidIpAddress(_) => String::from_str("invalidipaddress"),
            Error::UnsupportedRecordType(_) => String::from_str("unsupportedrecordtype"),
            Error::CloudflareApiError(_) => String::from_str("cloudflareapierror"),
        }
    }
}

/// Seconds between reconcile attempts after a fully successful apply, and
/// after an error escaped the reconcile body: external drift is only
/// discovered by polling.
pub const DEFAULT_REQUEUE_SECS: u64 = 300;

/// How a failed reconcile is retried: counted under its error-kind label
/// and attempted again on the default interval.
pub fn error_policy(error: &Error) -> (r: (String, Action))
    ensures
        r.0@ == error.spec_metric_label(),
        r.1 == Action::Requeue(DEFAULT_REQUEUE_SECS),
{
    (error.metric_label(), Action::Requeue(DEFAULT_REQUEUE_SECS))
}

} // verus!
