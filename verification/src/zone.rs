//! The Zone custom resource and its reconcile decisions.

use vstd::prelude::*;

verus! {

use crate::account::Account;
use crate::cf_client::CreateZoneParams;
use crate::cloudflare::{Reference, SecretKeyRef};
use crate::finalize::{delete_note, delete_notification, DeleteNotification};
use crate::gate::{
    dependency_gate, missing_message, not_ready_message, GateOutcome, ParentState,
    DEPENDENCY_MISSING_REQUEUE_SECS, DEPENDENCY_WAIT_REQUEUE_SECS,
};
use crate::{Action, Error, DEFAULT_REQUEUE_SECS};

/// Desired state of a Zone object.
#[derive(Clone, Debug, PartialEq, Eq)]
pub struct ZoneSpec {
    /// Optional reference to the Account object the zone belongs to.
    pub account_ref: Option<String>,
    /// Optional direct reference to the secret holding the API token.
    pub secret_ref: Option<SecretKeyRef>,
}

/// Observed state of a Zone object, overwritten wholesale on every
/// reconcile.
#[derive(Clone, Debug, PartialEq, Eq, Default)]
pub struct ZoneStatus {
    pub ready: bool,
    /// The external zone identifier once the zone exists upstream.
    pub id: Option<String>,
    pub error: Option<String>,
}

/// A Zone object as the engines see it: object name, desired state, last
/// observed state.
#[derive(Clone, Debug, PartialEq, Eq)]
pub struct Zone {
    /// The object's name in its namespace.
    pub name: String,
    pub spec: ZoneSpec,
    pub status: Option<ZoneStatus>,
}

impl Zone {
    /// The credential reference this Zone carries: its direct secret
    /// reference first, else its account reference, else nothing.
    pub open spec fn spec_reference(&self) -> Reference {
        match self.spec.secret_ref {
            Some(r) => Reference::SecretRef(r),
            None => match self.spec.account_ref {
                Some(a) => Reference::AccountRef(a),
                None => Reference::NoRef,
            },
        }
    }

    pub fn secret_ref(&self) -> (r: Option<&SecretKeyRef>)
        ensures
            match r {
                Some(s) => self.spec.secret_ref == Some(*s),
                None => self.spec.secret_ref is None,
            },
    {
        self.spec.secret_ref.as_ref()
    }

    pub fn account_ref(&self) -> (r: Option<&String>)
        ensures
            match r {
                Some(a) => self.spec.account_ref == Some(*a),
                None => self.spec.account_ref is None,
            },
    {
        self.spec.account_ref.as_ref()
    }

    /// The tagged reference the resolver dispatches on.
    pub fn reference(&self) -> (r: Reference)
        ensures
            r == self.spec_reference(),
    {
        match &self.spec.secret_ref {
            Some(s) => Reference::SecretRef(
                SecretKeyRef { name: s.name.clone(), key: s.key.clone() },
            ),
            None => match &self.spec.account_ref {
                Some(a) => Reference::AccountRef(a.clone()),
                None => Reference::NoRef,
            },
        }
    }
}

/// The first decision of a Zone apply, from the object alone.
#[derive(Clone, Debug, PartialEq, Eq)]
pub enum ZonePlan {
    /// The zone references this account: gate on it before creating.
    CheckAccount(String),
    /// The reconcile fails with this error, surfaced to the retry policy.
    Fail(Error),
    /// Nothing to create; look again after this many seconds.
    Requeue(u64),
}

/// What the account lookup of the dependency gate found. A failure of the
/// platform read itself is distinguished from a missing object.
#[derive(Clone, Debug, PartialEq, Eq)]
pub enum AccountLookup {
    Found(Account),
    Missing,
    Failed(String),
}

/// The decision after the account gate: write a status, create upstream,
/// or fail.
#[derive(Clone, Debug, PartialEq, Eq)]
pub enum ZoneApplyStep {
    /// Overwrite the object's status wholesale and requeue.
    UpdateStatus { status: ZoneStatus, requeue_secs: u64 },
    /// The account is ready: create the zone upstream with these parameters.
    CreateZone { params: CreateZoneParams },
    /// The platform read failed: no status is written, the error drives
    /// the retry policy.
    Fail { error: Error },
}

impl Zone {
    /// The first apply decision: a zone with an account reference gates
    /// on that account; without one there is nothing to create, except
    /// that the reserved object name fails deliberately.
    pub open spec fn spec_plan(&self) -> ZonePlan {
        match self.spec.account_ref {
            Some(n) => ZonePlan::CheckAccount(n),
            None => if self.name@ == "illegal"@ {
                ZonePlan::Fail(Error::IllegalDocument)
            } else {
                ZonePlan::Requeue(DEFAULT_REQUEUE_SECS)
            },
        }
    }

    pub fn plan(&self) -> (r: ZonePlan)
        ensures
            r == self.spec_plan(),
    {
        match &self.spec.account_ref {
            Some(n) => ZonePlan::CheckAccount(n.clone()),
            None => {
                if crate::text::str_eq(self.name.as_str(), "illegal") {
                    ZonePlan::Fail(Error::IllegalDocument)
                } else {
                    ZonePlan::Requeue(DEFAULT_REQUEUE_SECS)
                }
            },
        }
    }

    /// What the account gate decides: a missing or unready account
    /// blocks with the corresponding status error and retry interval,
    /// only a ready account yields upstream create parameters, and a
    /// failed platform read fails the reconcile.
    pub open spec fn gate_account_post(&self, lookup: AccountLookup, r: ZoneApplyStep) -> bool {
        match lookup {
            AccountLookup::Missing => {
                &&& r matches ZoneApplyStep::UpdateStatus { status, requeue_secs }
                &&& !status.ready
                &&& status.id is None
                &&& status.error matches Some(e) && e@ == missing_message(
                    "account"@,
                    self.spec.account_ref->Some_0@,
                )
                &&& requeue_secs == DEPENDENCY_MISSING_REQUEUE_SECS
            },
            AccountLookup::Found(acc) => if acc.spec_is_ready() {
                r == (ZoneApplyStep::CreateZone {
                    params: CreateZoneParams { name: self.name, account_id: acc.spec.id },
                })
            } else {
                &&& r matches ZoneApplyStep::UpdateStatus { status, requeue_secs }
                &&& !status.ready
                &&& status.id is None
                &&& status.error matches Some(e) && e@ == not_ready_message("account"@, acc.name@)
                &&& requeue_secs == DEPENDENCY_WAIT_REQUEUE_SECS
            },
            AccountLookup::Failed(msg) => r == (ZoneApplyStep::Fail {
                error: Error::KubeError(msg),
            }),
        }
    }

    /// The dependency gate on the referenced account: a missing or
    /// unready account blocks with the corresponding status error and
    /// retry interval and the upstream create is never reached; only a
    /// ready account yields create parameters.
    pub fn gate_account(&self, lookup: &AccountLookup) -> (r: ZoneApplyStep)
        requires
            self.spec.account_ref is Some,
        ensures
            self.gate_account_post(*lookup, r),
    {
        match lookup {
            AccountLookup::Missing => {
                let name = match &self.spec.account_ref {
                    Some(n) => n,
                    None => vstd::pervasive::unreached(),
                };
                match dependency_gate("account", name, &ParentState::Missing) {
                    GateOutcome::Block { error, requeue_secs } => ZoneApplyStep::UpdateStatus {
                        status: ZoneStatus { ready: false, id: None, error: Some(error) },
                        requeue_secs,
                    },
                    GateOutcome::Proceed => vstd::pervasive::unreached(),
                }
            },
            AccountLookup::Found(acc) => {
                if acc.is_ready() {
                    ZoneApplyStep::CreateZone {
                        params: CreateZoneParams {
                            name: self.name.clone(),
                            account_id: acc.spec.id.clone(),
                        },
                    }
                } else {
                    match dependency_gate("account", &acc.name, &ParentState::NotReady) {
                        GateOutcome::Block { error, requeue_secs } => ZoneApplyStep::UpdateStatus {
                            status: ZoneStatus { ready: false, id: None, error: Some(error) },
                            requeue_secs,
                        },
                        GateOutcome::Proceed => vstd::pervasive::unreached(),
                    }
                }
            },
            AccountLookup::Failed(msg) => ZoneApplyStep::Fail { error: Error::KubeError(msg.clone()) },
        }
    }

    /// Law: a zone whose referenced account exists but is not ready is
    /// never applied upstream: the step is a status update that is not
    /// ready with the waiting retry interval, and no create parameters
    /// exist on this path.
    pub proof fn lemma_unready_account_blocks(&self, acc: Account, r: ZoneApplyStep)
        requires
            !acc.spec_is_ready(),
            self.gate_account_post(AccountLookup::Found(acc), r),
        ensures
            r matches ZoneApplyStep::UpdateStatus { status, requeue_secs } && !status.ready
                && requeue_secs == DEPENDENCY_WAIT_REQUEUE_SECS,
            !(r is CreateZone),
    {
    }

    /// The status written wholesale after the upstream create call, and
    /// the requeue that follows: a created zone is ready and rechecked
    /// on the drift interval, a failed create surfaces the message and
    /// retries sooner.
    pub fn after_create(&self, result: &Result<String, String>) -> (r: (ZoneStatus, u64))
        ensures
            match result {
                Ok(id) => r.0 == (ZoneStatus { ready: true, id: Some(*id), error: None }) && r.1
                    == DEFAULT_REQUEUE_SECS,
                Err(msg) => r.0 == (ZoneStatus { ready: false, id: None, error: Some(*msg) }) && r.1
                    == DEPENDENCY_WAIT_REQUEUE_SECS,
            },
    {
        match result {
            Ok(id) => (
                ZoneStatus { ready: true, id: Some(id.clone()), error: None },
                DEFAULT_REQUEUE_SECS,
            ),
            Err(msg) => (
                ZoneStatus { ready: false, id: None, error: Some(msg.clone()) },
                DEPENDENCY_WAIT_REQUEUE_SECS,
            ),
        }
    }

    /// The cleanup step of the finalizer protocol: nothing is torn down
    /// upstream, only this notification is published; once publishing
    /// succeeded the object waits for its deletion to complete.
    pub fn cleanup(&self) -> (r: (DeleteNotification, Action))
        ensures
            r.0.reason@ == "DeleteRequested"@,
            r.0.action@ == "Deleting"@,
            r.0.note@ == delete_note(self.name@),
            r.1 == Action::AwaitChange,
    {
        (delete_notification(&self.name), Action::AwaitChange)
    }
}

} // verus!
