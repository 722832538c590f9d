//! The Account custom resource: the root of the dependency chain.

use vstd::prelude::*;

verus! {

use crate::cloudflare::{Reference, SecretKeyRef};

/// Desired state of an Account object.
#[derive(Clone, Debug, PartialEq, Eq)]
pub struct AccountSpec {
    /// The external account identifier on the Cloudflare side.
    pub id: String,
    /// Optional direct reference to the secret holding the API token.
    pub secret_ref: Option<SecretKeyRef>,
}

/// Observed state of an Account object, overwritten wholesale on every
/// reconcile.
#[derive(Clone, Debug, PartialEq, Eq, Default)]
pub struct AccountStatus {
    pub ready: bool,
    pub token_id: Option<String>,
    pub error: Option<String>,
}

/// An Account object as the engines see it: object name, desired state,
/// last observed state.
#[derive(Clone, Debug, PartialEq, Eq)]
pub struct Account {
    /// The object's name in its namespace.
    pub name: String,
    pub spec: AccountSpec,
    pub status: Option<AccountStatus>,
}

impl Account {
    /// The credential reference this Account carries: its direct secret
    /// reference, or nothing.
    pub open spec fn spec_reference(&self) -> Reference {
        match self.spec.secret_ref {
            Some(r) => Reference::SecretRef(r),
            None => Reference::NoRef,
        }
    }

    pub fn secret_ref(&self) -> (r: Option<&SecretKeyRef>)
        ensures
            match r {
                Some(s) => self.spec.secret_ref == Some(*s),
                None => self.spec.secret_ref is None,
            },
    {
        self.spec.secret_ref.as_ref()
    }

    /// The tagged reference the resolver dispatches on.
    pub fn reference(&self) -> (r: Reference)
        ensures
            r == self.spec_reference(),
    {
        match &self.spec.secret_ref {
            Some(s) => Reference::SecretRef(
                SecretKeyRef { name: s.name.clone(), key: s.key.clone() },
            ),
            None => Reference::NoRef,
        }
    }

    /// Whether the last observed state marks this Account ready.
    pub open spec fn spec_is_ready(&self) -> bool {
        match self.status {
            Some(s) => s.ready,
            None => false,
        }
    }

    pub fn is_ready(&self) -> (r: bool)
        ensures
            r == self.spec_is_ready(),
    {
        match &self.status {
            Some(s) => s.ready,
            None => false,
        }
    }
}

} // verus!
