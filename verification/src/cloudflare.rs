//! Credential resolution and the client cache.
//!
//! Every custom resource determines its API credential through a reference
//! chain: a direct secret reference, or a link to a parent Zone or Account
//! whose own chain is followed in turn, with a process-wide default token
//! at the end. The resolver walks that chain over a read view of the
//! namespace's objects, with a hard depth cap against misconfigured
//! cycles. The provider then maps each resolved token to one shared,
//! lazily built API client.

use std::sync::Arc;
use vstd::prelude::*;

verus! {

use crate::account::Account;
use crate::cf_client::CloudflareClient;
use crate::zone::Zone;
use vstd::utf8::{decode_utf8, valid_utf8};

/// A reference to one key of a named secret object.
#[derive(Clone, Debug, PartialEq, Eq)]
pub struct SecretKeyRef {
    /// Name of the secret object in the resource's namespace.
    pub name: String,
    /// Key inside the secret's data map.
    pub key: String,
}

/// The credential reference a resource carries, as a tagged sum: the
/// resolver dispatches on it with a single switch. A resource that offers
/// several capabilities selects one in the fixed order secret, zone,
/// account.
#[derive(Clone, Debug, PartialEq, Eq)]
pub enum Reference {
    /// No reference at all: the process-wide default token applies.
    NoRef,
    /// A direct secret reference: the token is read out of the secret.
    SecretRef(SecretKeyRef),
    /// A reference to a Zone object whose chain is followed next.
    ZoneRef(String),
    /// A reference to an Account object whose chain is followed next.
    AccountRef(String),
}

/// Failures of credential resolution and client construction.
#[derive(Clone, Debug, PartialEq, Eq)]
pub enum ProviderError {
    /// The referenced secret object does not exist (carries its name).
    SecretNotFound(String),
    /// The referenced Zone object does not exist (carries its name).
    ZoneNotFound(String),
    /// The referenced Account object does not exist (carries its name).
    AccountNotFound(String),
    /// The secret exists but has no entry under the referenced key.
    SecretKeyMissing(String),
    /// The secret's bytes under the key are not valid text.
    TokenEncoding,
    /// Building an API client for the resolved token failed.
    ClientCreation(String),
    /// Reading an object from the platform API failed (carries the message).
    K8sError(String),
    /// The reference chain exceeded the depth cap: a cycle or a
    /// misconfigured chain.
    ReferenceChainTooDeep,
}

/// How many parent-object lookups a reference chain may take before it is
/// rejected as cyclic or misconfigured. The longest legitimate chain,
/// record to zone to account to secret, takes two lookups.
pub const MAX_REFERENCE_DEPTH: u32 = 4;

/// A secret object as the resolver reads it: a name and a map of keys to
/// byte values.
#[derive(Clone, Debug, PartialEq, Eq)]
pub struct SecretObject {
    /// The object's name in its namespace.
    pub name: String,
    /// The keyed byte values of the secret.
    pub data: Vec<(String, Vec<u8>)>,
}

/// The objects of one namespace that credential resolution may read.
/// The caller fetches them from the platform API and hands them in as
/// plain values.
#[derive(Clone, Debug, PartialEq, Eq)]
pub struct NamespaceView {
    pub zones: Vec<Zone>,
    pub accounts: Vec<Account>,
    pub secrets: Vec<SecretObject>,
}

/// The first zone of the given name, if any.
pub open spec fn spec_find_zone(zones: Seq<Zone>, name: Seq<char>) -> Option<Zone>
    decreases zones.len(),
{
    if zones.len() == 0 {
        None
    } else if zones[0].name@ == name {
        Some(zones[0])
    } else {
        spec_find_zone(zones.drop_first(), name)
    }
}

/// The first account of the given name, if any.
pub open spec fn spec_find_account(accounts: Seq<Account>, name: Seq<char>) -> Option<Account>
    decreases accounts.len(),
{
    if accounts.len() == 0 {
        None
    } else if accounts[0].name@ == name {
        Some(accounts[0])
    } else {
        spec_find_account(accounts.drop_first(), name)
    }
}

/// The first secret of the given name, if any.
pub open spec fn spec_find_secret(secrets: Seq<SecretObject>, name: Seq<char>) -> Option<
    SecretObject,
>
    decreases secrets.len(),
{
    if secrets.len() == 0 {
        None
    } else if secrets[0].name@ == name {
        Some(secrets[0])
    } else {
        spec_find_secret(secrets.drop_first(), name)
    }
}

/// The byte value under the first matching key of a secret's data map.
pub open spec fn spec_find_key(data: Seq<(String, Vec<u8>)>, key: Seq<char>) -> Option<Vec<u8>>
    decreases data.len(),
{
    if data.len() == 0 {
        None
    } else if data[0].0@ == key {
        Some(data[0].1)
    } else {
        spec_find_key(data.drop_first(), key)
    }
}

impl NamespaceView {
    pub fn find_zone(&self, name: &String) -> (r: Option<&Zone>)
        ensures
            match r {
                Some(z) => spec_find_zone(self.zones@, name@) == Some(*z),
                None => spec_find_zone(self.zones@, name@) is None,
            },
    {
        let mut i: usize = 0;
        proof {
            assert(self.zones@.skip(0) =~= self.zones@);
        }
        while i < self.zones.len()
            invariant
                i <= self.zones@.len(),
                spec_find_zone(self.zones@, name@) == spec_find_zone(
                    self.zones@.skip(i as int),
                    name@,
                ),
            decreases self.zones@.len() - i,
        {
            proof {
                assert(self.zones@.skip(i as int)[0] == self.zones@[i as int]);
                assert(self.zones@.skip(i as int).drop_first() =~= self.zones@.skip(i as int + 1));
            }
            if self.zones[i].name == *name {
                return Some(&self.zones[i]);
            }
            i += 1;
        }
        proof {
            assert(self.zones@.skip(i as int) =~= Seq::<Zone>::empty());
        }
        None
    }

    pub fn find_account(&self, name: &String) -> (r: Option<&Account>)
        ensures
            match r {
                Some(a) => spec_find_account(self.accounts@, name@) == Some(*a),
                None => spec_find_account(self.accounts@, name@) is None,
            },
    {
        let mut i: usize = 0;
        proof {
            assert(self.accounts@.skip(0) =~= self.accounts@);
        }
        while i < self.accounts.len()
            invariant
                i <= self.accounts@.len(),
                spec_find_account(self.accounts@, name@) == spec_find_account(
                    self.accounts@.skip(i as int),
                    name@,
                ),
            decreases self.accounts@.len() - i,
        {
            proof {
                assert(self.accounts@.skip(i as int)[0] == self.accounts@[i as int]);
                assert(self.accounts@.skip(i as int).drop_first() =~= self.accounts@.skip(
                    i as int + 1,
                ));
            }
            if self.accounts[i].name == *name {
                return Some(&self.accounts[i]);
            }
            i += 1;
        }
        proof {
            assert(self.accounts@.skip(i as int) =~= Seq::<Account>::empty());
        }
        None
    }

    pub fn find_secret(&self, name: &String) -> (r: Option<&SecretObject>)
        ensures
            match r {
                Some(s) => spec_find_secret(self.secrets@, name@) == Some(*s),
                None => spec_find_secret(self.secrets@, name@) is None,
            },
    {
        let mut i: usize = 0;
        proof {
            assert(self.secrets@.skip(0) =~= self.secrets@);
        }
        while i < self.secrets.len()
            invariant
                i <= self.secrets@.len(),
                spec_find_secret(self.secrets@, name@) == spec_find_secret(
                    self.secrets@.skip(i as int),
                    name@,
                ),
            decreases self.secrets@.len() - i,
        {
            proof {
                assert(self.secrets@.skip(i as int)[0] == self.secrets@[i as int]);
                assert(self.secrets@.skip(i as int).drop_first() =~= self.secrets@.skip(
                    i as int + 1,
                ));
            }
            if self.secrets[i].name == *name {
                return Some(&self.secrets[i]);
            }
            i += 1;
        }
        proof {
            assert(self.secrets@.skip(i as int) =~= Seq::<SecretObject>::empty());
        }
        None
    }
}

impl SecretObject {
    pub fn find_key(&self, key: &String) -> (r: Option<&Vec<u8>>)
        ensures
            match r {
                Some(b) => spec_find_key(self.data@, key@) == Some(*b),
                None => spec_find_key(self.data@, key@) is None,
            },
    {
        let mut i: usize = 0;
        proof {
            assert(self.data@.skip(0) =~= self.data@);
        }
        while i < self.data.len()
            invariant
                i <= self.data@.len(),
                spec_find_key(self.data@, key@) == spec_find_key(self.data@.skip(i as int), key@),
            decreases self.data@.len() - i,
        {
            proof {
                assert(self.data@.skip(i as int)[0] == self.data@[i as int]);
                assert(self.data@.skip(i as int).drop_first() =~= self.data@.skip(i as int + 1));
            }
            if self.data[i].0 == *key {
                return Some(&self.data[i].1);
            }
            i += 1;
        }
        proof {
            assert(self.data@.skip(i as int) =~= Seq::<(String, Vec<u8>)>::empty());
        }
        None
    }
}

/// The abstract outcome of credential resolution: a token, or exactly one
/// of the resolver's failure modes, with the name it concerns.
pub enum Resolution {
    Token(Seq<char>),
    SecretNotFound(Seq<char>),
    ZoneNotFound(Seq<char>),
    AccountNotFound(Seq<char>),
    SecretKeyMissing(Seq<char>),
    TokenEncoding,
    TooDeep,
}

/// What fetching and decoding one secret reference yields.
pub open spec fn secret_model(ns: NamespaceView, name: Seq<char>, key: Seq<char>) -> Resolution {
    match spec_find_secret(ns.secrets@, name) {
        None => Resolution::SecretNotFound(name),
        Some(s) => match spec_find_key(s.data@, key) {
            None => Resolution::SecretKeyMissing(key),
            Some(bytes) => if valid_utf8(bytes@) {
                Resolution::Token(decode_utf8(bytes@))
            } else {
                Resolution::TokenEncoding
            },
        },
    }
}

/// What following a reference chain yields: a direct secret is read, a
/// zone or account reference loads the parent and follows its own
/// reference, no reference at all falls back to the default token. Each
/// parent lookup consumes one unit of fuel; exhausted fuel is the
/// too-deep outcome.
pub open spec fn resolve_model(
    r: Reference,
    ns: NamespaceView,
    default: Seq<char>,
    fuel: nat,
) -> Resolution
    decreases fuel,
{
    match r {
        Reference::NoRef => Resolution::Token(default),
        Reference::SecretRef(sr) => secret_model(ns, sr.name@, sr.key@),
        Reference::ZoneRef(zn) => if fuel == 0 {
            Resolution::TooDeep
        } else {
            match spec_find_zone(ns.zones@, zn@) {
                None => Resolution::ZoneNotFound(zn@),
                Some(z) => resolve_model(z.spec_reference(), ns, default, (fuel - 1) as nat),
            }
        },
        Reference::AccountRef(an) => if fuel == 0 {
            Resolution::TooDeep
        } else {
            match spec_find_account(ns.accounts@, an@) {
                None => Resolution::AccountNotFound(an@),
                Some(a) => resolve_model(a.spec_reference(), ns, default, (fuel - 1) as nat),
            }
        },
    }
}

/// Whether an executable resolution result reports exactly the abstract
/// outcome: the same token, or the matching error with the same name.
pub open spec fn matches_resolution(r: Result<String, ProviderError>, m: Resolution) -> bool {
    match m {
        Resolution::Token(t) => r is Ok && r->Ok_0@ == t,
        Resolution::SecretNotFound(n) => {
            &&& r is Err
            &&& r->Err_0 matches ProviderError::SecretNotFound(s) && s@ == n
        },
        Resolution::ZoneNotFound(n) => {
            &&& r is Err
            &&& r->Err_0 matches ProviderError::ZoneNotFound(s) && s@ == n
        },
        Resolution::AccountNotFound(n) => {
            &&& r is Err
            &&& r->Err_0 matches ProviderError::AccountNotFound(s) && s@ == n
        },
        Resolution::SecretKeyMissing(k) => {
            &&& r is Err
            &&& r->Err_0 matches ProviderError::SecretKeyMissing(s) && s@ == k
        },
        Resolution::TokenEncoding => r == Err::<String, ProviderError>(ProviderError::TokenEncoding),
        Resolution::TooDeep => r == Err::<String, ProviderError>(
            ProviderError::ReferenceChainTooDeep,
        ),
    }
}

/// The client handle stored and handed out by the cache.
pub type SharedClient = Arc<CloudflareClient>;

/// The first cached client for the given token, if any.
pub open spec fn spec_cache_lookup(
    cache: Seq<(String, SharedClient)>,
    token: Seq<char>,
) -> Option<SharedClient>
    decreases cache.len(),
{
    if cache.len() == 0 {
        None
    } else if cache[0].0@ == token {
        Some(cache[0].1)
    } else {
        spec_cache_lookup(cache.drop_first(), token)
    }
}

/// An absent lookup means no entry carries the token.
pub proof fn lemma_cache_lookup_none(cache: Seq<(String, SharedClient)>, token: Seq<char>)
    requires
        spec_cache_lookup(cache, token) is None,
    ensures
        forall|i: int| 0 <= i < cache.len() ==> (#[trigger] cache[i]).0@ != token,
    decreases cache.len(),
{
    if cache.len() > 0 {
        lemma_cache_lookup_none(cache.drop_first(), token);
        assert(forall|i: int|
            1 <= i < cache.len() ==> #[trigger] cache[i] == cache.drop_first()[i - 1]);
    }
}

/// Law: a resource carrying a direct secret reference resolves to
/// exactly the decoded text stored under that secret's key; it fails
/// with the not-found error when the secret object is absent, with the
/// missing-key error when the secret lacks the key, and the outcome
/// depends only on what lookup of that secret finds, not on the other
/// objects or the order of the namespace.
pub proof fn lemma_direct_secret_resolution(
    sr: SecretKeyRef,
    ns: NamespaceView,
    default: Seq<char>,
    fuel: nat,
)
    ensures
        resolve_model(Reference::SecretRef(sr), ns, default, fuel) == secret_model(
            ns,
            sr.name@,
            sr.key@,
        ),
        spec_find_secret(ns.secrets@, sr.name@) is None ==> resolve_model(
            Reference::SecretRef(sr),
            ns,
            default,
            fuel,
        ) == Resolution::SecretNotFound(sr.name@),
        forall|s: SecretObject, bytes: Vec<u8>|
            #![trigger spec_find_key(s.data@, sr.key@), decode_utf8(bytes@)]
            spec_find_secret(ns.secrets@, sr.name@) == Some(s) && spec_find_key(s.data@, sr.key@)
                == Some(bytes) && valid_utf8(bytes@) ==> resolve_model(
                Reference::SecretRef(sr),
                ns,
                default,
                fuel,
            ) == Resolution::Token(decode_utf8(bytes@)),
        forall|ns2: NamespaceView|
            spec_find_secret(ns2.secrets@, sr.name@) == spec_find_secret(ns.secrets@, sr.name@)
                ==> #[trigger] resolve_model(Reference::SecretRef(sr), ns2, default, fuel)
                == resolve_model(Reference::SecretRef(sr), ns, default, fuel),
{
}

/// Law: a zone that carries no direct secret and references an account
/// resolves to whatever that account resolves to; and when the found
/// account has no secret of its own either, the chain ends at the
/// default token.
pub proof fn lemma_zone_account_resolution(
    z: Zone,
    ns: NamespaceView,
    default: Seq<char>,
    fuel: nat,
)
    requires
        fuel >= 2,
        spec_find_zone(ns.zones@, z.name@) == Some(z),
        z.spec.secret_ref is None,
        z.spec.account_ref is Some,
    ensures
        resolve_model(Reference::ZoneRef(z.name), ns, default, fuel) == resolve_model(
            Reference::AccountRef(z.spec.account_ref->Some_0),
            ns,
            default,
            (fuel - 1) as nat,
        ),
        (spec_find_account(ns.accounts@, z.spec.account_ref->Some_0@) is Some && spec_find_account(
            ns.accounts@,
            z.spec.account_ref->Some_0@,
        )->Some_0.spec.secret_ref is None) ==> resolve_model(
            Reference::ZoneRef(z.name),
            ns,
            default,
            fuel,
        ) == Resolution::Token(default),
{
    let an = z.spec.account_ref->Some_0;
    assert(z.spec_reference() == Reference::AccountRef(an));
    assert(resolve_model(Reference::ZoneRef(z.name), ns, default, fuel) == resolve_model(
        Reference::AccountRef(an),
        ns,
        default,
        (fuel - 1) as nat,
    ));
    match spec_find_account(ns.accounts@, an@) {
        Some(a) => {
            if a.spec.secret_ref is None {
                assert(a.spec_reference() == Reference::NoRef);
                assert(resolve_model(Reference::AccountRef(an), ns, default, (fuel - 1) as nat)
                    == resolve_model(Reference::NoRef, ns, default, (fuel - 2) as nat));
            }
        },
        None => {},
    }
}

/// Law: with the chain capped at two or more lookups, resolution of
/// these resource kinds never reports the chain as too deep: a zone can
/// only point to an account, and an account only to a secret, so no
/// legitimate or misconfigured chain loops.
pub proof fn lemma_chain_bounded(start: Reference, ns: NamespaceView, default: Seq<char>, fuel: nat)
    requires
        fuel >= 2,
    ensures
        !(resolve_model(start, ns, default, fuel) is TooDeep),
{
    match start {
        Reference::NoRef => {},
        Reference::SecretRef(_) => {},
        Reference::ZoneRef(zn) => {
            match spec_find_zone(ns.zones@, zn@) {
                None => {
                    assert(resolve_model(start, ns, default, fuel) == Resolution::ZoneNotFound(
                        zn@,
                    ));
                },
                Some(z) => {
                    let next = z.spec_reference();
                    assert(resolve_model(start, ns, default, fuel) == resolve_model(
                        next,
                        ns,
                        default,
                        (fuel - 1) as nat,
                    ));
                    match next {
                        Reference::NoRef => {},
                        Reference::SecretRef(_) => {},
                        Reference::ZoneRef(_) => {
                            assert(false);
                        },
                        Reference::AccountRef(an) => {
                            lemma_account_ref_bounded(an, ns, default, (fuel - 1) as nat);
                        },
                    }
                },
            }
        },
        Reference::AccountRef(an) => {
            lemma_account_ref_bounded(an, ns, default, fuel);
        },
    }
}

/// An account reference resolves in at most one lookup: an account can
/// only carry a direct secret reference.
proof fn lemma_account_ref_bounded(an: String, ns: NamespaceView, default: Seq<char>, fuel: nat)
    requires
        fuel >= 1,
    ensures
        !(resolve_model(Reference::AccountRef(an), ns, default, fuel) is TooDeep),
{
    match spec_find_account(ns.accounts@, an@) {
        None => {
            assert(resolve_model(Reference::AccountRef(an), ns, default, fuel)
                == Resolution::AccountNotFound(an@));
        },
        Some(a) => {
            let next = a.spec_reference();
            assert(resolve_model(Reference::AccountRef(an), ns, default, fuel) == resolve_model(
                next,
                ns,
                default,
                (fuel - 1) as nat,
            ));
            assert(!(next is ZoneRef));
            assert(!(next is AccountRef));
        },
    }
}

/// A lookup with every entry's client bound to its token yields a client
/// bound to the looked-up token.
pub proof fn lemma_cache_client_bound(cache: Seq<(String, SharedClient)>, token: Seq<char>)
    requires
        forall|i: int| 0 <= i < cache.len() ==> (#[trigger] cache[i]).1@ == cache[i].0@,
    ensures
        spec_cache_lookup(cache, token) matches Some(c) ==> c@ == token,
    decreases cache.len(),
{
    if cache.len() > 0 && cache[0].0@ != token {
        assert(forall|i: int|
            0 <= i < cache.drop_first().len() ==> (#[trigger] cache.drop_first()[i]) == cache[i
                + 1]);
        lemma_cache_client_bound(cache.drop_first(), token);
    }
}

/// Law: the cache keeps one shared client per token. Once a client is
/// cached for a token, every later lookup of that token yields exactly
/// that handle; and in a well-formed cache, clients looked up under
/// distinct tokens are distinct, since each is bound to its own token.
pub proof fn lemma_cache_one_client_per_token(
    cache: Seq<(String, SharedClient)>,
    t: String,
    c: SharedClient,
    t1: Seq<char>,
    t2: Seq<char>,
)
    requires
        spec_cache_lookup(cache, t@) is None,
        forall|i: int| 0 <= i < cache.len() ==> (#[trigger] cache[i]).1@ == cache[i].0@,
    ensures
        spec_cache_lookup(cache.push((t, c)), t@) == Some(c),
        (t1 != t2 && spec_cache_lookup(cache, t1) is Some && spec_cache_lookup(cache, t2) is Some)
            ==> spec_cache_lookup(cache, t1)->Some_0@ != spec_cache_lookup(cache, t2)->Some_0@,
    decreases cache.len(),
{
    lemma_cache_client_bound(cache, t1);
    lemma_cache_client_bound(cache, t2);
    if cache.len() == 0 {
        assert(cache.push((t, c)).drop_first() =~= Seq::<(String, SharedClient)>::empty());
    } else {
        assert(cache.push((t, c)).drop_first() =~= cache.drop_first().push((t, c)));
        assert(forall|i: int|
            0 <= i < cache.drop_first().len() ==> (#[trigger] cache.drop_first()[i]) == cache[i
                + 1]);
        lemma_cache_one_client_per_token(cache.drop_first(), t, c, t1, t2);
    }
}

/// Resolves credentials and maps each resolved token to one shared API
/// client, built lazily on first use.
pub struct CloudflareClientProvider {
    default_token: String,
    cache: Vec<(String, SharedClient)>,
}

impl CloudflareClientProvider {
    /// The process-wide default token used by resources without any
    /// reference.
    pub closed spec fn spec_default_token(&self) -> Seq<char> {
        self.default_token@
    }

    /// The cache contents, in insertion order.
    pub closed spec fn spec_cache(&self) -> Seq<(String, SharedClient)> {
        self.cache@
    }

    /// Well-formedness of the cache: one entry per token, each client
    /// bound to the token it is stored under.
    pub open spec fn wf(&self) -> bool {
        &&& forall|i: int, j: int|
            0 <= i < j < self.spec_cache().len() ==> (#[trigger] self.spec_cache()[i]).0@ != (
            #[trigger] self.spec_cache()[j]).0@
        &&& forall|i: int|
            0 <= i < self.spec_cache().len() ==> (#[trigger] self.spec_cache()[i]).1@
                == self.spec_cache()[i].0@
    }

    pub fn new(default_token: String) -> (r: Self)
        ensures
            r.wf(),
            r.spec_default_token() == default_token@,
            r.spec_cache() == Seq::<(String, SharedClient)>::empty(),
    {
        CloudflareClientProvider { default_token, cache: Vec::new() }
    }

    /// Reads the referenced secret out of the namespace and decodes its
    /// keyed byte value as text.
    pub fn fetch_secret(&self, ns: &NamespaceView, secret_ref: &SecretKeyRef) -> (r: Result<
        String,
        ProviderError,
    >)
        ensures
            matches_resolution(r, secret_model(*ns, secret_ref.name@, secret_ref.key@)),
    {
        match ns.find_secret(&secret_ref.name) {
            None => Err(ProviderError::SecretNotFound(secret_ref.name.clone())),
            Some(secret) => match secret.find_key(&secret_ref.key) {
                None => Err(ProviderError::SecretKeyMissing(secret_ref.key.clone())),
                Some(bytes) => match crate::text::str_from_utf8(bytes.as_slice()) {
                    None => Err(ProviderError::TokenEncoding),
                    Some(s) => Ok(s.to_owned()),
                },
            },
        }
    }

    /// Follows a reference chain to its token: a direct secret is
    /// fetched, parent references are resolved through the referenced
    /// object in turn, and a resource without references falls back to
    /// the default token. The walk is capped at the depth bound and then
    /// fails distinctly rather than looping.
    pub fn resolve_token(&self, start: Reference, ns: &NamespaceView) -> (r: Result<
        String,
        ProviderError,
    >)
        ensures
            matches_resolution(
                r,
                resolve_model(start, *ns, self.spec_default_token(), MAX_REFERENCE_DEPTH as nat),
            ),
    {
        let mut current = start;
        let mut fuel: u32 = MAX_REFERENCE_DEPTH;
        loop
            invariant
                fuel <= MAX_REFERENCE_DEPTH,
                resolve_model(current, *ns, self.default_token@, fuel as nat) == resolve_model(
                    start,
                    *ns,
                    self.default_token@,
                    MAX_REFERENCE_DEPTH as nat,
                ),
            decreases fuel,
        {
            match current {
                Reference::NoRef => {
                    return Ok(self.default_token.clone());
                },
                Reference::SecretRef(sr) => {
                    return self.fetch_secret(ns, &sr);
                },
                Reference::ZoneRef(zn) => {
                    if fuel == 0 {
                        return Err(ProviderError::ReferenceChainTooDeep);
                    }
                    match ns.find_zone(&zn) {
                        None => {
                            return Err(ProviderError::ZoneNotFound(zn));
                        },
                        Some(z) => {
                            current = z.reference();
                            fuel = fuel - 1;
                        },
                    }
                },
                Reference::AccountRef(an) => {
                    if fuel == 0 {
                        return Err(ProviderError::ReferenceChainTooDeep);
                    }
                    match ns.find_account(&an) {
                        None => {
                            return Err(ProviderError::AccountNotFound(an));
                        },
                        Some(a) => {
                            current = a.reference();
                            fuel = fuel - 1;
                        },
                    }
                },
            }
        }
    }

    /// Returns the shared client for the token, building and inserting
    /// one if the token is seen for the first time. A construction
    /// failure is reported and not cached.
    pub fn get_client_from_cache(&mut self, token: String) -> (r: Result<
        SharedClient,
        ProviderError,
    >)
        requires
            old(self).wf(),
        ensures
            final(self).wf(),
            final(self).spec_default_token() == old(self).spec_default_token(),
            match spec_cache_lookup(old(self).spec_cache(), token@) {
                Some(c) => r == Ok::<SharedClient, ProviderError>(c) && *final(self) == *old(self),
                None => match r {
                    Ok(c) => c@ == token@ && final(self).spec_cache() == old(self).spec_cache().push(
                        (token, c),
                    ),
                    Err(e) => (e matches ProviderError::ClientCreation(_)) && *final(self) == *old(self),
                },
            },
    {
        let mut i: usize = 0;
        proof {
            assert(self.cache@.skip(0) =~= self.cache@);
        }
        while i < self.cache.len()
            invariant
                old(self).wf(),
                *self == *old(self),
                i <= self.cache@.len(),
                spec_cache_lookup(self.cache@, token@) == spec_cache_lookup(
                    self.cache@.skip(i as int),
                    token@,
                ),
            decreases self.cache@.len() - i,
        {
            proof {
                assert(self.cache@.skip(i as int)[0] == self.cache@[i as int]);
                assert(self.cache@.skip(i as int).drop_first() =~= self.cache@.skip(i as int + 1));
            }
            if self.cache[i].0 == token {
                return Ok(crate::cf_client::arc_clone(&self.cache[i].1));
            }
            i += 1;
        }
        proof {
            assert(self.cache@.skip(i as int) =~= Seq::<(String, SharedClient)>::empty());
            lemma_cache_lookup_none(self.cache@, token@);
        }
        match CloudflareClient::new(token.clone()) {
            Err(e) => Err(ProviderError::ClientCreation(e)),
            Ok(client) => {
                let handle: SharedClient = Arc::new(client);
                let out = crate::cf_client::arc_clone(&handle);
                self.cache.push((token, handle));
                Ok(out)
            },
        }
    }

    /// Resolves the resource's reference chain and returns the shared
    /// client for the resolved token.
    pub fn get_client(&mut self, reference: Reference, ns: &NamespaceView) -> (r: Result<
        SharedClient,
        ProviderError,
    >)
        requires
            old(self).wf(),
        ensures
            final(self).wf(),
            final(self).spec_default_token() == old(self).spec_default_token(),
            match resolve_model(
                reference,
                *ns,
                old(self).spec_default_token(),
                MAX_REFERENCE_DEPTH as nat,
            ) {
                Resolution::Token(t) => match spec_cache_lookup(old(self).spec_cache(), t) {
                    Some(c) => r == Ok::<SharedClient, ProviderError>(c) && *final(self) == *old(self),
                    None => match r {
                        Ok(c) => c@ == t && exists|tok: String|
                            tok@ == t && final(self).spec_cache() == old(self).spec_cache().push(
                                (tok, c),
                            ),
                        Err(e) => (e matches ProviderError::ClientCreation(_)) && *final(self)
                            == *old(self),
                    },
                },
                m => r is Err && matches_resolution(
                    Err::<String, ProviderError>(r->Err_0),
                    m,
                ) && *final(self) == *old(self),
            },
    {
        match self.resolve_token(reference, ns) {
            Err(e) => Err(e),
            Ok(token) => self.get_client_from_cache(token),
        }
    }
}

} // verus!
