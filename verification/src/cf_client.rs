//! The Cloudflare API client handle and the parameter types of the
//! upstream operations the engines drive.
//!
//! The handle binds one API token to one shared client instance of the
//! cloudflare crate. Building the client is a plain computation; issuing
//! requests with it is network I/O and stays with the caller of the
//! library.

use std::sync::Arc;
use vstd::prelude::*;

verus! {

use crate::net::{Ipv4Address, Ipv6Address};

/// The asynchronous client type of the cloudflare crate, carried opaquely.
#[verifier::external_type_specification]
#[verifier::external_body]
pub struct ExApiClient(cloudflare::framework::client::async_api::Client);

/// Relies on Arc::clone: the clone is the same shared value.
#[verifier::external_body]
pub(crate) fn arc_clone<T>(a: &Arc<T>) -> (r: Arc<T>)
    ensures
        r == *a,
{
    Arc::clone(a)
}

/// Relies on the cloudflare crate's async_api::Client::new, called with
/// user-auth-token credentials, the default client configuration and the
/// production environment; on failure the rendered error message is
/// returned. Nothing is promised of the outcome: construction may fail
/// depending on the process environment.
#[verifier::external_body]
fn build_api_client(token: &String) -> (r: Result<
    cloudflare::framework::client::async_api::Client,
    String,
>) {
    let credentials = cloudflare::framework::auth::Credentials::UserAuthToken {
        token: token.clone(),
    };
    cloudflare::framework::client::async_api::Client::new(
        credentials,
        cloudflare::framework::client::ClientConfig::default(),
        cloudflare::framework::Environment::Production,
    ).map_err(|e| e.to_string())
}

/// An API client bound to one token. Every resource whose reference chain
/// resolves to the same token shares one instance of it.
pub struct CloudflareClient {
    token: String,
    client: Arc<cloudflare::framework::client::async_api::Client>,
}

impl View for CloudflareClient {
    type V = Seq<char>;

    /// A client is abstractly the token it is bound to.
    closed spec fn view(&self) -> Seq<char> {
        self.token@
    }
}

impl CloudflareClient {
    /// Builds a client bound to the given token, or reports the
    /// construction failure message.
    pub fn new(token: String) -> (r: Result<Self, String>)
        ensures
            r matches Ok(c) ==> c@ == token@,
    {
        match build_api_client(&token) {
            Ok(api) => Ok(CloudflareClient { token, client: Arc::new(api) }),
            Err(e) => Err(e),
        }
    }

    /// The token this client is bound to.
    pub fn token(&self) -> (r: &String)
        ensures
            r@ == self@,
    {
        &self.token
    }

    /// The underlying client of the cloudflare crate, for issuing the
    /// actual API requests.
    pub fn api(&self) -> (r: &Arc<cloudflare::framework::client::async_api::Client>) {
        &self.client
    }
}

impl Clone for CloudflareClient {
    /// The clone shares the underlying client and stays bound to the
    /// same token.
    fn clone(&self) -> (r: Self)
        ensures
            r@ == self@,
    {
        CloudflareClient { token: self.token.clone(), client: arc_clone(&self.client) }
    }
}

/// Parameters of the upstream create-zone operation.
#[derive(Clone, Debug, PartialEq, Eq)]
pub struct CreateZoneParams {
    /// The zone name to create.
    pub name: String,
    /// The external identifier of the owning account.
    pub account_id: String,
}

/// Typed content of a DNS record, as the upstream create call takes it.
/// Address types carry the parsed literal, not its text.
#[derive(Clone, Debug, PartialEq, Eq)]
pub enum DnsContent {
    A { content: Ipv4Address },
    AAAA { content: Ipv6Address },
    CNAME { content: String },
    MX { content: String, priority: u16 },
    TXT { content: String },
}

/// Parameters of the upstream create-dns-record operation.
#[derive(Clone, Debug, PartialEq, Eq)]
pub struct CreateDnsRecordParams {
    pub ttl: Option<u32>,
    pub priority: Option<u16>,
    pub proxied: Option<bool>,
    /// The DNS name of the record.
    pub name: String,
    pub content: DnsContent,
}

} // verus!
