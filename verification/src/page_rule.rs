//! The PageRule custom resource: the declarative model of a Cloudflare
//! page rule, carried by the operator as plain data.

use std::collections::HashMap;
use vstd::prelude::*;

verus! {

/// Desired state of a PageRule object.
#[derive(Clone, Debug)]
pub struct PageRuleSpec {
    /// The external zone identifier this page rule belongs to.
    pub zone_id: String,
    /// The set of actions to perform if the targets match the request.
    pub actions: Vec<PageRuleAction>,
    /// The priority of the rule; a higher number is a higher priority.
    pub priority: i64,
    /// Whether the rule is active or disabled.
    pub status: PageRuleStatusType,
    /// The rule targets to evaluate on each request.
    pub targets: Vec<PageRuleTarget>,
}

/// The status a PageRule spec carries when none is given.
pub fn default_status() -> (r: PageRuleStatusType)
    ensures
        r == PageRuleStatusType::Active,
{
    PageRuleStatusType::Active
}

/// One action of a page rule.
#[derive(Clone, Debug)]
pub struct PageRuleAction {
    /// The action identifier.
    pub id: PageRuleActionID,
    /// The action value; its shape depends on the action identifier.
    pub value: Option<PageRuleActionValue>,
}

/// The value of a page rule action.
#[derive(Clone, Debug)]
pub enum PageRuleActionValue {
    Bool(bool),
    Int(i64),
    String(String),
    ForwardingURL(ForwardingURLValue),
    CacheTTLByStatus(HashMap<String, i64>),
    CacheKeyFields(CacheKeyFieldsValue),
}

#[derive(Clone, Debug, PartialEq, Eq)]
pub struct ForwardingURLValue {
    pub url: String,
    pub status_code: i64,
}

#[derive(Clone, Debug, PartialEq, Eq)]
pub struct CacheKeyFieldsValue {
    pub query_string: Option<CacheKeyQueryString>,
    pub header: Option<CacheKeyHeader>,
    pub cookie: Option<CacheKeyCookie>,
    pub host: Option<CacheKeyHost>,
    pub user: Option<CacheKeyUser>,
}

#[derive(Clone, Debug, PartialEq, Eq)]
pub struct CacheKeyQueryString {
    pub exclude: Option<Vec<String>>,
    pub includes: Option<Vec<String>>,
}

#[derive(Clone, Debug, PartialEq, Eq)]
pub struct CacheKeyHeader {
    pub exclude: Option<Vec<String>>,
    pub includes: Option<Vec<String>>,
    pub check_presence: Option<Vec<String>>,
}

#[derive(Clone, Debug, PartialEq, Eq)]
pub struct CacheKeyCookie {
    pub exclude: Option<Vec<String>>,
    pub includes: Option<Vec<String>>,
    pub check_presence: Option<Vec<String>>,
}

#[derive(Clone, Copy, Debug, PartialEq, Eq)]
pub struct CacheKeyHost {
    pub resolved: bool,
}

#[derive(Clone, Copy, Debug, PartialEq, Eq)]
pub struct CacheKeyUser {
    pub device_type: bool,
    pub geo: bool,
    pub lang: bool,
}

/// One target of a page rule.
#[derive(Clone, Debug, PartialEq, Eq)]
pub struct PageRuleTarget {
    /// The target type.
    pub target: PageRuleTargetType,
    /// The constraint for this target.
    pub constraint: PageRuleConstraint,
}

#[derive(Clone, Debug, PartialEq, Eq)]
pub struct PageRuleConstraint {
    /// The operator.
    pub operator: PageRuleOperator,
    /// The value to match against.
    pub value: String,
}

#[derive(Clone, Copy, Debug, PartialEq, Eq)]
pub enum PageRuleTargetType {
    Url,
}

#[derive(Clone, Copy, Debug, PartialEq, Eq)]
pub enum PageRuleOperator {
    Matches,
    Contains,
    Equals,
    NotEquals,
}

#[derive(Clone, Copy, Debug, PartialEq, Eq)]
pub enum PageRuleActionID {
    AlwaysUseHttps,
    AutomaticHttpsRewrites,
    BrowserCacheTtl,
    BrowserCheck,
    BypassCacheOnCookie,
    CacheByDeviceType,
    CacheDeceptionArmor,
    CacheKeyFields,
    CacheLevel,
    CacheOnCookie,
    CacheTtlByStatus,
    DisableApps,
    DisablePerformance,
    DisableSecurity,
    DisableZaraz,
    EdgeCacheTtl,
    EmailObfuscation,
    ExplicitCacheControl,
    ForwardingUrl,
    HostHeaderOverride,
    IpGeolocation,
    Mirage,
    OpportunisticEncryption,
    OriginErrorPagePassThru,
    Polish,
    ResolveOverride,
    RespectStrongEtag,
    ResponseBuffering,
    RocketLoader,
    SecurityLevel,
    SortQueryStringForCache,
    Ssl,
    TrueClientIpHeader,
    Waf,
}

#[derive(Clone, Copy, Debug, PartialEq, Eq)]
pub enum PageRuleStatusType {
    Active,
    Disabled,
}

/// Observed state of a PageRule object.
#[derive(Clone, Debug, PartialEq, Eq, Default)]
pub struct PageRuleStatus {
    /// Whether the page rule is ready.
    pub ready: bool,
    /// The external page rule identifier.
    pub rule_id: Option<String>,
    /// When the rule was created upstream.
    pub created_on: Option<String>,
    /// When the rule was last modified upstream.
    pub modified_on: Option<String>,
}

} // verus!
