//! The DNSRecord custom resource and its reconcile decisions.

use vstd::prelude::*;

verus! {

use crate::cf_client::{CreateDnsRecordParams, DnsContent};
use crate::cloudflare::Reference;
use crate::finalize::{delete_note, delete_notification, DeleteNotification};
use crate::net::{ipv4_model, ipv6_model, parse_ipv4, parse_ipv6};
use crate::{Action, Error, DEFAULT_REQUEUE_SECS};

/// Desired state of a DNSRecord object.
#[derive(Clone, Debug, PartialEq, Eq)]
pub struct DNSRecordSpec {
    /// Name of the Zone object the record lives under.
    pub zone_ref: String,
    /// The DNS name of the record.
    pub name: String,
    /// The record type, one of the supported set A, AAAA, CNAME, MX, TXT.
    pub record_type: String,
    /// The record content; for address types the textual address literal.
    pub content: String,
    pub ttl: Option<u32>,
    pub priority: Option<u16>,
    pub proxied: Option<bool>,
}

impl DNSRecordSpec {
    pub fn zone_ref(&self) -> (r: &String)
        ensures
            r == &self.zone_ref,
    {
        &self.zone_ref
    }
}

/// Observed state of a DNSRecord object, overwritten wholesale on every
/// reconcile.
#[derive(Clone, Debug, PartialEq, Eq, Default)]
pub struct DNSRecordStatus {
    pub ready: bool,
    /// The external record identifier once the record exists upstream.
    pub record_id: Option<String>,
}

/// A DNSRecord object as the engines see it: object name, desired state,
/// last observed state.
#[derive(Clone, Debug, PartialEq, Eq)]
pub struct DNSRecord {
    /// The object's name in its namespace.
    pub name: String,
    pub spec: DNSRecordSpec,
    pub status: Option<DNSRecordStatus>,
}

impl DNSRecord {
    /// The credential reference this record carries: always the chain
    /// through its Zone.
    pub open spec fn spec_reference(&self) -> Reference {
        Reference::ZoneRef(self.spec.zone_ref)
    }

    /// The tagged reference the resolver dispatches on.
    pub fn reference(&self) -> (r: Reference)
        ensures
            r == self.spec_reference(),
    {
        Reference::ZoneRef(self.spec.zone_ref.clone())
    }

    /// The MX priority: the one in the spec, or ten when unset.
    pub open spec fn spec_mx_priority(&self) -> u16 {
        match self.spec.priority {
            Some(p) => p,
            None => 10u16,
        }
    }

    /// The create parameters carrying this record's spec fields and the
    /// given typed content.
    fn params(&self, content: DnsContent) -> (r: CreateDnsRecordParams)
        ensures
            r == (CreateDnsRecordParams {
                ttl: self.spec.ttl,
                priority: self.spec.priority,
                proxied: self.spec.proxied,
                name: self.spec.name,
                content,
            }),
    {
        CreateDnsRecordParams {
            ttl: self.spec.ttl,
            priority: self.spec.priority,
            proxied: self.spec.proxied,
            name: self.spec.name.clone(),
            content,
        }
    }

    /// Validates the record and builds the parameters of the upstream
    /// create call. The reserved object name fails deliberately; address
    /// types must carry a valid address literal, which is passed along
    /// parsed; the MX priority defaults to ten; a record type outside
    /// the supported set is rejected as such.
    pub fn plan(&self) -> (r: Result<CreateDnsRecordParams, Error>)
        ensures
            ({
                let t = self.spec.record_type@;
                if self.name@ == "illegal"@ {
                    r == Err::<CreateDnsRecordParams, Error>(Error::IllegalDocument)
                } else if t == "A"@ {
                    match ipv4_model(self.spec.content@) {
                        Some(o) => {
                            &&& r matches Ok(p)
                            &&& p.ttl == self.spec.ttl
                            &&& p.priority == self.spec.priority
                            &&& p.proxied == self.spec.proxied
                            &&& p.name == self.spec.name
                            &&& p.content matches DnsContent::A { content } && content.octets@ == o
                        },
                        None => r == Err::<CreateDnsRecordParams, Error>(
                            Error::InvalidIpAddress(self.spec.content),
                        ),
                    }
                } else if t == "AAAA"@ {
                    match ipv6_model(self.spec.content@) {
                        Some(o) => {
                            &&& r matches Ok(p)
                            &&& p.ttl == self.spec.ttl
                            &&& p.priority == self.spec.priority
                            &&& p.proxied == self.spec.proxied
                            &&& p.name == self.spec.name
                            &&& p.content matches DnsContent::AAAA { content } && content.segments@
                                == o
                        },
                        None => r == Err::<CreateDnsRecordParams, Error>(
                            Error::InvalidIpAddress(self.spec.content),
                        ),
                    }
                } else if t == "CNAME"@ {
                    r == Ok::<CreateDnsRecordParams, Error>(CreateDnsRecordParams {
                        ttl: self.spec.ttl,
                        priority: self.spec.priority,
                        proxied: self.spec.proxied,
                        name: self.spec.name,
                        content: DnsContent::CNAME { content: self.spec.content },
                    })
                } else if t == "MX"@ {
                    r == Ok::<CreateDnsRecordParams, Error>(CreateDnsRecordParams {
                        ttl: self.spec.ttl,
                        priority: self.spec.priority,
                        proxied: self.spec.proxied,
                        name: self.spec.name,
                        content: DnsContent::MX {
                            content: self.spec.content,
                            priority: self.spec_mx_priority(),
                        },
                    })
                } else if t == "TXT"@ {
                    r == Ok::<CreateDnsRecordParams, Error>(CreateDnsRecordParams {
                        ttl: self.spec.ttl,
                        priority: self.spec.priority,
                        proxied: self.spec.proxied,
                        name: self.spec.name,
                        content: DnsContent::TXT { content: self.spec.content },
                    })
                } else {
                    r == Err::<CreateDnsRecordParams, Error>(
                        Error::UnsupportedRecordType(self.spec.record_type),
                    )
                }
            }),
    {
        if crate::text::str_eq(self.name.as_str(), "illegal") {
            return Err(Error::IllegalDocument);
        }
        let t = self.spec.record_type.as_str();
        if crate::text::str_eq(t, "A") {
            match parse_ipv4(self.spec.content.as_str()) {
                Some(a) => Ok(self.params(DnsContent::A { content: a })),
                None => Err(Error::InvalidIpAddress(self.spec.content.clone())),
            }
        } else if crate::text::str_eq(t, "AAAA") {
            match parse_ipv6(self.spec.content.as_str()) {
                Some(a) => Ok(self.params(DnsContent::AAAA { content: a })),
                None => Err(Error::InvalidIpAddress(self.spec.content.clone())),
            }
        } else if crate::text::str_eq(t, "CNAME") {
            Ok(self.params(DnsContent::CNAME { content: self.spec.content.clone() }))
        } else if crate::text::str_eq(t, "MX") {
            let priority = match self.spec.priority {
                Some(p) => p,
                None => 10,
            };
            Ok(self.params(DnsContent::MX { content: self.spec.content.clone(), priority }))
        } else if crate::text::str_eq(t, "TXT") {
            Ok(self.params(DnsContent::TXT { content: self.spec.content.clone() }))
        } else {
            Err(Error::UnsupportedRecordType(self.spec.record_type.clone()))
        }
    }

    /// The status written wholesale after the upstream create succeeded,
    /// and the requeue on the drift interval that follows.
    pub fn after_create(&self, record_id: String) -> (r: (DNSRecordStatus, u64))
        ensures
            r.0 == (DNSRecordStatus { ready: true, record_id: Some(record_id) }),
            r.1 == DEFAULT_REQUEUE_SECS,
    {
        (DNSRecordStatus { ready: true, record_id: Some(record_id) }, DEFAULT_REQUEUE_SECS)
    }

    /// The cleanup step of the finalizer protocol: nothing is torn down
    /// upstream, only this notification is published; once publishing
    /// succeeded the object waits for its deletion to complete.
    pub fn cleanup(&self) -> (r: (DeleteNotification, Action))
        ensures
            r.0.reason@ == "DeleteRequested"@,
            r.0.action@ == "Deleting"@,
            r.0.note@ == delete_note(self.name@),
            r.1 == Action::AwaitChange,
    {
        (delete_notification(&self.name), Action::AwaitChange)
    }
}

} // verus!
