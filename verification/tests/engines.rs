//! The Zone and DNSRecord reconcile decisions.

use controller::account::{Account, AccountSpec, AccountStatus};
use controller::cf_client::{CreateDnsRecordParams, CreateZoneParams, DnsContent};
use controller::dns_record::{DNSRecord, DNSRecordSpec, DNSRecordStatus};
use controller::zone::{AccountLookup, Zone, ZoneApplyStep, ZonePlan, ZoneSpec, ZoneStatus};
use controller::{error_policy, Action, Error};

fn zone_with_account(account: &str) -> Zone {
    Zone {
        name: "example-zone".to_string(),
        spec: ZoneSpec {
            account_ref: Some(account.to_string()),
            secret_ref: None,
        },
        status: None,
    }
}

fn account(name: &str, id: &str, ready: Option<bool>) -> Account {
    Account {
        name: name.to_string(),
        spec: AccountSpec {
            id: id.to_string(),
            secret_ref: None,
        },
        status: ready.map(|r| AccountStatus {
            ready: r,
            token_id: None,
            error: None,
        }),
    }
}

fn record(name: &str, record_type: &str, content: &str) -> DNSRecord {
    DNSRecord {
        name: name.to_string(),
        spec: DNSRecordSpec {
            zone_ref: "example-zone".to_string(),
            name: "www.example.com".to_string(),
            record_type: record_type.to_string(),
            content: content.to_string(),
            ttl: Some(120),
            priority: None,
            proxied: Some(false),
        },
        status: None,
    }
}

#[test]
fn zone_plan_checks_referenced_account() {
    let z = zone_with_account("acct");
    assert_eq!(z.plan(), ZonePlan::CheckAccount("acct".to_string()));
}

#[test]
fn zone_plan_without_reference_requeues_on_drift_interval() {
    let mut z = zone_with_account("acct");
    z.spec.account_ref = None;
    assert_eq!(z.plan(), ZonePlan::Requeue(300));
}

#[test]
fn zone_plan_illegal_name_fails() {
    let z = Zone {
        name: "illegal".to_string(),
        spec: ZoneSpec {
            account_ref: None,
            secret_ref: None,
        },
        status: None,
    };
    assert_eq!(z.plan(), ZonePlan::Fail(Error::IllegalDocument));
}

#[test]
fn zone_account_reference_takes_precedence_over_illegal_name() {
    let mut z = zone_with_account("acct");
    z.name = "illegal".to_string();
    assert_eq!(z.plan(), ZonePlan::CheckAccount("acct".to_string()));
}

#[test]
fn missing_account_blocks_with_short_retry() {
    let z = zone_with_account("acct");
    let step = z.gate_account(&AccountLookup::Missing);
    match step {
        ZoneApplyStep::UpdateStatus {
            status,
            requeue_secs,
        } => {
            assert!(!status.ready);
            assert_eq!(status.id, None);
            assert_eq!(status.error.as_deref(), Some("dependency account/acct not found"));
            assert_eq!(requeue_secs, 30);
        }
        other => panic!("expected a status update, got {:?}", other),
    }
}

#[test]
fn unready_account_blocks_and_never_creates() {
    let z = zone_with_account("acct");
    for acc in [
        account("acct", "cf-acct-1", Some(false)),
        account("acct", "cf-acct-1", None),
    ] {
        let step = z.gate_account(&AccountLookup::Found(acc));
        assert!(!matches!(step, ZoneApplyStep::CreateZone { .. }));
        match step {
            ZoneApplyStep::UpdateStatus {
                status,
                requeue_secs,
            } => {
                assert!(!status.ready);
                assert_eq!(
                    status.error.as_deref(),
                    Some("dependency account/acct is not ready")
                );
                assert_eq!(requeue_secs, 60);
            }
            other => panic!("expected a status update, got {:?}", other),
        }
    }
}

#[test]
fn ready_account_proceeds_to_create() {
    let z = zone_with_account("acct");
    let step = z.gate_account(&AccountLookup::Found(account("acct", "cf-acct-1", Some(true))));
    assert_eq!(
        step,
        ZoneApplyStep::CreateZone {
            params: CreateZoneParams {
                name: "example-zone".to_string(),
                account_id: "cf-acct-1".to_string(),
            }
        }
    );
}

#[test]
fn failed_account_lookup_fails_the_reconcile() {
    let z = zone_with_account("acct");
    let step = z.gate_account(&AccountLookup::Failed("connection refused".to_string()));
    assert_eq!(
        step,
        ZoneApplyStep::Fail {
            error: Error::KubeError("connection refused".to_string())
        }
    );
}

#[test]
fn zone_create_success_marks_ready_with_id() {
    let z = zone_with_account("acct");
    let (status, secs) = z.after_create(&Ok("zone-id-1".to_string()));
    assert_eq!(
        status,
        ZoneStatus {
            ready: true,
            id: Some("zone-id-1".to_string()),
            error: None,
        }
    );
    assert_eq!(secs, 300);
}

#[test]
fn zone_create_failure_surfaces_message_and_retries() {
    let z = zone_with_account("acct");
    let (status, secs) = z.after_create(&Err("upstream said no".to_string()));
    assert_eq!(
        status,
        ZoneStatus {
            ready: false,
            id: None,
            error: Some("upstream said no".to_string()),
        }
    );
    assert_eq!(secs, 60);
}

#[test]
fn a_record_carries_the_parsed_address() {
    let rec = record("www", "A", "10.0.0.1");
    let params = rec.plan().expect("a valid A record");
    assert_eq!(params.name, "www.example.com");
    assert_eq!(params.ttl, Some(120));
    assert_eq!(params.proxied, Some(false));
    match params.content {
        DnsContent::A { content } => assert_eq!(content.octets, [10, 0, 0, 1]),
        other => panic!("expected parsed A content, got {:?}", other),
    }
}

#[test]
fn a_record_with_bad_address_fails_and_builds_nothing() {
    let rec = record("www", "A", "not-an-ip");
    assert_eq!(
        rec.plan(),
        Err(Error::InvalidIpAddress("not-an-ip".to_string()))
    );
}

#[test]
fn aaaa_record_carries_the_parsed_address() {
    let rec = record("www", "AAAA", "::1");
    let params = rec.plan().expect("a valid AAAA record");
    match params.content {
        DnsContent::AAAA { content } => {
            assert_eq!(content.segments, [0, 0, 0, 0, 0, 0, 0, 1])
        }
        other => panic!("expected parsed AAAA content, got {:?}", other),
    }
}

#[test]
fn aaaa_record_with_bad_address_fails() {
    let rec = record("www", "AAAA", "1::2::3");
    assert_eq!(rec.plan(), Err(Error::InvalidIpAddress("1::2::3".to_string())));
}

#[test]
fn cname_record_passes_content_through() {
    let rec = record("www", "CNAME", "target.example.com");
    let params = rec.plan().expect("a valid CNAME record");
    assert_eq!(
        params.content,
        DnsContent::CNAME {
            content: "target.example.com".to_string()
        }
    );
}

#[test]
fn txt_record_passes_content_through() {
    let rec = record("www", "TXT", "v=spf1 -all");
    let params = rec.plan().expect("a valid TXT record");
    assert_eq!(
        params.content,
        DnsContent::TXT {
            content: "v=spf1 -all".to_string()
        }
    );
}

#[test]
fn mx_record_defaults_priority_to_ten() {
    let rec = record("mail", "MX", "mx.example.com");
    let params = rec.plan().expect("a valid MX record");
    assert_eq!(
        params.content,
        DnsContent::MX {
            content: "mx.example.com".to_string(),
            priority: 10,
        }
    );
}

#[test]
fn mx_record_keeps_explicit_priority() {
    let mut rec = record("mail", "MX", "mx.example.com");
    rec.spec.priority = Some(5);
    let params = rec.plan().expect("a valid MX record");
    assert_eq!(
        params.content,
        DnsContent::MX {
            content: "mx.example.com".to_string(),
            priority: 5,
        }
    );
}

#[test]
fn unsupported_record_type_is_rejected() {
    let rec = record("srv", "SRV", "0 5 5060 sip.example.com");
    assert_eq!(
        rec.plan(),
        Err(Error::UnsupportedRecordType("SRV".to_string()))
    );
}

#[test]
fn illegal_record_name_always_fails() {
    let rec = record("illegal", "A", "10.0.0.1");
    assert_eq!(rec.plan(), Err(Error::IllegalDocument));
}

#[test]
fn dns_create_success_overwrites_status() {
    let rec = record("www", "A", "10.0.0.1");
    let (status, secs) = rec.after_create("rec-id-9".to_string());
    assert_eq!(
        status,
        DNSRecordStatus {
            ready: true,
            record_id: Some("rec-id-9".to_string()),
        }
    );
    assert_eq!(secs, 300);
}

#[test]
fn error_policy_requeues_on_default_interval() {
    let (label, action) = error_policy(&Error::IllegalDocument);
    assert_eq!(label, "illegaldocument");
    assert_eq!(action, Action::Requeue(300));
}

#[test]
fn metric_labels_name_the_error_kind() {
    assert_eq!(
        Error::UnsupportedRecordType("SRV".to_string()).metric_label(),
        "unsupportedrecordtype"
    );
    assert_eq!(
        Error::InvalidIpAddress("x".to_string()).metric_label(),
        "invalidipaddress"
    );
    assert_eq!(Error::KubeError("x".to_string()).metric_label(), "kubeerror");
    assert_eq!(
        Error::CloudflareApiError("x".to_string()).metric_label(),
        "cloudflareapierror"
    );
}
