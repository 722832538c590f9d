//! The finalizer protocol and the deletion notification.

use controller::dns_record::{DNSRecord, DNSRecordSpec};
use controller::finalize::{
    after_cleanup, dns_record_finalizer, finalizer_step, zone_finalizer, CleanupResolution,
    FinalizerStep,
};
use controller::zone::{Zone, ZoneSpec};
use controller::{Action, Error};

#[test]
fn object_without_finalizer_acquires_it_before_apply() {
    assert_eq!(finalizer_step(false, false), FinalizerStep::AddFinalizer);
}

#[test]
fn object_with_finalizer_runs_apply() {
    assert_eq!(finalizer_step(true, false), FinalizerStep::RunApply);
}

#[test]
fn deleted_object_with_finalizer_runs_cleanup() {
    assert_eq!(finalizer_step(true, true), FinalizerStep::RunCleanup);
}

#[test]
fn deleted_object_without_finalizer_is_ignored() {
    assert_eq!(finalizer_step(false, true), FinalizerStep::Ignore);
}

#[test]
fn finalizer_removed_only_after_successful_cleanup() {
    assert_eq!(
        after_cleanup(Ok(Action::AwaitChange)),
        CleanupResolution::RemoveFinalizer(Action::AwaitChange)
    );
    assert_eq!(
        after_cleanup(Err(Error::KubeError("event publish failed".to_string()))),
        CleanupResolution::Retry(Error::KubeError("event publish failed".to_string()))
    );
}

#[test]
fn finalizer_markers_are_kind_specific() {
    assert_eq!(zone_finalizer(), "zone.cloudflare.com");
    assert_eq!(dns_record_finalizer(), "dnsrecord.cloudflare.com");
}

#[test]
fn zone_cleanup_publishes_delete_notification() {
    let z = Zone {
        name: "example-zone".to_string(),
        spec: ZoneSpec {
            account_ref: None,
            secret_ref: None,
        },
        status: None,
    };
    let (note, action) = z.cleanup();
    assert_eq!(note.reason, "DeleteRequested");
    assert_eq!(note.action, "Deleting");
    assert_eq!(note.note, "Delete `example-zone`");
    assert_eq!(action, Action::AwaitChange);
}

#[test]
fn dns_record_cleanup_publishes_delete_notification() {
    let rec = DNSRecord {
        name: "www".to_string(),
        spec: DNSRecordSpec {
            zone_ref: "example-zone".to_string(),
            name: "www.example.com".to_string(),
            record_type: "A".to_string(),
            content: "10.0.0.1".to_string(),
            ttl: None,
            priority: None,
            proxied: None,
        },
        status: None,
    };
    let (note, action) = rec.cleanup();
    assert_eq!(note.reason, "DeleteRequested");
    assert_eq!(note.note, "Delete `www`");
    assert_eq!(action, Action::AwaitChange);
}
