//! Credential resolution over a namespace of objects.

use controller::account::{Account, AccountSpec, AccountStatus};
use controller::cloudflare::{
    CloudflareClientProvider, NamespaceView, ProviderError, Reference, SecretKeyRef, SecretObject,
};
use controller::zone::{Zone, ZoneSpec};

fn secret(name: &str, key: &str, value: &[u8]) -> SecretObject {
    SecretObject {
        name: name.to_string(),
        data: vec![(key.to_string(), value.to_vec())],
    }
}

fn empty_ns() -> NamespaceView {
    NamespaceView {
        zones: vec![],
        accounts: vec![],
        secrets: vec![],
    }
}

fn provider() -> CloudflareClientProvider {
    CloudflareClientProvider::new("default-token".to_string())
}

fn secret_ref(name: &str, key: &str) -> SecretKeyRef {
    SecretKeyRef {
        name: name.to_string(),
        key: key.to_string(),
    }
}

#[test]
fn direct_secret_resolves_to_decoded_value() {
    let mut ns = empty_ns();
    ns.secrets.push(secret("cf-token", "token", b"abc-token"));
    let p = provider();
    let r = p.resolve_token(Reference::SecretRef(secret_ref("cf-token", "token")), &ns);
    assert_eq!(r, Ok("abc-token".to_string()));
}

#[test]
fn absent_secret_fails_not_found() {
    let ns = empty_ns();
    let p = provider();
    let r = p.resolve_token(Reference::SecretRef(secret_ref("cf-token", "token")), &ns);
    assert_eq!(r, Err(ProviderError::SecretNotFound("cf-token".to_string())));
}

#[test]
fn absent_key_fails_key_missing() {
    let mut ns = empty_ns();
    ns.secrets.push(secret("cf-token", "other", b"abc"));
    let p = provider();
    let r = p.resolve_token(Reference::SecretRef(secret_ref("cf-token", "token")), &ns);
    assert_eq!(r, Err(ProviderError::SecretKeyMissing("token".to_string())));
}

#[test]
fn invalid_utf8_fails_token_encoding() {
    let mut ns = empty_ns();
    ns.secrets.push(secret("cf-token", "token", &[0xff, 0xfe, 0x41]));
    let p = provider();
    let r = p.resolve_token(Reference::SecretRef(secret_ref("cf-token", "token")), &ns);
    assert_eq!(r, Err(ProviderError::TokenEncoding));
}

#[test]
fn no_reference_falls_back_to_default_token() {
    let p = provider();
    let r = p.resolve_token(Reference::NoRef, &empty_ns());
    assert_eq!(r, Ok("default-token".to_string()));
}

#[test]
fn zone_with_account_resolves_through_account_secret() {
    let mut ns = empty_ns();
    ns.secrets.push(secret("acct-secret", "token", b"account-token"));
    ns.accounts.push(Account {
        name: "acct".to_string(),
        spec: AccountSpec {
            id: "cf-acct-1".to_string(),
            secret_ref: Some(secret_ref("acct-secret", "token")),
        },
        status: None,
    });
    ns.zones.push(Zone {
        name: "example-zone".to_string(),
        spec: ZoneSpec {
            account_ref: Some("acct".to_string()),
            secret_ref: None,
        },
        status: None,
    });
    let p = provider();
    let r = p.resolve_token(Reference::ZoneRef("example-zone".to_string()), &ns);
    assert_eq!(r, Ok("account-token".to_string()));
}

#[test]
fn zone_with_bare_account_resolves_to_default_token() {
    let mut ns = empty_ns();
    ns.accounts.push(Account {
        name: "acct".to_string(),
        spec: AccountSpec {
            id: "cf-acct-1".to_string(),
            secret_ref: None,
        },
        status: None,
    });
    ns.zones.push(Zone {
        name: "example-zone".to_string(),
        spec: ZoneSpec {
            account_ref: Some("acct".to_string()),
            secret_ref: None,
        },
        status: None,
    });
    let p = provider();
    let r = p.resolve_token(Reference::ZoneRef("example-zone".to_string()), &ns);
    assert_eq!(r, Ok("default-token".to_string()));
}

#[test]
fn zone_direct_secret_wins_over_account() {
    let mut ns = empty_ns();
    ns.secrets.push(secret("zone-secret", "token", b"zone-token"));
    ns.secrets.push(secret("acct-secret", "token", b"account-token"));
    ns.accounts.push(Account {
        name: "acct".to_string(),
        spec: AccountSpec {
            id: "cf-acct-1".to_string(),
            secret_ref: Some(secret_ref("acct-secret", "token")),
        },
        status: None,
    });
    ns.zones.push(Zone {
        name: "example-zone".to_string(),
        spec: ZoneSpec {
            account_ref: Some("acct".to_string()),
            secret_ref: Some(secret_ref("zone-secret", "token")),
        },
        status: None,
    });
    let p = provider();
    let r = p.resolve_token(Reference::ZoneRef("example-zone".to_string()), &ns);
    assert_eq!(r, Ok("zone-token".to_string()));
}

#[test]
fn missing_zone_fails_zone_not_found() {
    let p = provider();
    let r = p.resolve_token(Reference::ZoneRef("nope".to_string()), &empty_ns());
    assert_eq!(r, Err(ProviderError::ZoneNotFound("nope".to_string())));
}

#[test]
fn missing_account_fails_account_not_found() {
    let p = provider();
    let r = p.resolve_token(Reference::AccountRef("nope".to_string()), &empty_ns());
    assert_eq!(r, Err(ProviderError::AccountNotFound("nope".to_string())));
}

#[test]
fn fetch_secret_reads_the_referenced_key() {
    let mut ns = empty_ns();
    ns.secrets
        .push(secret("cf-token", "token", b"SECRET-REDACTED"));
    let p = provider();
    let r = p.fetch_secret(&ns, &secret_ref("cf-token", "token"));
    assert_eq!(r, Ok("SECRET-REDACTED".to_string()));
}

#[test]
fn resolution_picks_first_secret_of_the_name() {
    let mut ns = empty_ns();
    ns.secrets.push(secret("cf-token", "token", b"first"));
    ns.secrets.push(secret("cf-token", "token", b"second"));
    let p = provider();
    let r = p.resolve_token(Reference::SecretRef(secret_ref("cf-token", "token")), &ns);
    assert_eq!(r, Ok("first".to_string()));
}
