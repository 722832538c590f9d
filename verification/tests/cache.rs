//! The client cache: one shared client per resolved token.

use std::sync::Arc;

use controller::cloudflare::{
    CloudflareClientProvider, NamespaceView, Reference, SecretKeyRef, SecretObject,
};

fn provider() -> CloudflareClientProvider {
    CloudflareClientProvider::new("default-token".to_string())
}

#[test]
fn same_token_yields_the_same_shared_instance() {
    let mut p = provider();
    let c1 = p.get_client_from_cache("tok-a".to_string()).expect("client");
    let c2 = p.get_client_from_cache("tok-a".to_string()).expect("client");
    assert!(Arc::ptr_eq(&c1, &c2));
    assert_eq!(c1.token(), "tok-a");
}

#[test]
fn distinct_tokens_yield_distinct_instances() {
    let mut p = provider();
    let c1 = p.get_client_from_cache("tok-a".to_string()).expect("client");
    let c2 = p.get_client_from_cache("tok-b".to_string()).expect("client");
    assert!(!Arc::ptr_eq(&c1, &c2));
    assert_eq!(c1.token(), "tok-a");
    assert_eq!(c2.token(), "tok-b");
}

#[test]
fn cloned_client_stays_bound_to_its_token() {
    let mut p = provider();
    let c = p.get_client_from_cache("tok-a".to_string()).expect("client");
    let copy = (*c).clone();
    assert_eq!(copy.token(), "tok-a");
    assert!(Arc::ptr_eq(copy.api(), c.api()));
}

#[test]
fn get_client_resolves_and_caches() {
    let ns = NamespaceView {
        zones: vec![],
        accounts: vec![],
        secrets: vec![SecretObject {
            name: "cf-token".to_string(),
            data: vec![("token".to_string(), b"resolved-tok".to_vec())],
        }],
    };
    let reference = Reference::SecretRef(SecretKeyRef {
        name: "cf-token".to_string(),
        key: "token".to_string(),
    });
    let mut p = provider();
    let c1 = p.get_client(reference.clone(), &ns).expect("client");
    assert_eq!(c1.token(), "resolved-tok");
    let c2 = p.get_client(reference, &ns).expect("client");
    assert!(Arc::ptr_eq(&c1, &c2));
}

#[test]
fn default_token_client_is_shared_too() {
    let ns = NamespaceView {
        zones: vec![],
        accounts: vec![],
        secrets: vec![],
    };
    let mut p = provider();
    let c1 = p.get_client(Reference::NoRef, &ns).expect("client");
    let c2 = p.get_client_from_cache("default-token".to_string()).expect("client");
    assert!(Arc::ptr_eq(&c1, &c2));
}
