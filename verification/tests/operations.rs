//! Operation identifier helpers and the PageRule data model.

use std::collections::HashMap;

use controller::openapi::{generate_id, is_http_method};
use controller::page_rule::{
    default_status, PageRuleAction, PageRuleActionID, PageRuleActionValue, PageRuleConstraint,
    PageRuleOperator, PageRuleSpec, PageRuleStatus, PageRuleStatusType, PageRuleTarget,
    PageRuleTargetType,
};

#[test]
fn http_methods_are_recognized_case_insensitively() {
    assert!(is_http_method("get"));
    assert!(is_http_method("GET"));
    assert!(is_http_method("Post"));
    assert!(is_http_method("DELETE"));
    assert!(is_http_method("options"));
    assert!(is_http_method("head"));
    assert!(!is_http_method("TRACE"));
    assert!(!is_http_method("gets"));
    assert!(!is_http_method(""));
}

#[test]
fn operation_ids_come_from_method_and_path() {
    assert_eq!(
        generate_id("GET", "/zones/{zone_id}/dns_records"),
        "get_zones_zone_id_dns_records"
    );
    assert_eq!(generate_id("POST", "/accounts"), "post_accounts");
    assert_eq!(
        generate_id("put", "/zones/{id}"),
        "put_zones_id"
    );
    assert_eq!(
        generate_id("DELETE", "/a-b/c"),
        "delete_a_b_c"
    );
}

#[test]
fn page_rule_default_status_is_active() {
    assert!(matches!(default_status(), PageRuleStatusType::Active));
}

#[test]
fn page_rule_spec_holds_targets_and_actions() {
    let mut ttl_by_status: HashMap<String, i64> = HashMap::new();
    ttl_by_status.insert("200".to_string(), 3600);
    let spec = PageRuleSpec {
        zone_id: "zone-1".to_string(),
        actions: vec![
            PageRuleAction {
                id: PageRuleActionID::AlwaysUseHttps,
                value: None,
            },
            PageRuleAction {
                id: PageRuleActionID::CacheTtlByStatus,
                value: Some(PageRuleActionValue::CacheTTLByStatus(ttl_by_status)),
            },
        ],
        priority: 1,
        status: default_status(),
        targets: vec![PageRuleTarget {
            target: PageRuleTargetType::Url,
            constraint: PageRuleConstraint {
                operator: PageRuleOperator::Matches,
                value: "*example.com/*".to_string(),
            },
        }],
    };
    assert_eq!(spec.actions.len(), 2);
    assert!(matches!(
        spec.actions[0].id,
        PageRuleActionID::AlwaysUseHttps
    ));
    let status = PageRuleStatus::default();
    assert!(!status.ready);
    assert_eq!(status.rule_id, None);
}
