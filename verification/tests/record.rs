use dyndns_sync::record::{Meta, Record, Response, ResultInfo};
use serde_json::Value;

fn full_record() -> Record {
    Record {
        id: "372e67954025e0ba6aaa6d586b9e0b59".to_string(),
        zone_id: "023e105f4ecef8ad9ca31a8372d0c353".to_string(),
        zone_name: "example.com".to_string(),
        name: "home.example.com".to_string(),
        type_field: "A".to_string(),
        ip_addr: "198.51.100.4".to_string(),
        proxiable: true,
        proxied: false,
        ttl: 3600,
        locked: false,
        meta: Meta {
            auto_added: true,
            managed_by_apps: false,
            managed_by_argo_tunnel: true,
            source: "primary".to_string(),
            email_routing: Some(false),
            read_only: None,
        },
        comment: Some("Domain verification record".to_string()),
        tags: vec![
            Value::String("owner:dns-team".to_string()),
            Value::Bool(true),
            Value::Null,
            Value::Array(vec![Value::from(1), Value::from("two")]),
        ],
        created_on: "2014-01-01T05:20:00.12345Z".to_string(),
        modified_on: "2014-01-01T05:20:00.12345Z".to_string(),
        priority: Some(10),
    }
}

#[test]
fn with_content_replaces_the_content() {
    let updated = full_record().with_content("203.0.113.7");
    assert_eq!(updated.ip_addr, "203.0.113.7");
}

#[test]
fn with_content_keeps_every_other_field() {
    let original = full_record();
    let updated = original.with_content("203.0.113.7");
    assert_eq!(updated.id, original.id);
    assert_eq!(updated.zone_id, original.zone_id);
    assert_eq!(updated.zone_name, original.zone_name);
    assert_eq!(updated.name, original.name);
    assert_eq!(updated.type_field, original.type_field);
    assert_eq!(updated.proxiable, original.proxiable);
    assert_eq!(updated.proxied, original.proxied);
    assert_eq!(updated.ttl, original.ttl);
    assert_eq!(updated.locked, original.locked);
    assert_eq!(updated.meta, original.meta);
    assert_eq!(updated.comment, original.comment);
    assert_eq!(updated.tags, original.tags);
    assert_eq!(updated.created_on, original.created_on);
    assert_eq!(updated.modified_on, original.modified_on);
    assert_eq!(updated.priority, original.priority);
    let mut expected = full_record();
    expected.ip_addr = "203.0.113.7".to_string();
    assert_eq!(updated, expected);
}

#[test]
fn with_content_leaves_the_original_alone() {
    let original = full_record();
    let _ = original.with_content("203.0.113.7");
    assert_eq!(original, full_record());
}

#[test]
fn with_same_content_is_a_copy() {
    let original = full_record();
    assert_eq!(original.with_content("198.51.100.4"), original);
}

#[test]
fn with_content_takes_any_text() {
    assert_eq!(full_record().with_content("").ip_addr, "");
    assert_eq!(full_record().with_content("not an address").ip_addr, "not an address");
}

#[test]
fn with_content_keeps_tags_in_order() {
    let updated = full_record().with_content("203.0.113.7");
    assert_eq!(updated.tags.len(), 4);
    assert_eq!(updated.tags[0], Value::String("owner:dns-team".to_string()));
    assert_eq!(updated.tags[1], Value::Bool(true));
    assert_eq!(updated.tags[2], Value::Null);
    assert_eq!(updated.tags[3], Value::Array(vec![Value::from(1), Value::from("two")]));
}

#[test]
fn with_content_keeps_absent_options_absent() {
    let mut original = full_record();
    original.comment = None;
    original.priority = None;
    original.meta.email_routing = None;
    let updated = original.with_content("203.0.113.7");
    assert_eq!(updated.comment, None);
    assert_eq!(updated.priority, None);
    assert_eq!(updated.meta.email_routing, None);
}

#[test]
fn with_content_keeps_sentinel_ttl() {
    let mut original = full_record();
    original.ttl = 1;
    assert_eq!(original.with_content("203.0.113.7").ttl, 1);
    original.ttl = i64::MIN;
    assert_eq!(original.with_content("203.0.113.7").ttl, i64::MIN);
}

#[test]
fn clones_are_equal() {
    let record = full_record();
    assert_eq!(record.clone(), record);
    assert_eq!(record.meta.clone(), record.meta);
    let info = ResultInfo { page: 1, per_page: 20, count: 1, total_count: 2000, total_pages: 100 };
    assert_eq!(info.clone(), info);
    let response = Response {
        records: vec![full_record(), Record::default()],
        success: true,
        errors: vec![Value::from("e")],
        messages: vec![Value::from(7)],
        result_info: info,
    };
    assert_eq!(response.clone(), response);
}

#[test]
fn defaults_are_empty() {
    let record = Record::default();
    assert_eq!(record.id, "");
    assert_eq!(record.ttl, 0);
    assert_eq!(record.comment, None);
    assert!(record.tags.is_empty());
    assert_eq!(record.meta, Meta::default());
    let response = Response::default();
    assert!(response.records.is_empty());
    assert!(!response.success);
    assert_eq!(response.result_info, ResultInfo::default());
}
