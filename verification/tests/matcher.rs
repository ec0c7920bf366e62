use dyndns_sync::matcher::{find_subdomain_record, is_address_record_of};
use dyndns_sync::record::Record;

fn record(id: &str, name: &str, type_field: &str, ip_addr: &str) -> Record {
    Record {
        id: id.to_string(),
        name: name.to_string(),
        type_field: type_field.to_string(),
        ip_addr: ip_addr.to_string(),
        ..Default::default()
    }
}

#[test]
fn finds_the_record_by_name_and_type() {
    let records = vec![
        record("r0", "www.example.com", "A", "5.6.7.8"),
        record("r1", "home.example.com", "A", "1.2.3.4"),
    ];
    let name = "home.example.com".to_string();
    let found = find_subdomain_record(&records, &name).expect("a record");
    assert_eq!(found.id, "r1");
    assert_eq!(found.ip_addr, "1.2.3.4");
}

#[test]
fn returns_the_element_itself() {
    let records = vec![
        record("r0", "www.example.com", "A", "5.6.7.8"),
        record("r1", "home.example.com", "A", "1.2.3.4"),
    ];
    let name = "home.example.com".to_string();
    let found = find_subdomain_record(&records, &name).expect("a record");
    assert!(std::ptr::eq(found, &records[1]));
}

#[test]
fn first_of_several_wins() {
    let records = vec![
        record("r0", "other.example.com", "A", "0.0.0.1"),
        record("r1", "home.example.com", "A", "1.1.1.1"),
        record("r2", "home.example.com", "A", "2.2.2.2"),
        record("r3", "home.example.com", "A", "3.3.3.3"),
    ];
    let name = "home.example.com".to_string();
    let found = find_subdomain_record(&records, &name).expect("a record");
    assert_eq!(found.id, "r1");
}

#[test]
fn skips_records_of_another_type() {
    let records = vec![
        record("r0", "home.example.com", "AAAA", "::1"),
        record("r1", "home.example.com", "CNAME", "example.com"),
        record("r2", "home.example.com", "a", "9.9.9.9"),
        record("r3", "home.example.com", "", "9.9.9.9"),
        record("r4", "home.example.com", "A", "1.2.3.4"),
    ];
    let name = "home.example.com".to_string();
    let found = find_subdomain_record(&records, &name).expect("a record");
    assert_eq!(found.id, "r4");
}

#[test]
fn name_is_compared_exactly() {
    let records = vec![
        record("r0", "Home.example.com", "A", "1.2.3.4"),
        record("r1", "home.example.com.", "A", "1.2.3.4"),
        record("r2", " home.example.com", "A", "1.2.3.4"),
        record("r3", "home.example.co", "A", "1.2.3.4"),
    ];
    let name = "home.example.com".to_string();
    assert!(find_subdomain_record(&records, &name).is_none());
}

#[test]
fn only_other_types_yield_nothing() {
    let records = vec![record("r0", "home.example.com", "TXT", "v=spf1")];
    let name = "home.example.com".to_string();
    assert!(find_subdomain_record(&records, &name).is_none());
}

#[test]
fn empty_list_yields_nothing_for_any_name() {
    let records: Vec<Record> = Vec::new();
    for name in ["", "A", "home.example.com", "missing.example.com", "\u{e9}.example"] {
        assert!(find_subdomain_record(&records, &name.to_string()).is_none());
    }
}

#[test]
fn missing_name_yields_nothing() {
    let records = vec![record("r1", "home.example.com", "A", "1.2.3.4")];
    let name = "missing.example.com".to_string();
    assert!(find_subdomain_record(&records, &name).is_none());
}

#[test]
fn empty_name_selects_a_record_without_name() {
    let records = vec![
        record("r0", "home.example.com", "A", "1.2.3.4"),
        record("r1", "", "A", "1.2.3.4"),
    ];
    let name = String::new();
    let found = find_subdomain_record(&records, &name).expect("a record");
    assert_eq!(found.id, "r1");
}

#[test]
fn address_record_test_needs_both_name_and_type() {
    let name = "home.example.com".to_string();
    assert!(is_address_record_of(&record("r", "home.example.com", "A", ""), &name));
    assert!(!is_address_record_of(&record("r", "home.example.com", "AA", ""), &name));
    assert!(!is_address_record_of(&record("r", "home.example.org", "A", ""), &name));
    assert!(!is_address_record_of(&record("r", "A", "home.example.com", ""), &name));
}
