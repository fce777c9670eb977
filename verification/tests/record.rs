use rask::record::Record;

#[test]
fn a_new_record_has_no_field() {
    let r = Record::new();
    assert!(!r.contains_key("id"));
    assert_eq!(r.get("id"), None);
}

#[test]
fn insert_then_get_gives_the_text() {
    let mut r = Record::new();
    r.insert("id".to_string(), "7".to_string());
    r.insert("name".to_string(), "Alpha".to_string());
    assert_eq!(r.get("id").map(|s| s.as_str()), Some("7"));
    assert_eq!(r.get("name").map(|s| s.as_str()), Some("Alpha"));
    assert!(r.contains_key("name"));
    assert!(!r.contains_key("Name"));
}

#[test]
fn a_later_insert_replaces_an_earlier_one() {
    let mut r = Record::new();
    r.insert("name".to_string(), "Alpha".to_string());
    r.insert("id".to_string(), "1".to_string());
    r.insert("name".to_string(), "Beta".to_string());
    assert_eq!(r.get("name").map(|s| s.as_str()), Some("Beta"));
    assert_eq!(r.get("id").map(|s| s.as_str()), Some("1"));
}

#[test]
fn a_clone_holds_the_same_fields() {
    let mut r = Record::new();
    r.insert("id".to_string(), "1".to_string());
    let c = r.clone();
    r.insert("id".to_string(), "2".to_string());
    assert_eq!(c.get("id").map(|s| s.as_str()), Some("1"));
    assert_eq!(r.get("id").map(|s| s.as_str()), Some("2"));
}
