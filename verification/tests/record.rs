use flash_sessions::record::SessionRecord;

fn sorted(record: &SessionRecord) -> Vec<(String, String)> {
    let mut pairs = record.to_pairs();
    pairs.sort();
    pairs
}

fn pair(name: &str, value: &str) -> (String, String) {
    (name.to_string(), value.to_string())
}

#[test]
fn new_record_has_no_fields() {
    let record = SessionRecord::new();
    assert!(record.to_pairs().is_empty());
    assert!(!record.contains("a"));
    assert_eq!(record.get("a"), None);
}

#[test]
fn insert_binds_a_field() {
    let mut record = SessionRecord::new();
    record.insert("a".to_string(), "1".to_string());
    assert!(record.contains("a"));
    assert_eq!(record.get("a"), Some(&"1".to_string()));
    assert_eq!(record.get("b"), None);
    assert_eq!(sorted(&record), vec![pair("a", "1")]);
}

#[test]
fn insert_replaces_the_value_of_a_field() {
    let mut record = SessionRecord::new();
    record.insert("a".to_string(), "1".to_string());
    record.insert("b".to_string(), "2".to_string());
    record.insert("a".to_string(), "3".to_string());
    assert_eq!(record.get("a"), Some(&"3".to_string()));
    assert_eq!(record.get("b"), Some(&"2".to_string()));
    assert_eq!(sorted(&record), vec![pair("a", "3"), pair("b", "2")]);
}

#[test]
fn field_names_are_told_apart_exactly() {
    let mut record = SessionRecord::new();
    record.insert("flash".to_string(), "1".to_string());
    record.insert("Flash".to_string(), "2".to_string());
    record.insert("flash ".to_string(), "3".to_string());
    record.insert("".to_string(), "4".to_string());
    assert_eq!(record.get("flash"), Some(&"1".to_string()));
    assert_eq!(record.get("Flash"), Some(&"2".to_string()));
    assert_eq!(record.get("flash "), Some(&"3".to_string()));
    assert_eq!(record.get(""), Some(&"4".to_string()));
    assert_eq!(record.to_pairs().len(), 4);
}

#[test]
fn remove_hands_back_the_value() {
    let mut record = SessionRecord::new();
    record.insert("a".to_string(), "1".to_string());
    record.insert("b".to_string(), "2".to_string());
    record.insert("c".to_string(), "3".to_string());
    assert_eq!(record.remove("b"), Some("2".to_string()));
    assert!(!record.contains("b"));
    assert_eq!(sorted(&record), vec![pair("a", "1"), pair("c", "3")]);
    assert_eq!(record.remove("b"), None);
    assert_eq!(sorted(&record), vec![pair("a", "1"), pair("c", "3")]);
}

#[test]
fn remove_of_a_missing_field_is_none() {
    let mut record = SessionRecord::new();
    assert_eq!(record.remove("a"), None);
    record.insert("a".to_string(), "1".to_string());
    assert_eq!(record.remove("z"), None);
    assert_eq!(sorted(&record), vec![pair("a", "1")]);
}

#[test]
fn to_pairs_lists_each_name_once() {
    let mut record = SessionRecord::new();
    for round in 0..3 {
        for name in ["x", "y", "z"] {
            record.insert(name.to_string(), format!("{name}{round}"));
        }
    }
    assert_eq!(sorted(&record), vec![pair("x", "x2"), pair("y", "y2"), pair("z", "z2")]);
}

#[test]
fn clone_is_a_record_of_its_own() {
    let mut record = SessionRecord::new();
    record.insert("a".to_string(), "1".to_string());
    let mut copy = record.clone();
    assert_eq!(sorted(&copy), vec![pair("a", "1")]);
    copy.insert("a".to_string(), "2".to_string());
    copy.remove("a");
    copy.insert("b".to_string(), "3".to_string());
    assert_eq!(sorted(&record), vec![pair("a", "1")]);
    assert_eq!(sorted(&copy), vec![pair("b", "3")]);
}
