use grafana_apprise_adapter::key_values::KeyValues;

#[test]
fn insert_then_get_returns_value() {
    let mut kv = KeyValues::new();
    assert!(kv.is_empty());
    assert_eq!(kv.insert("a".to_string(), "1".to_string()), None);
    assert_eq!(kv.get(&"a".to_string()), Some(&"1".to_string()));
    assert_eq!(kv.get(&"b".to_string()), None);
    assert_eq!(kv.len(), 1);
}

#[test]
fn insert_existing_key_replaces_in_place() {
    let mut kv = KeyValues::new();
    kv.insert("a".to_string(), "1".to_string());
    kv.insert("b".to_string(), "2".to_string());
    assert_eq!(kv.insert("a".to_string(), "3".to_string()), Some("1".to_string()));
    assert_eq!(kv.len(), 2);
    let (k, v) = kv.entry(0);
    assert_eq!((k.as_str(), v.as_str()), ("a", "3"));
    let (k, v) = kv.entry(1);
    assert_eq!((k.as_str(), v.as_str()), ("b", "2"));
    assert_eq!(kv.get(&"b".to_string()), Some(&"2".to_string()));
}
