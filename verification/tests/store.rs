use toast_registrar::store::StringMap;

#[test]
fn empty_store_has_nothing() {
    let store: StringMap<String> = StringMap::new();
    assert!(!store.contains(&"k".to_string()));
    assert!(store.get(&"k".to_string()).is_none());
}

#[test]
fn insert_then_get_returns_the_record() {
    let mut store: StringMap<String> = StringMap::new();
    store.insert("k".to_string(), "v".to_string());
    assert!(store.contains(&"k".to_string()));
    assert_eq!(store.get(&"k".to_string()), Some(&"v".to_string()));
    assert!(store.get(&"other".to_string()).is_none());
}

#[test]
fn insert_overwrites_an_existing_record() {
    let mut store: StringMap<String> = StringMap::new();
    store.insert("k".to_string(), "v1".to_string());
    store.insert("k".to_string(), "v2".to_string());
    assert_eq!(store.get(&"k".to_string()), Some(&"v2".to_string()));
}

#[test]
fn remove_reports_whether_the_record_existed() {
    let mut store: StringMap<String> = StringMap::new();
    store.insert("a".to_string(), "1".to_string());
    store.insert("b".to_string(), "2".to_string());
    assert!(store.remove(&"a".to_string()));
    assert!(!store.remove(&"a".to_string()));
    assert!(!store.contains(&"a".to_string()));
    assert_eq!(store.get(&"b".to_string()), Some(&"2".to_string()));
}
