use key_value_service::key_value_store::KeyValueStore;

#[test]
fn put_then_get_returns_value() {
    let mut store = KeyValueStore::new();
    let (key, value) = store.put("a".to_string(), "1".to_string());
    assert_eq!(key, "a");
    assert_eq!(value, "1");
    let got = store.get("a".to_string()).ok().unwrap();
    assert_eq!(got.0, "a");
    assert_eq!(got.1, "1");
}

#[test]
fn overwrite_keeps_second_value() {
    let mut store = KeyValueStore::new();
    store.put("k".to_string(), "first".to_string());
    store.put("k".to_string(), "second".to_string());
    let got = store.get("k".to_string()).ok().unwrap();
    assert_eq!(got.1, "second");
}

#[test]
fn get_missing_key_not_found() {
    let store = KeyValueStore::new();
    let err = store.get("absent".to_string()).err().unwrap();
    assert_eq!(err.key, "absent");
}

#[test]
fn delete_missing_key_not_found() {
    let mut store = KeyValueStore::new();
    let err = store.delete("absent".to_string()).err().unwrap();
    assert_eq!(err.key, "absent");
}

#[test]
fn delete_returns_pair_and_removes_entry() {
    let mut store = KeyValueStore::new();
    store.put("k".to_string(), "v".to_string());
    let deleted = store.delete("k".to_string()).ok().unwrap();
    assert_eq!(deleted.0, "k");
    assert_eq!(deleted.1, "v");
    let err = store.get("k".to_string()).err().unwrap();
    assert_eq!(err.key, "k");
}

#[test]
fn delete_twice_succeeds_then_fails() {
    let mut store = KeyValueStore::new();
    store.put("k".to_string(), "v".to_string());
    assert!(store.delete("k".to_string()).is_ok());
    let err = store.delete("k".to_string()).err().unwrap();
    assert_eq!(err.key, "k");
}

#[test]
fn puts_on_one_key_leave_the_last_value() {
    let mut store = KeyValueStore::new();
    let values = ["v1", "v2", "v3", "v4"];
    for v in values {
        store.put("k".to_string(), v.to_string());
    }
    let got = store.get("k".to_string()).ok().unwrap();
    assert_eq!(got.1, "v4");
    assert!(values.contains(&got.1.as_str()));
}

#[test]
fn distinct_keys_do_not_interfere() {
    let mut store = KeyValueStore::new();
    store.put("a".to_string(), "1".to_string());
    store.put("b".to_string(), "2".to_string());
    store.delete("a".to_string()).ok().unwrap();
    let got = store.get("b".to_string()).ok().unwrap();
    assert_eq!(got.1, "2");
}

#[test]
fn empty_value_is_stored() {
    let mut store = KeyValueStore::new();
    store.put("k".to_string(), String::new());
    let got = store.get("k".to_string()).ok().unwrap();
    assert_eq!(got.1, "");
}
