use kvstore::handler::{
    get_reply, handle_get, handle_post, post_reply, status_of, validate_post, KeyValue, PostBody,
    RequestError, STATUS_OK,
};
use kvstore::kv_map::KvMap;
use kvstore::store::{Store, StoreError};

fn kv(key: &str, value: &str) -> KeyValue {
    KeyValue { key: key.to_string(), value: value.to_string() }
}

#[test]
fn set_then_get_returns_record() {
    let store = Store::new();
    assert_eq!(handle_post(kv("a", "1"), &store), Ok("Success".to_string()));
    let r = handle_get("a".to_string(), &store).unwrap();
    assert_eq!((r.key.as_str(), r.value.as_str()), ("a", "1"));
    assert_eq!(STATUS_OK, 200);
}

#[test]
fn get_missing_on_empty_store_is_not_found() {
    let store = Store::new();
    let r = handle_get("missing".to_string(), &store);
    assert!(matches!(r, Err(RequestError::NotFound)));
    assert_eq!(status_of(RequestError::NotFound), 404);
}

#[test]
fn post_without_value_is_rejected_and_store_unchanged() {
    let store = Store::new();
    let body = PostBody { key: Some("x".to_string()), value: None };
    let r = validate_post(body);
    assert!(matches!(r, Err(RequestError::MalformedInput)));
    assert_eq!(status_of(RequestError::MalformedInput), 400);
    assert!(matches!(handle_get("x".to_string(), &store), Err(RequestError::NotFound)));
}

#[test]
fn second_write_wins() {
    let store = Store::new();
    assert!(handle_post(kv("a", "1"), &store).is_ok());
    assert!(handle_post(kv("a", "2"), &store).is_ok());
    let r = handle_get("a".to_string(), &store).unwrap();
    assert_eq!((r.key.as_str(), r.value.as_str()), ("a", "2"));
}

#[test]
fn never_set_key_is_absent_among_others() {
    let mut m = KvMap::new();
    m.set("a".to_string(), "1".to_string());
    m.set("b".to_string(), "2".to_string());
    assert_eq!(m.get("c"), None);
    assert_eq!(m.get(""), None);
}

#[test]
fn map_set_then_get() {
    let mut m = KvMap::new();
    m.set("k".to_string(), "v".to_string());
    assert_eq!(m.get("k"), Some("v".to_string()));
}

#[test]
fn map_many_overwrites_keep_last() {
    let mut m = KvMap::new();
    for v in ["1", "2", "3", "4"] {
        m.set("k".to_string(), v.to_string());
    }
    m.set("other".to_string(), "x".to_string());
    assert_eq!(m.get("k"), Some("4".to_string()));
    assert_eq!(m.get("other"), Some("x".to_string()));
}

#[test]
fn empty_key_and_value_are_kept() {
    let store = Store::new();
    assert!(handle_post(kv("", ""), &store).is_ok());
    let r = handle_get(String::new(), &store).unwrap();
    assert_eq!((r.key.as_str(), r.value.as_str()), ("", ""));
}

#[test]
fn clones_share_one_mapping() {
    let store = Store::new();
    let other = store.clone();
    assert_eq!(other.set("a".to_string(), "1".to_string()), Ok(()));
    assert_eq!(store.get("a"), Ok(Some("1".to_string())));
    assert_eq!(store.get("b"), Ok(None));
}

#[test]
fn two_writes_leave_one_of_the_values() {
    let store = Store::new();
    let (s1, s2) = (store.clone(), store.clone());
    assert!(s1.set("k".to_string(), "v1".to_string()).is_ok());
    assert!(s2.set("k".to_string(), "v2".to_string()).is_ok());
    let got = store.get("k").unwrap().unwrap();
    assert!(got == "v1" || got == "v2");
    assert_eq!(got, "v2");
}

#[test]
fn validate_post_accepts_complete_body() {
    let body = PostBody { key: Some("x".to_string()), value: Some("y".to_string()) };
    let r = validate_post(body).unwrap();
    assert_eq!((r.key.as_str(), r.value.as_str()), ("x", "y"));
}

#[test]
fn validate_post_rejects_missing_key() {
    let body = PostBody { key: None, value: Some("y".to_string()) };
    assert!(matches!(validate_post(body), Err(RequestError::MalformedInput)));
    let empty = PostBody { key: None, value: None };
    assert!(matches!(validate_post(empty), Err(RequestError::MalformedInput)));
}

#[test]
fn get_reply_maps_each_outcome() {
    let hit = get_reply("a".to_string(), Ok(Some("1".to_string()))).unwrap();
    assert_eq!((hit.key.as_str(), hit.value.as_str()), ("a", "1"));
    assert!(matches!(get_reply("a".to_string(), Ok(None)), Err(RequestError::NotFound)));
    assert!(matches!(
        get_reply("a".to_string(), Err(StoreError::StoreUnavailable)),
        Err(RequestError::StoreUnavailable)
    ));
}

#[test]
fn post_reply_maps_each_outcome() {
    assert_eq!(post_reply(Ok(())), Ok("Success".to_string()));
    assert_eq!(post_reply(Err(StoreError::StoreUnavailable)), Err(RequestError::StoreUnavailable));
    assert_eq!(status_of(RequestError::StoreUnavailable), 503);
}
