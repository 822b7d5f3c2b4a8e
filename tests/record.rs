use account_providers::record::AccountRecord;
use serde_json::Value;

fn extra_as<T: serde::de::DeserializeOwned>(r: &AccountRecord, key: &str) -> Option<T> {
    r.extra_value(key).and_then(|v| serde_json::from_value(v.clone()).ok())
}

#[test]
fn new_record_is_bare() {
    let r = AccountRecord::new("id".to_string(), "Name".to_string());
    assert_eq!(r.id, "id");
    assert_eq!(r.name, "Name");
    assert!(r.avatar.is_none() && r.token.is_none() && r.extra.is_empty());
    let d = AccountRecord::default();
    assert!(d.id.is_empty() && d.name.is_empty() && d.extra.is_empty());
}

#[test]
fn builders_replace_and_clear() {
    let r = AccountRecord::new("a".to_string(), "A".to_string())
        .with_avatar(Some("pic".to_string()))
        .with_token(Some("t".to_string()));
    assert_eq!(r.avatar.as_deref(), Some("pic"));
    assert_eq!(r.token.as_deref(), Some("t"));
    let r = r.with_avatar(None).with_token(None);
    assert!(r.avatar.is_none() && r.token.is_none());
    assert_eq!(r.id, "a");
}

#[test]
fn extra_set_get_remove() {
    let mut r = AccountRecord::new("a".to_string(), "A".to_string());
    assert!(r.extra_value("k").is_none());
    assert_eq!(r.set_extra_value("k".to_string(), Value::from(1)), None);
    assert_eq!(r.set_extra_value("k".to_string(), Value::from("two")), Some(Value::from(1)));
    assert_eq!(r.extra_value("k"), Some(&Value::from("two")));
    assert_eq!(r.remove_extra("k"), Some(Value::from("two")));
    assert_eq!(r.remove_extra("k"), None);
    assert!(r.extra_value("k").is_none());
}

#[test]
fn extra_as_missing_and_mismatched_are_both_none() {
    let mut r = AccountRecord::new("a".to_string(), "A".to_string());
    r.set_extra_value("s".to_string(), Value::from("text"));
    r.set_extra_value("n".to_string(), Value::from(7));
    assert_eq!(extra_as::<i64>(&r, "missing"), None);
    assert_eq!(extra_as::<i64>(&r, "s"), None);
    assert_eq!(extra_as::<i64>(&r, "n"), Some(7));
    assert_eq!(extra_as::<String>(&r, "s"), Some("text".to_string()));
}
