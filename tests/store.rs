use account_providers::keys::{normalize_key, same_text};
use account_providers::record::AccountRecord;
use account_providers::store::{
    is_blank_id, AccountStore, BridgeFault, BridgeOp, BridgeRequest, StoreError,
};
use std::collections::HashMap;

fn record(id: &str, name: &str) -> AccountRecord {
    AccountRecord::new(id.to_string(), name.to_string())
}

fn same_record(a: &AccountRecord, b: &AccountRecord) -> bool {
    a.id == b.id && a.name == b.name && a.avatar == b.avatar && a.token == b.token && a.extra == b.extra
}

/// A bridge that keeps its slots in memory and never fails.
fn carry_out(slots: &mut HashMap<String, AccountRecord>, req: BridgeRequest) -> Result<bool, String> {
    match req {
        BridgeRequest::GetJson { .. } => Ok(true),
        BridgeRequest::SetJson { key, account } => {
            slots.insert(key, account);
            Ok(true)
        }
        BridgeRequest::Remove { key } => {
            slots.remove(&key);
            Ok(true)
        }
    }
}

fn read(slots: &HashMap<String, AccountRecord>, store: &AccountStore) -> Option<AccountRecord> {
    match store.load_request() {
        BridgeRequest::GetJson { key } => slots.get(&key).cloned(),
        _ => panic!("load must read"),
    }
}

#[test]
fn normalize_is_deterministic_and_idempotent() {
    let a = normalize_key("My Provider!");
    let b = normalize_key("My Provider!");
    assert_eq!(a, "my_provider_");
    assert_eq!(a, b);
    assert_eq!(normalize_key(&a), a);
}

#[test]
fn normalize_edge_cases() {
    assert_eq!(normalize_key(""), "");
    assert_eq!(normalize_key("ABC-xyz_09"), "abc_xyz_09");
    assert_eq!(normalize_key("é√ ü"), "____");
}

#[test]
fn store_key_from_provider_name() {
    let store = AccountStore::new("My Provider!");
    assert_eq!(store.key(), "account_provider_my_provider_");
    let other = AccountStore::new("my provider?");
    assert_eq!(other.key(), store.key());
    assert_eq!(AccountStore::with_key("custom".to_string()).key(), "custom");
}

#[test]
fn save_then_load_round_trip() {
    let store = AccountStore::new("github");
    let mut slots = HashMap::new();
    let mut acc = record("u1", "User One")
        .with_avatar(Some("https://a/b.png".to_string()))
        .with_token(Some("tok".to_string()));
    acc.set_extra_value("scopes".to_string(), serde_json::Value::from(vec!["repo", "user"]));
    acc.set_extra_value("n".to_string(), serde_json::Value::from(3));
    let expected = acc.clone();
    let ack = carry_out(&mut slots, store.save(acc));
    assert_eq!(store.acknowledge(BridgeOp::SetJson, ack), Ok(()));
    let loaded = store.load(Ok(read(&slots, &store))).unwrap().unwrap();
    assert!(same_record(&loaded, &expected));
}

#[test]
fn upsert_rejects_blank_ids() {
    let store = AccountStore::new("p");
    for id in ["", "   ", " \t\n"] {
        let r = store.upsert_account(record(id, "x"));
        assert!(matches!(r, Err(StoreError::Validation)));
    }
    assert!(is_blank_id("\u{3000}\u{a0}"));
    assert!(!is_blank_id(" a "));
}

#[test]
fn upsert_sends_the_record_unchanged() {
    let store = AccountStore::new("p");
    match store.upsert_account(record(" a ", "Name")) {
        Ok(BridgeRequest::SetJson { key, account }) => {
            assert_eq!(key, "account_provider_p");
            assert_eq!(account.id, " a ");
            assert_eq!(account.name, "Name");
        }
        _ => panic!("expected a write"),
    }
}

#[test]
fn remove_account_no_op_and_clear() {
    let store = AccountStore::new("p");
    assert!(store.remove_account(None, "a").is_none());
    assert!(store.remove_account(Some(record("b", "B")), "a").is_none());
    match store.remove_account(Some(record("a", "A")), "a") {
        Some(BridgeRequest::Remove { key }) => assert_eq!(key, "account_provider_p"),
        _ => panic!("expected a removal"),
    }
}

#[test]
fn remove_account_against_slots() {
    let store = AccountStore::new("p");
    let mut slots = HashMap::new();
    carry_out(&mut slots, store.save(record("a", "A"))).unwrap();
    if let Some(req) = store.remove_account(read(&slots, &store), "zzz") {
        carry_out(&mut slots, req).unwrap();
    }
    assert_eq!(slots.len(), 1);
    if let Some(req) = store.remove_account(read(&slots, &store), "a") {
        carry_out(&mut slots, req).unwrap();
    }
    assert!(slots.is_empty());
    assert!(store.remove_account(read(&slots, &store), "a").is_none());
}

#[test]
fn list_and_get_accounts() {
    let store = AccountStore::new("p");
    assert!(store.list_accounts(None).is_empty());
    let listed = store.list_accounts(Some(record("a", "A")));
    assert_eq!(listed.len(), 1);
    assert_eq!(listed[0].id, "a");
    assert!(store.get_account(None, "a").is_none());
    assert!(store.get_account(Some(record("b", "B")), "a").is_none());
    assert_eq!(store.get_account(Some(record("a", "A")), "a").unwrap().name, "A");
}

#[test]
fn bridge_errors_are_distinct() {
    let store = AccountStore::new("p");
    assert_eq!(
        store.acknowledge(BridgeOp::Remove, Ok(false)),
        Err(StoreError::Rejected { op: BridgeOp::Remove, key: "account_provider_p".to_string() })
    );
    assert_eq!(
        store.acknowledge(BridgeOp::SetJson, Err("down".to_string())),
        Err(StoreError::Transport {
            op: BridgeOp::SetJson,
            key: "account_provider_p".to_string(),
            reason: "down".to_string()
        })
    );
    assert!(matches!(
        store.load(Err(BridgeFault::Transport("io".to_string()))),
        Err(StoreError::Transport { op: BridgeOp::GetJson, .. })
    ));
    assert!(matches!(
        store.load(Err(BridgeFault::Malformed("bad".to_string()))),
        Err(StoreError::Serialization { .. })
    ));
    assert!(store.load(Ok(None)).unwrap().is_none());
}

#[test]
fn bridge_method_names() {
    assert_eq!(BridgeOp::GetJson.method(), "host/storage/local/get_json");
    assert_eq!(BridgeOp::SetJson.method(), "host/storage/local/set_json");
    assert_eq!(BridgeOp::Remove.method(), "host/storage/local/remove");
}

#[test]
fn same_text_compares_characters() {
    assert!(same_text("abc", "abc"));
    assert!(!same_text("abc", "abd"));
    assert!(!same_text("abc", "ab"));
}
