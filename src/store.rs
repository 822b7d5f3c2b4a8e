//! A single-slot account store over a JSON key-value bridge.
//!
//! The bridge itself (`get_json`, `set_json`, `remove`) is reached by the
//! host; this module decides which request to send and what a reply means.

use vstd::prelude::*;
use vstd::string::StringExecFns;
use crate::keys::{normalize, normalize_key, same_text};
use crate::record::{entry_of, AccountRecord};

verus! {

/// The characters with Unicode's `White_Space` property.
pub open spec fn is_white(c: char) -> bool {
    let u = c as u32;
    (0x9 <= u && u <= 0xD) || u == 0x20 || u == 0x85 || u == 0xA0 || u == 0x1680 || (0x2000 <= u
        && u <= 0x200A) || u == 0x2028 || u == 0x2029 || u == 0x202F || u == 0x205F || u == 0x3000
}

/// An account id that is empty once surrounding whitespace is trimmed.
pub open spec fn is_blank(s: Seq<char>) -> bool {
    forall|i: int| 0 <= i < s.len() ==> is_white(#[trigger] s[i])
}

/// The storage key of the store that a provider of this name uses.
pub open spec fn store_key_for(provider_name: Seq<char>) -> Seq<char> {
    "account_provider_"@ + normalize(provider_name)
}

/// Whether `c` is a whitespace character.
pub fn is_whitespace_char(c: char) -> (r: bool)
    ensures
        r == is_white(c),
{
    let u = c as u32;
    (0x9 <= u && u <= 0xD) || u == 0x20 || u == 0x85 || u == 0xA0 || u == 0x1680 || (0x2000 <= u
        && u <= 0x200A) || u == 0x2028 || u == 0x2029 || u == 0x202F || u == 0x205F || u == 0x3000
}

/// Whether `s` holds nothing but whitespace.
pub fn is_blank_id(s: &str) -> (r: bool)
    ensures
        r == is_blank(s@),
{
    let n = s.unicode_len();
    let mut i: usize = 0;
    while i < n
        invariant
            n == s@.len(),
            i <= n,
            forall|j: int| 0 <= j < i ==> is_white(#[trigger] s@[j]),
        decreases n - i,
    {
        if !is_whitespace_char(s.get_char(i)) {
            return false;
        }
        i = i + 1;
    }
    true
}

/// The three operations of the key-value bridge.
#[derive(Debug, Clone, Copy, PartialEq, Eq, Structural)]
pub enum BridgeOp {
    GetJson,
    SetJson,
    Remove,
}

impl BridgeOp {
    /// The bridge method that carries this operation.
    pub fn method(&self) -> (r: &'static str)
        ensures
            *self == BridgeOp::GetJson ==> r@ == "host/storage/local/get_json"@,
            *self == BridgeOp::SetJson ==> r@ == "host/storage/local/set_json"@,
            *self == BridgeOp::Remove ==> r@ == "host/storage/local/remove"@,
    {
        match self {
            BridgeOp::GetJson => "host/storage/local/get_json",
            BridgeOp::SetJson => "host/storage/local/set_json",
            BridgeOp::Remove => "host/storage/local/remove",
        }
    }
}

/// A request for the bridge.
#[derive(Debug)]
pub enum BridgeRequest {
    /// Fetch the record stored under `key`.
    GetJson { key: String },
    /// Store `account` under `key`, replacing what was there.
    SetJson { key: String, account: AccountRecord },
    /// Remove whatever is stored under `key`.
    Remove { key: String },
}

/// Why a read through the bridge failed.
#[derive(Debug, Clone, PartialEq, Eq)]
pub enum BridgeFault {
    /// The bridge call itself did not complete.
    Transport(String),
    /// The stored value did not have the shape of a record.
    Malformed(String),
}

/// The errors of the account store.
#[derive(Debug, Clone, PartialEq, Eq)]
pub enum StoreError {
    /// The bridge call for `op` on `key` did not complete.
    Transport { op: BridgeOp, key: String, reason: String },
    /// The bridge completed `op` on `key` but acknowledged no success.
    Rejected { op: BridgeOp, key: String },
    /// The value under `key` could not be (de)serialized as a record.
    Serialization { key: String, reason: String },
    /// The account id is empty once trimmed.
    Validation,
}

/// The bridge's slots as a map from key to stored record.
pub type Slots = Map<Seq<char>, AccountRecord>;

/// The slots after the bridge has carried out `req`.
pub open spec fn apply_request(slots: Slots, req: BridgeRequest) -> Slots {
    match req {
        BridgeRequest::GetJson { .. } => slots,
        BridgeRequest::SetJson { key, account } => slots.insert(key@, account),
        BridgeRequest::Remove { key } => slots.remove(key@),
    }
}

/// What a transport that does not fail answers to a read of `key`.
pub open spec fn read_reply(slots: Slots, key: Seq<char>) -> Result<Option<AccountRecord>, BridgeFault> {
    Ok(entry_of(slots, key))
}

/// A store that keeps at most one account under one key.
#[derive(Debug, Clone)]
pub struct AccountStore {
    key: String,
}

impl AccountStore {
    /// The key under which this store keeps its record.
    pub closed spec fn spec_key(&self) -> String {
        self.key
    }

    /// What a reply to this store's read means.
    pub open spec fn load_outcome(&self, reply: Result<Option<AccountRecord>, BridgeFault>) -> Result<
        Option<AccountRecord>,
        StoreError,
    > {
        match reply {
            Ok(v) => Ok(v),
            Err(BridgeFault::Transport(reason)) => Err(
                StoreError::Transport { op: BridgeOp::GetJson, key: self.spec_key(), reason },
            ),
            Err(BridgeFault::Malformed(reason)) => Err(
                StoreError::Serialization { key: self.spec_key(), reason },
            ),
        }
    }

    /// What an acknowledgement of a write `op` on this store means.
    pub open spec fn ack_outcome(&self, op: BridgeOp, reply: Result<bool, String>) -> Result<
        (),
        StoreError,
    > {
        match reply {
            Ok(true) => Ok(()),
            Ok(false) => Err(StoreError::Rejected { op, key: self.spec_key() }),
            Err(reason) => Err(StoreError::Transport { op, key: self.spec_key(), reason }),
        }
    }

    /// The request that `remove_account` sends, given what was loaded.
    pub open spec fn remove_plan(&self, loaded: Option<AccountRecord>, account_id: Seq<char>) -> Option<
        BridgeRequest,
    > {
        match loaded {
            Some(a) => if a.id@ == account_id {
                Some(BridgeRequest::Remove { key: self.spec_key() })
            } else {
                None
            },
            None => None,
        }
    }

    /// The store that a provider named `provider_name` uses: its key is
    /// `account_provider_` followed by the normalized name.
    pub fn new(provider_name: &str) -> (r: Self)
        ensures
            r.spec_key()@ == store_key_for(provider_name@),
    {
        let normalized = normalize_key(provider_name);
        let key = String::from_str("account_provider_").concat(normalized.as_str());
        AccountStore { key }
    }

    /// A store under exactly `key`.
    pub fn with_key(key: String) -> (r: Self)
        ensures
            r.spec_key() == key,
    {
        AccountStore { key }
    }

    /// The key under which this store keeps its record.
    pub fn key(&self) -> (r: &str)
        ensures
            r@ == self.spec_key()@,
    {
        self.key.as_str()
    }

    /// The request that reads this store's record.
    pub fn load_request(&self) -> (r: BridgeRequest)
        ensures
            r == (BridgeRequest::GetJson { key: self.spec_key() }),
    {
        BridgeRequest::GetJson { key: self.key.clone() }
    }

    /// The record that a reply to `load_request` carries, or the error it
    /// stands for.
    pub fn load(&self, reply: Result<Option<AccountRecord>, BridgeFault>) -> (r: Result<
        Option<AccountRecord>,
        StoreError,
    >)
        ensures
            r == self.load_outcome(reply),
    {
        match reply {
            Ok(v) => Ok(v),
            Err(BridgeFault::Transport(reason)) => Err(
                StoreError::Transport { op: BridgeOp::GetJson, key: self.key.clone(), reason },
            ),
            Err(BridgeFault::Malformed(reason)) => Err(
                StoreError::Serialization { key: self.key.clone(), reason },
            ),
        }
    }

    /// The request that stores `account`, replacing any earlier record.
    pub fn save(&self, account: AccountRecord) -> (r: BridgeRequest)
        ensures
            r == (BridgeRequest::SetJson { key: self.spec_key(), account }),
    {
        BridgeRequest::SetJson { key: self.key.clone(), account }
    }

    /// The request that removes this store's record.
    pub fn clear(&self) -> (r: BridgeRequest)
        ensures
            r == (BridgeRequest::Remove { key: self.spec_key() }),
    {
        BridgeRequest::Remove { key: self.key.clone() }
    }

    /// What the bridge's acknowledgement of a write `op` means: success,
    /// a rejection, or a transport failure.
    pub fn acknowledge(&self, op: BridgeOp, reply: Result<bool, String>) -> (r: Result<
        (),
        StoreError,
    >)
        ensures
            r == self.ack_outcome(op, reply),
    {
        match reply {
            Ok(true) => Ok(()),
            Ok(false) => Err(StoreError::Rejected { op, key: self.key.clone() }),
            Err(reason) => Err(StoreError::Transport { op, key: self.key.clone(), reason }),
        }
    }

    /// The accounts of the store, given what `load` returned: none or one.
    pub fn list_accounts(&self, loaded: Option<AccountRecord>) -> (r: Vec<AccountRecord>)
        ensures
            loaded is None ==> r@ == Seq::<AccountRecord>::empty(),
            loaded matches Some(a) ==> r@ == seq![a],
    {
        let mut out = Vec::new();
        match loaded {
            Some(a) => {
                out.push(a);
            },
            None => {},
        }
        out
    }

    /// The loaded record if its id is `account_id`.
    pub fn get_account(&self, loaded: Option<AccountRecord>, account_id: &str) -> (r: Option<
        AccountRecord,
    >)
        ensures
            r == (match loaded {
                Some(a) => if a.id@ == account_id@ {
                    Some(a)
                } else {
                    None
                },
                None => None,
            }),
    {
        match loaded {
            Some(a) => if same_text(a.id.as_str(), account_id) {
                Some(a)
            } else {
                None
            },
            None => None,
        }
    }

    /// Checks `account` and gives the request that stores it unchanged; an
    /// id that is empty once trimmed is a validation error and sends nothing.
    pub fn upsert_account(&self, account: AccountRecord) -> (r: Result<BridgeRequest, StoreError>)
        ensures
            is_blank(account.id@) ==> r == Err::<BridgeRequest, StoreError>(StoreError::Validation),
            !is_blank(account.id@) ==> r == Ok::<BridgeRequest, StoreError>(
                BridgeRequest::SetJson { key: self.spec_key(), account },
            ),
    {
        if is_blank_id(account.id.as_str()) {
            return Err(StoreError::Validation);
        }
        Ok(self.save(account))
    }

    /// Given what `load` returned, the request that removes the record with
    /// id `account_id`: the store is cleared only when its record has that id.
    pub fn remove_account(&self, loaded: Option<AccountRecord>, account_id: &str) -> (r: Option<
        BridgeRequest,
    >)
        ensures
            r == self.remove_plan(loaded, account_id@),
    {
        match loaded {
            Some(a) => if same_text(a.id.as_str(), account_id) {
                Some(self.clear())
            } else {
                None
            },
            None => None,
        }
    }
}

/// The slots after `remove_account` has run against them: the record is read
/// from the store's slot, and the planned request, if any, is carried out.
pub open spec fn slots_after_remove(store: AccountStore, slots: Slots, account_id: Seq<char>) -> Slots {
    match store.remove_plan(entry_of(slots, store.spec_key()@), account_id) {
        Some(req) => apply_request(slots, req),
        None => slots,
    }
}

/// Saving a record and then loading the same store yields that record.
pub proof fn lemma_save_then_load(store: AccountStore, slots: Slots, account: AccountRecord)
    ensures
        store.load_outcome(
            read_reply(
                apply_request(slots, BridgeRequest::SetJson { key: store.spec_key(), account }),
                store.spec_key()@,
            ),
        ) == Ok::<Option<AccountRecord>, StoreError>(Some(account)),
{
}

/// Removing an account leaves the slots as they were when the store is empty
/// or holds a record with another id, and empties the store's slot when the
/// stored id matches.
pub proof fn lemma_remove_account_effect(store: AccountStore, slots: Slots, account_id: Seq<char>)
    ensures
        !slots.dom().contains(store.spec_key()@) ==> slots_after_remove(store, slots, account_id)
            == slots,
        slots.dom().contains(store.spec_key()@) && slots[store.spec_key()@].id@ != account_id
            ==> slots_after_remove(store, slots, account_id) == slots,
        slots.dom().contains(store.spec_key()@) && slots[store.spec_key()@].id@ == account_id
            ==> slots_after_remove(store, slots, account_id) == slots.remove(store.spec_key()@),
{
}

} // verus!
