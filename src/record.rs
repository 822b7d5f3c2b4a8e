//! The account record and its open extension map.

use vstd::prelude::*;

verus! {

#[verifier::external_type_specification]
#[verifier::external_body]
pub struct ExValue(serde_json::Value);

#[verifier::external_type_specification]
#[verifier::external_body]
#[verifier::reject_recursive_types(K)]
#[verifier::reject_recursive_types(V)]
pub struct ExJsonMap<K, V>(serde_json::Map<K, V>);

/// The key-value entries that a JSON object map holds.
pub uninterp spec fn extra_entries(m: serde_json::Map<String, serde_json::Value>) -> Map<
    Seq<char>,
    serde_json::Value,
>;

/// A map of extension entries that holds nothing.
pub open spec fn no_entries() -> Map<Seq<char>, serde_json::Value> {
    Map::empty()
}

/// The value stored under `k` in `m`, if any.
pub open spec fn entry_of<K, V>(m: Map<K, V>, k: K) -> Option<V> {
    if m.dom().contains(k) {
        Some(m[k])
    } else {
        None
    }
}

/// Relies on `Clone for serde_json::Map<String, Value>`: the copy holds the
/// same entries, each value cloned.
pub assume_specification[ <serde_json::Map<String, serde_json::Value> as Clone>::clone ](
    m: &serde_json::Map<String, serde_json::Value>,
) -> (r: serde_json::Map<String, serde_json::Value>)
    ensures
        extra_entries(r) == extra_entries(*m),
;

/// Relies on `serde_json::Map::new`: the new map holds no entry.
#[verifier::external_body]
fn empty_extra() -> (r: serde_json::Map<String, serde_json::Value>)
    ensures
        extra_entries(r) == no_entries(),
{
    serde_json::Map::new()
}

/// Relies on `serde_json::Map::get`: the value stored under the key, if any.
#[verifier::external_body]
fn extra_get<'a>(m: &'a serde_json::Map<String, serde_json::Value>, key: &str) -> (r: Option<
    &'a serde_json::Value,
>)
    ensures
        r is Some <==> extra_entries(*m).dom().contains(key@),
        r matches Some(v) ==> *v == extra_entries(*m)[key@],
{
    m.get(key)
}

/// Relies on `serde_json::Map::insert`: stores the pair, replacing and
/// returning the value that the key held before.
#[verifier::external_body]
fn extra_insert(
    m: &mut serde_json::Map<String, serde_json::Value>,
    key: String,
    value: serde_json::Value,
) -> (r: Option<serde_json::Value>)
    ensures
        extra_entries(*final(m)) == extra_entries(*old(m)).insert(key@, value),
        r == entry_of(extra_entries(*old(m)), key@),
{
    m.insert(key, value)
}

/// Relies on `serde_json::Map::remove`: drops the key, returning the value it
/// held.
#[verifier::external_body]
fn extra_remove(m: &mut serde_json::Map<String, serde_json::Value>, key: &str) -> (r: Option<
    serde_json::Value,
>)
    ensures
        extra_entries(*final(m)) == extra_entries(*old(m)).remove(key@),
        r == entry_of(extra_entries(*old(m)), key@),
{
    m.remove(key)
}

/// One account under a provider.
#[derive(Debug, Clone)]
pub struct AccountRecord {
    pub id: String,
    pub name: String,
    pub avatar: Option<String>,
    pub token: Option<String>,
    pub extra: serde_json::Map<String, serde_json::Value>,
}

impl AccountRecord {
    /// The extension entries of the record, by key.
    pub open spec fn extra_view(&self) -> Map<Seq<char>, serde_json::Value> {
        extra_entries(self.extra)
    }

    /// A record with the given id and name, no avatar, no token and no
    /// extension entries.
    pub fn new(id: String, name: String) -> (r: Self)
        ensures
            r.id == id,
            r.name == name,
            r.avatar is None,
            r.token is None,
            r.extra_view() == no_entries(),
    {
        AccountRecord { id, name, avatar: None, token: None, extra: empty_extra() }
    }

    /// The same record with its avatar replaced (`None` clears it).
    pub fn with_avatar(self, avatar: Option<String>) -> (r: Self)
        ensures
            r == (AccountRecord { avatar, ..self }),
    {
        let mut s = self;
        s.avatar = avatar;
        s
    }

    /// The same record with its token replaced (`None` clears it).
    pub fn with_token(self, token: Option<String>) -> (r: Self)
        ensures
            r == (AccountRecord { token, ..self }),
    {
        let mut s = self;
        s.token = token;
        s
    }

    /// The extension value stored under `key`, if any.
    pub fn extra_value(&self, key: &str) -> (r: Option<&serde_json::Value>)
        ensures
            r is Some <==> self.extra_view().dom().contains(key@),
            r matches Some(v) ==> *v == self.extra_view()[key@],
    {
        extra_get(&self.extra, key)
    }

    /// Stores `value` under `key`, returning the value it replaced.
    pub fn set_extra_value(&mut self, key: String, value: serde_json::Value) -> (r: Option<
        serde_json::Value,
    >)
        ensures
            final(self).extra_view() == old(self).extra_view().insert(key@, value),
            r == entry_of(old(self).extra_view(), key@),
            final(self).id == old(self).id,
            final(self).name == old(self).name,
            final(self).avatar == old(self).avatar,
            final(self).token == old(self).token,
    {
        extra_insert(&mut self.extra, key, value)
    }

    /// Removes the extension entry under `key`, returning its value.
    pub fn remove_extra(&mut self, key: &str) -> (r: Option<serde_json::Value>)
        ensures
            final(self).extra_view() == old(self).extra_view().remove(key@),
            r == entry_of(old(self).extra_view(), key@),
            final(self).id == old(self).id,
            final(self).name == old(self).name,
            final(self).avatar == old(self).avatar,
            final(self).token == old(self).token,
    {
        extra_remove(&mut self.extra, key)
    }
}

impl Default for AccountRecord {
    fn default() -> (r: Self)
        ensures
            r.id@ == Seq::<char>::empty(),
            r.name@ == Seq::<char>::empty(),
            r.avatar is None,
            r.token is None,
            r.extra_view() == no_entries(),
    {
        AccountRecord::new(String::new(), String::new())
    }
}

} // verus!
