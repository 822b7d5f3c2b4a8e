//! Storage keys derived from provider names.

use vstd::prelude::*;

verus! {

/// ASCII letters and digits keep their identity in a storage key.
pub open spec fn is_key_char(c: char) -> bool {
    ('a' <= c && c <= 'z') || ('A' <= c && c <= 'Z') || ('0' <= c && c <= '9')
}

/// The lowercase form of an ASCII character; other characters are unchanged.
pub open spec fn ascii_lower(c: char) -> char {
    if 'A' <= c && c <= 'Z' {
        ((c as u32) + 32) as char
    } else {
        c
    }
}

/// One character of a normalized name.
pub open spec fn normalize_char(c: char) -> char {
    if is_key_char(c) {
        ascii_lower(c)
    } else {
        '_'
    }
}

/// A provider name with ASCII letters and digits lowercased and every other
/// character replaced by `_`.
pub open spec fn normalize(s: Seq<char>) -> Seq<char> {
    s.map_values(|c: char| normalize_char(c))
}

/// Relies on `char::to_ascii_lowercase`: `A`..=`Z` map to `a`..=`z`, every
/// other character maps to itself.
#[verifier::external_body]
fn lower_ascii_char(c: char) -> (r: char)
    ensures
        r == ascii_lower(c),
{
    c.to_ascii_lowercase()
}

/// Relies on `String::push`: appends one character.
#[verifier::external_body]
pub(crate) fn push_char(s: &mut String, c: char)
    ensures
        final(s)@ == old(s)@.push(c),
{
    s.push(c)
}

/// Normalizes a provider name into the character set of storage keys.
pub fn normalize_key(input: &str) -> (r: String)
    ensures
        r@ == normalize(input@),
{
    let n = input.unicode_len();
    let mut out = String::new();
    let mut i: usize = 0;
    while i < n
        invariant
            n == input@.len(),
            i <= n,
            out@ == normalize(input@.subrange(0, i as int)),
        decreases n - i,
    {
        let c = input.get_char(i);
        let is_alnum = ('a' <= c && c <= 'z') || ('A' <= c && c <= 'Z') || ('0' <= c && c <= '9');
        let m = if is_alnum {
            lower_ascii_char(c)
        } else {
            '_'
        };
        push_char(&mut out, m);
        assert(input@.subrange(0, i + 1) =~= input@.subrange(0, i as int).push(c));
        i = i + 1;
        assert(out@ =~= normalize(input@.subrange(0, i as int)));
    }
    assert(input@.subrange(0, n as int) =~= input@);
    out
}

/// Whether two strings hold the same characters.
pub fn same_text(a: &str, b: &str) -> (r: bool)
    ensures
        r == (a@ == b@),
{
    let n = a.unicode_len();
    if n != b.unicode_len() {
        return false;
    }
    let mut i: usize = 0;
    while i < n
        invariant
            n == a@.len(),
            n == b@.len(),
            i <= n,
            forall|j: int| 0 <= j < i ==> a@[j] == b@[j],
        decreases n - i,
    {
        if a.get_char(i) != b.get_char(i) {
            return false;
        }
        i = i + 1;
    }
    assert(a@ =~= b@);
    true
}

/// Normalization is idempotent: a normalized name normalizes to itself.
pub proof fn lemma_normalize_idempotent(s: Seq<char>)
    ensures
        normalize(normalize(s)) == normalize(s),
{
    assert forall|i: int| 0 <= i < s.len() implies #[trigger] normalize_char(normalize_char(s[i]))
        == normalize_char(s[i]) by {
        let c = s[i];
        if 'A' <= c && c <= 'Z' {
            assert(((c as u32) + 32) as char >= 'a');
        }
    }
    assert(normalize(normalize(s)) =~= normalize(s));
}

} // verus!
