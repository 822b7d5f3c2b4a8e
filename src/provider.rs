//! What every account provider shares: finding an account among those it
//! lists.

use vstd::prelude::*;
use crate::keys::same_text;
use crate::record::AccountRecord;

verus! {

/// The first account of `accounts` whose id is `id`, if any.
pub open spec fn first_with_id(accounts: Seq<AccountRecord>, id: Seq<char>) -> Option<AccountRecord>
    decreases accounts.len(),
{
    if accounts.len() == 0 {
        None
    } else {
        match first_with_id(accounts.drop_last(), id) {
            Some(a) => Some(a),
            None => if accounts.last().id@ == id {
                Some(accounts.last())
            } else {
                None
            },
        }
    }
}

/// Looks up an account by id in a provider's list: the first account with
/// that id, or `None` when no account has it.
pub fn find_account(accounts: Vec<AccountRecord>, account_id: &str) -> (r: Option<AccountRecord>)
    ensures
        r == first_with_id(accounts@, account_id@),
{
    let mut list = accounts;
    let ghost all = list@;
    let n = list.len();
    let mut i: usize = 0;
    while i < n
        invariant
            list@ == all,
            all == accounts@,
            n == all.len(),
            i <= n,
            first_with_id(all.subrange(0, i as int), account_id@) is None,
        decreases n - i,
    {
        assert(all.subrange(0, i + 1).drop_last() =~= all.subrange(0, i as int));
        if same_text(list[i].id.as_str(), account_id) {
            proof {
                lemma_first_found_stays(all, account_id@, i as int);
            }
            let found = list.remove(i);
            return Some(found);
        }
        i = i + 1;
    }
    assert(all.subrange(0, n as int) =~= all);
    None
}

/// Once a prefix has a first match, every longer prefix has the same one.
proof fn lemma_first_found_stays(all: Seq<AccountRecord>, id: Seq<char>, i: int)
    requires
        0 <= i < all.len(),
        first_with_id(all.subrange(0, i + 1), id) == Some(all[i]),
    ensures
        first_with_id(all, id) == Some(all[i]),
    decreases all.len() - i,
{
    if all.len() == i + 1 {
        assert(all.subrange(0, i + 1) =~= all);
    } else {
        let shorter = all.drop_last();
        assert(shorter.subrange(0, i + 1) =~= all.subrange(0, i + 1));
        lemma_first_found_stays(shorter, id, i);
    }
}

} // verus!
