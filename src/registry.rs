//! The registry of named account providers.
//!
//! Entries keep their registration order; names need not be unique. Lookup
//! answers with the first entry of a name, removal drops every entry of it.

use vstd::prelude::*;
use crate::keys::same_text;

verus! {

/// The provider of the first entry named `name`, if any.
pub open spec fn first_named<P>(entries: Seq<(String, P)>, name: Seq<char>) -> Option<P>
    decreases entries.len(),
{
    if entries.len() == 0 {
        None
    } else {
        match first_named(entries.drop_last(), name) {
            Some(p) => Some(p),
            None => if entries.last().0@ == name {
                Some(entries.last().1)
            } else {
                None
            },
        }
    }
}

/// Whether an entry is named otherwise than `name`.
pub open spec fn named_otherwise<P>(name: Seq<char>) -> spec_fn((String, P)) -> bool {
    |e: (String, P)| e.0@ != name
}

/// The entries whose name is not `name`, in order.
pub open spec fn without_name<P>(entries: Seq<(String, P)>, name: Seq<char>) -> Seq<(String, P)> {
    entries.filter(named_otherwise(name))
}

/// The entries after registering each of `added` in turn.
pub open spec fn register_all<P>(entries: Seq<(String, P)>, added: Seq<(String, P)>) -> Seq<
    (String, P),
>
    decreases added.len(),
{
    if added.len() == 0 {
        entries
    } else {
        register_all(entries, added.drop_last()).push(added.last())
    }
}

/// An ordered collection of providers, each registered under a name.
pub struct Registry<P> {
    entries: Vec<(String, P)>,
}

impl<P> View for Registry<P> {
    type V = Seq<(String, P)>;

    closed spec fn view(&self) -> Seq<(String, P)> {
        self.entries@
    }
}

impl<P> Registry<P> {
    /// A registry with no provider.
    pub fn new() -> (r: Self)
        ensures
            r@ == Seq::<(String, P)>::empty(),
    {
        Registry { entries: Vec::new() }
    }

    /// Appends `provider` under `name`; an entry of the same name already
    /// there stays.
    pub fn add_account_provider(&mut self, name: String, provider: P)
        ensures
            final(self)@ == old(self)@.push((name, provider)),
    {
        self.entries.push((name, provider));
    }

    /// Drops every entry named `name`, keeping the order of the others.
    pub fn remove_account_provider(&mut self, name: &str)
        ensures
            final(self)@ == without_name(old(self)@, name@),
    {
        let ghost orig = self.entries@;
        let mut rest: Vec<(String, P)> = Vec::new();
        std::mem::swap(&mut self.entries, &mut rest);
        let ghost mut taken: int = 0;
        while rest.len() > 0
            invariant
                0 <= taken <= orig.len(),
                rest@ == orig.subrange(taken, orig.len() as int),
                self.entries@ == without_name(orig.subrange(0, taken), name@),
            decreases rest.len(),
        {
            let e = rest.remove(0);
            proof {
                assert(orig.subrange(0, taken + 1) =~= orig.subrange(0, taken).push(e));
                assert(orig.subrange(0, taken + 1).drop_last() =~= orig.subrange(0, taken));
                reveal(Seq::filter);
                taken = taken + 1;
                assert(rest@ =~= orig.subrange(taken, orig.len() as int));
            }
            if !same_text(e.0.as_str(), name) {
                self.entries.push(e);
            }
        }
        assert(orig.subrange(0, taken) =~= orig);
    }

    /// The provider of the first entry named `name`, in registration order.
    pub fn get_account_provider(&self, name: &str) -> (r: Option<&P>)
        ensures
            r is Some <==> first_named(self@, name@) is Some,
            r matches Some(p) ==> first_named(self@, name@) == Some(*p),
    {
        let n = self.entries.len();
        let mut i: usize = 0;
        while i < n
            invariant
                n == self.entries@.len(),
                i <= n,
                first_named(self.entries@.subrange(0, i as int), name@) is None,
            decreases n - i,
        {
            assert(self.entries@.subrange(0, i + 1).drop_last() =~= self.entries@.subrange(
                0,
                i as int,
            ));
            if same_text(self.entries[i].0.as_str(), name) {
                let mut j: usize = i + 1;
                while j < n
                    invariant
                        n == self.entries@.len(),
                        i < j <= n,
                        first_named(self.entries@.subrange(0, j as int), name@) == Some(
                            self.entries@[i as int].1,
                        ),
                    decreases n - j,
                {
                    assert(self.entries@.subrange(0, j + 1).drop_last() =~= self.entries@.subrange(
                        0,
                        j as int,
                    ));
                    j = j + 1;
                }
                assert(self.entries@.subrange(0, n as int) =~= self.entries@);
                return Some(&self.entries[i].1);
            }
            i = i + 1;
        }
        assert(self.entries@.subrange(0, n as int) =~= self.entries@);
        None
    }

    /// The names of all entries, in registration order, repeats included.
    pub fn list_account_providers(&self) -> (r: Vec<String>)
        ensures
            r@ == self@.map_values(|e: (String, P)| e.0),
    {
        let mut out: Vec<String> = Vec::new();
        let n = self.entries.len();
        let mut i: usize = 0;
        while i < n
            invariant
                n == self.entries@.len(),
                i <= n,
                out@ == self.entries@.subrange(0, i as int).map_values(|e: (String, P)| e.0),
            decreases n - i,
        {
            out.push(self.entries[i].0.clone());
            assert(self.entries@.subrange(0, i + 1) =~= self.entries@.subrange(0, i as int).push(
                self.entries@[i as int],
            ));
            i = i + 1;
            assert(out@ =~= self.entries@.subrange(0, i as int).map_values(|e: (String, P)| e.0));
        }
        assert(self.entries@.subrange(0, n as int) =~= self.entries@);
        out
    }
}

/// No entry named `name` means no provider is found under it.
pub proof fn lemma_first_named_absent<P>(entries: Seq<(String, P)>, name: Seq<char>)
    requires
        forall|i: int| 0 <= i < entries.len() ==> (#[trigger] entries[i]).0@ != name,
    ensures
        first_named(entries, name) is None,
    decreases entries.len(),
{
    if entries.len() > 0 {
        lemma_first_named_absent(entries.drop_last(), name);
    }
}

/// When a name is registered twice, lookup answers with the provider that
/// was registered first, and the list of names holds the name twice.
pub proof fn lemma_first_registered_wins<P>(entries: Seq<(String, P)>, name: String, p1: P, p2: P)
    requires
        first_named(entries, name@) is None,
    ensures
        first_named(entries.push((name, p1)).push((name, p2)), name@) == Some(p1),
        entries.push((name, p1)).push((name, p2)).map_values(|e: (String, P)| e.0)[entries.len() as int]
            == name,
        entries.push((name, p1)).push((name, p2)).map_values(|e: (String, P)| e.0)[entries.len() + 1int] == name,
{
    let once = entries.push((name, p1));
    let twice = once.push((name, p2));
    assert(once.drop_last() =~= entries);
    assert(twice.drop_last() =~= once);
    assert(first_named(once, name@) == Some(p1));
    assert(twice.map_values(|e: (String, P)| e.0)[entries.len() as int] == twice[entries.len() as int].0);
    assert(twice.map_values(|e: (String, P)| e.0)[entries.len() + 1int] == twice[entries.len() + 1int].0);
}

/// After every entry named `name` is removed, lookup under `name` finds nothing
/// and no remaining entry carries the name.
pub proof fn lemma_removed_name_not_found<P>(entries: Seq<(String, P)>, name: Seq<char>)
    ensures
        first_named(without_name(entries, name), name) is None,
        forall|i: int|
            0 <= i < without_name(entries, name).len() ==> (#[trigger] without_name(
                entries,
                name,
            )[i]).0@ != name,
{
    let kept = without_name(entries, name);
    let pred = named_otherwise::<P>(name);
    assert forall|i: int| 0 <= i < kept.len() implies (#[trigger] kept[i]).0@ != name by {
        entries.lemma_filter_pred(pred, i);
    }
    lemma_first_named_absent(kept, name);
}

/// Registrations made one after another lose none: the result holds every
/// earlier entry followed by every added one, in the order of registration.
pub proof fn lemma_register_all_keeps_every_entry<P>(
    entries: Seq<(String, P)>,
    added: Seq<(String, P)>,
)
    ensures
        register_all(entries, added) == entries + added,
        forall|i: int| 0 <= i < added.len() ==> register_all(entries, added).contains(
            #[trigger] added[i],
        ),
        forall|i: int| 0 <= i < entries.len() ==> register_all(entries, added).contains(
            #[trigger] entries[i],
        ),
    decreases added.len(),
{
    if added.len() > 0 {
        lemma_register_all_keeps_every_entry(entries, added.drop_last());
        assert(entries + added =~= (entries + added.drop_last()).push(added.last()));
    } else {
        assert(entries + added =~= entries);
    }
    assert forall|i: int| 0 <= i < added.len() implies register_all(entries, added).contains(
        #[trigger] added[i],
    ) by {
        assert((entries + added)[entries.len() + i] == added[i]);
    }
    assert forall|i: int| 0 <= i < entries.len() implies register_all(entries, added).contains(
        #[trigger] entries[i],
    ) by {
        assert((entries + added)[i] == entries[i]);
    }
}

} // verus!
