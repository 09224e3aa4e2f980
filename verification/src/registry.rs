//! The ownership registry: a mapping from record identifier to owner
//! identity. Keys are never removed; an insert on an existing key
//! silently replaces the old binding (collision-overwrite, as the
//! reference design has it).

use vstd::prelude::*;

use crate::types::{AccountId, KittenId};

verus! {

/// What a lookup returns on a given registry state: the owner bound to
/// the key, or nothing.
pub open spec fn spec_lookup(m: Map<Seq<u8>, Seq<u8>>, key: Seq<u8>) -> Option<Seq<u8>> {
    if m.contains_key(key) {
        Some(m[key])
    } else {
        None
    }
}

/// The owner identity a lookup result holds, if any.
pub open spec fn opt_owner_view(r: Option<AccountId>) -> Option<Seq<u8>> {
    match r {
        Some(a) => Some(a@),
        None => None,
    }
}

/// Lookup is idempotent: on one and the same registry state, two
/// lookups of the same identifier return the same owner.
pub proof fn lemma_lookup_idempotent(
    m: Map<Seq<u8>, Seq<u8>>,
    key: Seq<u8>,
    r1: Option<Seq<u8>>,
    r2: Option<Seq<u8>>,
)
    requires
        r1 == spec_lookup(m, key),
        r2 == spec_lookup(m, key),
    ensures
        r1 == r2,
{
}

/// The registry's entries, keyed by the identifier's bytes. At most one
/// entry per key is kept.
pub struct Registry {
    entries: Vec<(KittenId, AccountId)>,
}

spec fn entries_to_map(s: Seq<(KittenId, AccountId)>) -> Map<Seq<u8>, Seq<u8>>
    decreases s.len(),
{
    if s.len() == 0 {
        Map::empty()
    } else {
        entries_to_map(s.drop_last()).insert(s.last().0@, s.last().1@)
    }
}

spec fn unique_keys(s: Seq<(KittenId, AccountId)>) -> bool {
    forall|i: int, j: int|
        0 <= i < j < s.len() ==> (#[trigger] s[i]).0@ != (#[trigger] s[j]).0@
}

proof fn lemma_unique_drop_last(s: Seq<(KittenId, AccountId)>)
    requires
        unique_keys(s),
        s.len() > 0,
    ensures
        unique_keys(s.drop_last()),
{
    assert forall|i: int, j: int|
        0 <= i < j < s.drop_last().len() implies (#[trigger] s.drop_last()[i]).0@ != (
    #[trigger] s.drop_last()[j]).0@ by {
        assert(s.drop_last()[i] == s[i]);
        assert(s.drop_last()[j] == s[j]);
    }
}

proof fn lemma_map_of_entry(s: Seq<(KittenId, AccountId)>, i: int)
    requires
        unique_keys(s),
        0 <= i < s.len(),
    ensures
        entries_to_map(s).contains_key(s[i].0@),
        entries_to_map(s)[s[i].0@] == s[i].1@,
    decreases s.len(),
{
    assert(s.last() == s[s.len() - 1]);
    if i < s.len() - 1 {
        lemma_unique_drop_last(s);
        lemma_map_of_entry(s.drop_last(), i);
        assert(s.drop_last()[i] == s[i]);
        assert(s[s.len() - 1].0@ != s[i].0@);
    }
}

proof fn lemma_map_no_key(s: Seq<(KittenId, AccountId)>, key: Seq<u8>)
    requires
        forall|i: int| 0 <= i < s.len() ==> (#[trigger] s[i]).0@ != key,
    ensures
        !entries_to_map(s).contains_key(key),
    decreases s.len(),
{
    if s.len() > 0 {
        assert(s.last() == s[s.len() - 1]);
        assert forall|i: int| 0 <= i < s.drop_last().len() implies (#[trigger] s.drop_last()[i]).0@
            != key by {
            assert(s.drop_last()[i] == s[i]);
        }
        lemma_map_no_key(s.drop_last(), key);
    }
}

proof fn lemma_map_update(s: Seq<(KittenId, AccountId)>, i: int, id: KittenId, owner: AccountId)
    requires
        unique_keys(s),
        0 <= i < s.len(),
        s[i].0@ == id@,
    ensures
        entries_to_map(s.update(i, (id, owner))) == entries_to_map(s).insert(id@, owner@),
        unique_keys(s.update(i, (id, owner))),
    decreases s.len(),
{
    let t = s.update(i, (id, owner));
    assert(s.last() == s[s.len() - 1]);
    assert(t.last() == t[s.len() - 1]);
    if i == s.len() - 1 {
        assert(t.drop_last() =~= s.drop_last());
        assert(entries_to_map(t) =~= entries_to_map(s).insert(id@, owner@));
    } else {
        lemma_unique_drop_last(s);
        assert(s.drop_last()[i] == s[i]);
        lemma_map_update(s.drop_last(), i, id, owner);
        assert(t.drop_last() =~= s.drop_last().update(i, (id, owner)));
        assert(t.last() == s.last());
        assert(s[s.len() - 1].0@ != id@);
        assert(entries_to_map(t) =~= entries_to_map(s).insert(id@, owner@));
    }
    assert forall|p: int, q: int|
        0 <= p < q < t.len() implies (#[trigger] t[p]).0@ != (#[trigger] t[q]).0@ by {
        assert(t[p].0@ == s[p].0@);
        assert(t[q].0@ == s[q].0@);
    }
}

proof fn lemma_map_push(s: Seq<(KittenId, AccountId)>, id: KittenId, owner: AccountId)
    requires
        unique_keys(s),
        forall|i: int| 0 <= i < s.len() ==> (#[trigger] s[i]).0@ != id@,
    ensures
        entries_to_map(s.push((id, owner))) == entries_to_map(s).insert(id@, owner@),
        unique_keys(s.push((id, owner))),
{
    let t = s.push((id, owner));
    assert(t.drop_last() =~= s);
    assert(t.last() == (id, owner));
    assert(entries_to_map(t) == entries_to_map(t.drop_last()).insert(id@, owner@));
    assert forall|p: int, q: int|
        0 <= p < q < t.len() implies (#[trigger] t[p]).0@ != (#[trigger] t[q]).0@ by {
        if q < s.len() {
            assert(t[p] == s[p]);
            assert(t[q] == s[q]);
        } else {
            assert(t[p] == s[p]);
            assert(t[q] == (id, owner));
        }
    }
}

proof fn lemma_map_len(s: Seq<(KittenId, AccountId)>)
    requires
        unique_keys(s),
    ensures
        entries_to_map(s).dom().finite(),
        entries_to_map(s).dom().len() == s.len(),
    decreases s.len(),
{
    if s.len() == 0 {
        assert(entries_to_map(s).dom() =~= Set::<Seq<u8>>::empty());
    } else {
        assert(s.last() == s[s.len() - 1]);
        lemma_unique_drop_last(s);
        lemma_map_len(s.drop_last());
        assert forall|i: int| 0 <= i < s.drop_last().len() implies (#[trigger] s.drop_last()[i]).0@
            != s.last().0@ by {
            assert(s.drop_last()[i] == s[i]);
        }
        lemma_map_no_key(s.drop_last(), s.last().0@);
        assert(entries_to_map(s).dom() =~= entries_to_map(s.drop_last()).dom().insert(
            s.last().0@,
        ));
    }
}

impl View for Registry {
    type V = Map<Seq<u8>, Seq<u8>>;

    closed spec fn view(&self) -> Map<Seq<u8>, Seq<u8>> {
        entries_to_map(self.entries@)
    }
}

impl Registry {
    /// Well-formedness: at most one entry per identifier.
    pub closed spec fn wf(self) -> bool {
        unique_keys(self.entries@)
    }

    /// The empty registry, as the system starts at genesis.
    pub fn empty() -> (r: Registry)
        ensures
            r.wf(),
            r@ == Map::<Seq<u8>, Seq<u8>>::empty(),
    {
        let r = Registry { entries: Vec::new() };
        proof {
            assert(r@ =~= Map::<Seq<u8>, Seq<u8>>::empty());
        }
        r
    }

    /// Binds `id` to `owner`. No error is raised if `id` already exists:
    /// the new binding silently replaces the old one.
    pub fn insert(&mut self, id: KittenId, owner: AccountId)
        requires
            old(self).wf(),
        ensures
            final(self).wf(),
            final(self)@ == old(self)@.insert(id@, owner@),
    {
        let n = self.entries.len();
        let mut i: usize = 0;
        while i < n
            invariant
                self == old(self),
                old(self).wf(),
                n == self.entries@.len(),
                0 <= i <= n,
                forall|j: int| 0 <= j < i ==> (#[trigger] self.entries@[j]).0@ != id@,
            decreases n - i,
        {
            let hit = self.entries[i].0.equals(&id);
            if hit {
                proof {
                    lemma_map_update(self.entries@, i as int, id, owner);
                }
                self.entries[i] = (id, owner);
                return ;
            }
            i = i + 1;
        }
        proof {
            lemma_map_push(self.entries@, id, owner);
        }
        self.entries.push((id, owner));
    }

    /// Returns the current owner of `id`, or nothing if the key is
    /// absent.
    pub fn lookup(&self, id: &KittenId) -> (r: Option<AccountId>)
        requires
            self.wf(),
        ensures
            opt_owner_view(r) == spec_lookup(self@, id@),
    {
        let n = self.entries.len();
        let mut i: usize = 0;
        while i < n
            invariant
                self.wf(),
                n == self.entries@.len(),
                0 <= i <= n,
                forall|j: int| 0 <= j < i ==> (#[trigger] self.entries@[j]).0@ != id@,
            decreases n - i,
        {
            let hit = self.entries[i].0.equals(id);
            if hit {
                proof {
                    lemma_map_of_entry(self.entries@, i as int);
                }
                return Some(self.entries[i].1);
            }
            i = i + 1;
        }
        proof {
            lemma_map_no_key(self.entries@, id@);
        }
        None
    }

    /// How many records are registered.
    pub fn len(&self) -> (n: usize)
        requires
            self.wf(),
        ensures
            n == self@.dom().len(),
    {
        proof {
            lemma_map_len(self.entries@);
        }
        self.entries.len()
    }
}

} // verus!
