use vstd::prelude::*;

use crate::errors::AlyraSignError;
use crate::identity::Address;

verus! {

// A key-addressed record store with atomic per-address mutation, the shape
// the hosting ledger provides: `create` claims a fresh address, `get` reads,
// `put` replaces an existing record. Every mutation either applies fully or
// leaves the store untouched.

/// The map held by a sequence of address/record entries; with pairwise
/// distinct addresses every address occurs at most once, so the fold order
/// does not matter.
pub open spec fn map_of<T>(s: Seq<(Address, T)>) -> Map<Address, T>
    decreases s.len(),
{
    if s.len() == 0 {
        Map::empty()
    } else {
        map_of(s.drop_last()).insert(s.last().0, s.last().1)
    }
}

/// Whether the entries carry pairwise-distinct addresses.
pub open spec fn distinct_addresses<T>(s: Seq<(Address, T)>) -> bool {
    forall|i: int, j: int|
        0 <= i < j < s.len() ==> (#[trigger] s[i]).0 != (#[trigger] s[j]).0
}

/// An address is in the map exactly where some entry carries it.
pub proof fn lemma_map_of_contains<T>(s: Seq<(Address, T)>, a: Address)
    ensures
        map_of(s).contains_key(a) <==> exists|i: int|
            0 <= i < s.len() && (#[trigger] s[i]).0 == a,
    decreases s.len(),
{
    if s.len() > 0 {
        let d = s.drop_last();
        lemma_map_of_contains(d, a);
        assert(forall|i: int| 0 <= i < d.len() ==> d[i] == s[i]);
        if map_of(s).contains_key(a) {
            if s.last().0 == a {
                assert(s[s.len() - 1].0 == a);
            } else {
                let i = choose|i: int| 0 <= i < d.len() && (#[trigger] d[i]).0 == a;
                assert(s[i].0 == a);
            }
        }
        if exists|i: int| 0 <= i < s.len() && (#[trigger] s[i]).0 == a {
            let i = choose|i: int| 0 <= i < s.len() && (#[trigger] s[i]).0 == a;
            if i < s.len() - 1 {
                assert(d[i].0 == a);
            }
        }
    }
}

/// With distinct addresses, the entry carrying an address holds exactly the
/// record the map gives for it.
pub proof fn lemma_map_of_index<T>(s: Seq<(Address, T)>, i: int)
    requires
        distinct_addresses(s),
        0 <= i < s.len(),
    ensures
        map_of(s).contains_key(s[i].0),
        map_of(s)[s[i].0] == s[i].1,
    decreases s.len(),
{
    let d = s.drop_last();
    assert(forall|k: int| 0 <= k < d.len() ==> d[k] == s[k]);
    if i == s.len() - 1 {
        assert(s.last() == s[i]);
    } else {
        assert(distinct_addresses(d));
        lemma_map_of_index(d, i);
        assert(s[i].0 != s.last().0);
    }
}

/// Appending an entry inserts its record at its address.
pub proof fn lemma_map_of_push<T>(s: Seq<(Address, T)>, a: Address, v: T)
    ensures
        map_of(s.push((a, v))) == map_of(s).insert(a, v),
{
    assert(s.push((a, v)).drop_last() =~= s);
    assert(s.push((a, v)).last() == (a, v));
}

/// Replacing the record of the entry at `i`, keeping its address, updates
/// exactly that address in the map.
pub proof fn lemma_map_of_update<T>(s: Seq<(Address, T)>, i: int, v: T)
    requires
        distinct_addresses(s),
        0 <= i < s.len(),
    ensures
        map_of(s.update(i, (s[i].0, v))) == map_of(s).insert(s[i].0, v),
    decreases s.len(),
{
    let a = s[i].0;
    let t = s.update(i, (a, v));
    let d = s.drop_last();
    assert(forall|k: int| 0 <= k < d.len() ==> d[k] == s[k]);
    if i == s.len() - 1 {
        assert(t.drop_last() =~= d);
        assert(t.last() == (a, v));
        assert(map_of(t) =~= map_of(s).insert(a, v));
    } else {
        assert(distinct_addresses(d));
        lemma_map_of_update(d, i, v);
        assert(t.drop_last() =~= d.update(i, (a, v)));
        assert(t.last() == s.last());
        assert(a != s.last().0);
        assert(map_of(t) =~= map_of(s).insert(a, v));
    }
}

/// One record registry: a fixed set of addresses, each holding one record.
/// The addresses of its entries are pairwise distinct (`wf`), and its
/// observable state is the map from address to record (`view`).
pub struct Registry<T> {
    entries: Vec<(Address, T)>,
}

impl<T> View for Registry<T> {
    type V = Map<Address, T>;

    closed spec fn view(&self) -> Map<Address, T> {
        map_of(self.entries@)
    }
}

impl<T> Registry<T> {
    /// The registry's internal invariant: one entry per address.
    pub closed spec fn wf(self) -> bool {
        distinct_addresses(self.entries@)
    }

    /// An empty registry.
    pub fn new() -> (r: Registry<T>)
        ensures
            r.wf(),
            r@ == Map::<Address, T>::empty(),
    {
        Registry { entries: Vec::new() }
    }

    /// The index of the entry carrying `a`, if any.
    fn find(&self, a: Address) -> (r: Option<usize>)
        ensures
            match r {
                Some(i) => i < self.entries@.len() && self.entries@[i as int].0 == a
                    && self@.contains_key(a),
                None => !self@.contains_key(a),
            },
    {
        let n: usize = self.entries.len();
        let mut i: usize = 0;
        while i < n
            invariant
                0 <= i <= n,
                n == self.entries@.len(),
                forall|j: int| 0 <= j < i ==> (#[trigger] self.entries@[j]).0 != a,
            decreases n - i,
        {
            if self.entries[i].0 == a {
                proof {
                    lemma_map_of_contains(self.entries@, a);
                }
                return Some(i);
            }
            i = i + 1;
        }
        proof {
            lemma_map_of_contains(self.entries@, a);
        }
        None
    }

    /// Whether a record stands at `a`.
    pub fn contains(&self, a: Address) -> (r: bool)
        ensures
            r == self@.contains_key(a),
    {
        match self.find(a) {
            Some(_) => true,
            None => false,
        }
    }

    /// The record at `a`, if any.
    pub fn get(&self, a: Address) -> (r: Option<&T>)
        requires
            self.wf(),
        ensures
            match r {
                Some(v) => self@.contains_key(a) && *v == self@[a],
                None => !self@.contains_key(a),
            },
    {
        match self.find(a) {
            Some(i) => {
                proof {
                    lemma_map_of_index(self.entries@, i as int);
                }
                Some(&self.entries[i].1)
            }
            None => None,
        }
    }

    /// Claim address `a` for the record `v`. Where a record already stands at
    /// `a` the creation is refused with AlreadyExists and nothing changes;
    /// addresses are assigned once and never reused.
    pub fn create(&mut self, a: Address, v: T) -> (r: Result<(), AlyraSignError>)
        requires
            old(self).wf(),
        ensures
            final(self).wf(),
            !old(self)@.contains_key(a) ==> r == Ok::<(), AlyraSignError>(()) && final(self)@
                == old(self)@.insert(a, v),
            old(self)@.contains_key(a) ==> r == Err::<(), AlyraSignError>(
                AlyraSignError::AlreadyExists,
            ) && *final(self) == *old(self),
    {
        match self.find(a) {
            Some(_) => Err(AlyraSignError::AlreadyExists),
            None => {
                let ghost s0 = self.entries@;
                proof {
                    lemma_map_of_contains(s0, a);
                    lemma_map_of_push(s0, a, v);
                }
                self.entries.push((a, v));
                proof {
                    let t = self.entries@;
                    assert forall|i: int, j: int|
                        0 <= i < j < t.len() implies (#[trigger] t[i]).0 != (#[trigger] t[j]).0 by {
                        if j == t.len() - 1 {
                            assert(t[i] == s0[i]);
                        } else {
                            assert(t[i] == s0[i]);
                            assert(t[j] == s0[j]);
                        }
                    }
                }
                Ok(())
            }
        }
    }

    /// Replace the record at `a`. Where no record stands at `a` the put is
    /// refused with NotFound and nothing changes; a put never claims a fresh
    /// address.
    pub fn put(&mut self, a: Address, v: T) -> (r: Result<(), AlyraSignError>)
        requires
            old(self).wf(),
        ensures
            final(self).wf(),
            old(self)@.contains_key(a) ==> r == Ok::<(), AlyraSignError>(()) && final(self)@
                == old(self)@.insert(a, v),
            !old(self)@.contains_key(a) ==> r == Err::<(), AlyraSignError>(
                AlyraSignError::NotFound,
            ) && *final(self) == *old(self),
    {
        match self.find(a) {
            None => Err(AlyraSignError::NotFound),
            Some(i) => {
                let ghost s0 = self.entries@;
                proof {
                    lemma_map_of_update(s0, i as int, v);
                }
                self.entries.set(i, (a, v));
                proof {
                    let t = self.entries@;
                    assert(t =~= s0.update(i as int, (s0[i as int].0, v)));
                    assert forall|k: int, l: int|
                        0 <= k < l < t.len() implies (#[trigger] t[k]).0 != (#[trigger] t[l]).0 by {
                        assert(t[k].0 == s0[k].0);
                        assert(t[l].0 == s0[l].0);
                    }
                }
                Ok(())
            }
        }
    }
}

} // verus!
