use vstd::prelude::*;

use crate::address::Address;
use crate::uint::U256;

verus! {

/// Keys whose equality can be decided at run time.
pub trait KeyEq: Sized {
    fn same(&self, other: &Self) -> (r: bool)
        ensures
            r == (*self == *other),
    ;
}

impl KeyEq for U256 {
    fn same(&self, other: &U256) -> (r: bool) {
        U256::same(self, other)
    }
}

impl KeyEq for Address {
    fn same(&self, other: &Address) -> (r: bool) {
        *self == *other
    }
}

impl<A: KeyEq, B: KeyEq> KeyEq for (A, B) {
    fn same(&self, other: &(A, B)) -> (r: bool) {
        self.0.same(&other.0) && self.1.same(&other.1)
    }
}

/// A finite map held as a list of entries with distinct keys. A key that is
/// absent has never been written.
#[verifier::reject_recursive_types(K)]
pub struct Table<K, V> {
    entries: Vec<(K, V)>,
    model: Ghost<Map<K, V>>,
}

impl<K: KeyEq + Copy, V: Copy> Table<K, V> {
    pub closed spec fn view(&self) -> Map<K, V> {
        self.model@
    }

    pub closed spec fn wf(&self) -> bool {
        &&& forall|i: int|
            0 <= i < self.entries@.len() ==> {
                &&& self.model@.contains_key(#[trigger] self.entries@[i].0)
                &&& self.model@[self.entries@[i].0] == self.entries@[i].1
            }
        &&& forall|k: K| #[trigger]
            self.model@.contains_key(k) ==> exists|i: int|
                0 <= i < self.entries@.len() && #[trigger] self.entries@[i].0 == k
        &&& forall|i: int, j: int|
            0 <= i < self.entries@.len() && 0 <= j < self.entries@.len() && i != j
                ==> #[trigger] self.entries@[i].0 != #[trigger] self.entries@[j].0
    }

    pub fn new() -> (r: Self)
        ensures
            r.wf(),
            r.view() == Map::<K, V>::empty(),
    {
        Table { entries: Vec::new(), model: Ghost(Map::empty()) }
    }

    /// The position of `k` among the entries, if it is there.
    fn find(&self, k: &K) -> (r: Option<usize>)
        requires
            self.wf(),
        ensures
            match r {
                Some(i) => i < self.entries@.len() && self.entries@[i as int].0 == *k,
                None => !self.view().contains_key(*k),
            },
    {
        let mut i: usize = 0;
        while i < self.entries.len()
            invariant
                0 <= i <= self.entries@.len(),
                forall|j: int| 0 <= j < i ==> self.entries@[j].0 != *k,
            decreases self.entries@.len() - i,
        {
            if self.entries[i].0.same(k) {
                return Some(i);
            }
            i = i + 1;
        }
        None
    }

    pub fn get(&self, k: &K) -> (r: Option<V>)
        requires
            self.wf(),
        ensures
            r == (if self.view().contains_key(*k) {
                Some(self.view()[*k])
            } else {
                None
            }),
    {
        match self.find(k) {
            Some(i) => Some(self.entries[i].1),
            None => None,
        }
    }

    pub fn set(&mut self, k: K, v: V)
        requires
            old(self).wf(),
        ensures
            final(self).wf(),
            final(self).view() == old(self).view().insert(k, v),
    {
        let ghost before = self.entries@;
        match self.find(&k) {
            Some(i) => {
                self.entries.set(i, (k, v));
                self.model = Ghost(self.model@.insert(k, v));
                assert forall|key: K| #[trigger]
                    self.model@.contains_key(key) implies exists|j: int|
                        0 <= j < self.entries@.len() && #[trigger] self.entries@[j].0 == key by {
                    if key != k {
                        let j = choose|j: int| 0 <= j < before.len() && #[trigger] before[j].0 == key;
                        assert(self.entries@[j].0 == key);
                    } else {
                        assert(self.entries@[i as int].0 == key);
                    }
                }
            },
            None => {
                self.entries.push((k, v));
                self.model = Ghost(self.model@.insert(k, v));
                assert forall|key: K| #[trigger]
                    self.model@.contains_key(key) implies exists|j: int|
                        0 <= j < self.entries@.len() && #[trigger] self.entries@[j].0 == key by {
                    if key != k {
                        let j = choose|j: int| 0 <= j < before.len() && #[trigger] before[j].0 == key;
                        assert(self.entries@[j].0 == key);
                    } else {
                        assert(self.entries@[before.len() as int].0 == key);
                    }
                }
            },
        }
    }

    /// A second table with the same contents.
    pub fn duplicate(&self) -> (r: Self)
        requires
            self.wf(),
        ensures
            r.wf(),
            r.view() == self.view(),
    {
        let mut entries: Vec<(K, V)> = Vec::new();
        let mut i: usize = 0;
        while i < self.entries.len()
            invariant
                0 <= i <= self.entries@.len(),
                entries@ == self.entries@.subrange(0, i as int),
            decreases self.entries@.len() - i,
        {
            let e = self.entries[i];
            entries.push(e);
            i = i + 1;
        }
        assert(entries@ =~= self.entries@);
        let r = Table { entries, model: Ghost(self.model@) };
        assert(r.entries@ == self.entries@ && r.model@ == self.model@);
        r
    }
}

} // verus!
