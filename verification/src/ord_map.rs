//! A small map that is walked in the order of its keys.
use vstd::prelude::*;
use crate::ids::Key;

verus! {

/// Keys with their values, in ascending order of the keys, each key once.
pub struct OrdMap<K, V> {
    pub entries: Vec<(K, V)>,
}

impl<K: Key, V: Copy> OrdMap<K, V> {
    /// The keys ascend strictly.
    pub open spec fn wf(&self) -> bool {
        forall|i: int, j: int|
            0 <= i < j < self.entries@.len() ==> (#[trigger] self.entries@[i]).0.rank() < (
            #[trigger] self.entries@[j]).0.rank()
    }

    pub open spec fn has(&self, key: K) -> bool {
        exists|i: int| 0 <= i < self.entries@.len() && (#[trigger] self.entries@[i]).0 == key
    }

    pub open spec fn at(&self, key: K) -> V {
        self.entries@[choose|i: int|
            0 <= i < self.entries@.len() && (#[trigger] self.entries@[i]).0 == key].1
    }

    /// What is kept under each key.
    pub open spec fn view(&self) -> Map<K, V> {
        Map::new(|key: K| self.has(key), |key: K| self.at(key))
    }

    /// The entry at an index is what the view holds under its key.
    pub proof fn entry_is_viewed(&self, i: int)
        requires
            self.wf(),
            0 <= i < self.entries@.len(),
        ensures
            self@.contains_key(self.entries@[i].0),
            self@[self.entries@[i].0] == self.entries@[i].1,
    {
        let key = self.entries@[i].0;
        let j = choose|j: int|
            0 <= j < self.entries@.len() && (#[trigger] self.entries@[j]).0 == key;
        assert(self.entries@[j].0 == key);
        if i < j {
            assert(self.entries@[i].0.rank() < self.entries@[j].0.rank());
        }
        if j < i {
            assert(self.entries@[j].0.rank() < self.entries@[i].0.rank());
        }
    }

    /// A map without entries.
    pub fn new() -> (r: Self)
        ensures
            r.wf(),
            r@ == Map::<K, V>::empty(),
            r.entries@.len() == 0,
    {
        let r = OrdMap { entries: Vec::new() };
        proof {
            assert(r@ =~= Map::<K, V>::empty());
        }
        r
    }

    /// How many keys stand before `key`: where it is, or where it belongs.
    fn position(&self, key: K) -> (p: usize)
        requires
            self.wf(),
        ensures
            p <= self.entries@.len(),
            forall|i: int| 0 <= i < p ==> (#[trigger] self.entries@[i]).0.rank() < key.rank(),
            forall|i: int|
                p <= i < self.entries@.len() ==> key.rank() <= (#[trigger] self.entries@[i]).0.rank(),
    {
        let mut p: usize = 0;
        while p < self.entries.len() && self.entries[p].0.precedes(&key)
            invariant
                self.wf(),
                p <= self.entries@.len(),
                forall|i: int| 0 <= i < p ==> (#[trigger] self.entries@[i]).0.rank() < key.rank(),
            decreases self.entries@.len() - p,
        {
            p = p + 1;
        }
        proof {
            if p < self.entries@.len() {
                assert forall|i: int| p <= i < self.entries@.len() implies key.rank() <= (
                #[trigger] self.entries@[i]).0.rank() by {
                    if p < i {
                        assert(self.entries@[p as int].0.rank() < self.entries@[i].0.rank());
                    }
                }
            }
        }
        p
    }

    /// The value under `key`, if there is one.
    pub fn get(&self, key: K) -> (r: Option<V>)
        requires
            self.wf(),
        ensures
            r == (if self@.contains_key(key) { Some(self@[key]) } else { None }),
    {
        let p = self.position(key);
        if p < self.entries.len() && !key.precedes(&self.entries[p].0) {
            proof {
                key.rank_is_injective(self.entries@[p as int].0);
                self.entry_is_viewed(p as int);
            }
            Some(self.entries[p].1)
        } else {
            proof {
                if self@.contains_key(key) {
                    let i = choose|i: int|
                        0 <= i < self.entries@.len() && (#[trigger] self.entries@[i]).0 == key;
                    assert(self.entries@[i].0 == key);
                    if p < i {
                        assert(self.entries@[p as int].0.rank() < self.entries@[i].0.rank());
                    }
                }
            }
            None
        }
    }

    /// The value under `key`, or `default` where there is none.
    pub fn get_or(&self, key: K, default: V) -> (r: V)
        requires
            self.wf(),
        ensures
            r == (if self@.contains_key(key) { self@[key] } else { default }),
    {
        match self.get(key) {
            Some(value) => value,
            None => default,
        }
    }

    /// Puts `value` under `key`, in place of what was there.
    pub fn insert(&mut self, key: K, value: V)
        requires
            old(self).wf(),
        ensures
            final(self).wf(),
            final(self)@ == old(self)@.insert(key, value),
    {
        let p = self.position(key);
        let ghost before = *self;
        if p < self.entries.len() && !key.precedes(&self.entries[p].0) {
            proof {
                key.rank_is_injective(self.entries@[p as int].0);
            }
            self.entries.set(p, (key, value));
            proof {
                assert forall|k: K| self@.contains_key(k) == before@.insert(key, value).contains_key(k) by {
                    if before.has(k) {
                        let i = choose|i: int|
                            0 <= i < before.entries@.len() && (#[trigger] before.entries@[i]).0 == k;
                        assert(before.entries@[i].0 == k);
                        assert(self.entries@[i].0 == k);
                    }
                    if self.has(k) {
                        let i = choose|i: int|
                            0 <= i < self.entries@.len() && (#[trigger] self.entries@[i]).0 == k;
                        assert(self.entries@[i].0 == k);
                        assert(before.entries@[i].0 == k);
                    }
                    assert(self.entries@[p as int].0 == key);
                }
                assert forall|k: K| self@.contains_key(k) implies #[trigger] self@[k] == before@.insert(key, value)[k] by {
                    let i = choose|i: int|
                        0 <= i < self.entries@.len() && (#[trigger] self.entries@[i]).0 == k;
                    assert(self.entries@[i].0 == k);
                    self.entry_is_viewed(i);
                    if k != key {
                        assert(before.entries@[i].0 == k);
                        before.entry_is_viewed(i);
                    } else {
                        self.entry_is_viewed(p as int);
                    }
                }
                assert(self@ =~= before@.insert(key, value));
            }
        } else {
            self.entries.insert(p, (key, value));
            proof {
                assert(forall|i: int| 0 <= i < p ==> self.entries@[i] == before.entries@[i]);
                assert(forall|i: int|
                    p < i < self.entries@.len() ==> self.entries@[i] == before.entries@[i - 1]);
                if p < before.entries@.len() {
                    assert(key.rank() < before.entries@[p as int].0.rank());
                }
                assert(self.wf());
                assert forall|k: K| self@.contains_key(k) == before@.insert(key, value).contains_key(k) by {
                    if before.has(k) {
                        let i = choose|i: int|
                            0 <= i < before.entries@.len() && (#[trigger] before.entries@[i]).0 == k;
                        assert(before.entries@[i].0 == k);
                        if i < p {
                            assert(self.entries@[i].0 == k);
                        } else {
                            assert(self.entries@[i + 1].0 == k);
                        }
                    }
                    if self.has(k) {
                        let i = choose|i: int|
                            0 <= i < self.entries@.len() && (#[trigger] self.entries@[i]).0 == k;
                        assert(self.entries@[i].0 == k);
                        if i < p {
                            assert(before.entries@[i].0 == k);
                        } else if i > p {
                            assert(before.entries@[i - 1].0 == k);
                        }
                    }
                    assert(self.entries@[p as int].0 == key);
                }
                assert forall|k: K| self@.contains_key(k) implies #[trigger] self@[k] == before@.insert(key, value)[k] by {
                    let i = choose|i: int|
                        0 <= i < self.entries@.len() && (#[trigger] self.entries@[i]).0 == k;
                    assert(self.entries@[i].0 == k);
                    self.entry_is_viewed(i);
                    self.entry_is_viewed(p as int);
                    if i < p {
                        before.entry_is_viewed(i);
                    } else if i > p {
                        before.entry_is_viewed(i - 1);
                    }
                }
                assert(self@ =~= before@.insert(key, value));
            }
        }
    }
}

} // verus!
