//! A small string-keyed table with map semantics: the backing of the
//! document store and of the parse cache. Keys are unique; lookup,
//! upsert and removal are linear scans, which keeps every operation a
//! plain loop over a vector.

use vstd::prelude::*;

verus! {

struct Slot<V> {
    key: String,
    value: V,
}

/// A table from string keys to values, with each key held once.
pub struct Table<V> {
    slots: Vec<Slot<V>>,
}

/// The value stored under `key`: the first slot that carries it.
spec fn spec_get<V>(slots: Seq<Slot<V>>, key: Seq<char>) -> Option<V>
    decreases slots.len(),
{
    if slots.len() == 0 {
        None
    } else if slots[0].key@ == key {
        Some(slots[0].value)
    } else {
        spec_get(slots.drop_first(), key)
    }
}

proof fn lemma_spec_get_skip<V>(slots: Seq<Slot<V>>, key: Seq<char>, i: int)
    requires
        0 <= i <= slots.len(),
        forall|j: int| 0 <= j < i ==> slots[j].key@ != key,
    ensures
        spec_get(slots, key) == spec_get(slots.skip(i), key),
    decreases i,
{
    if i > 0 {
        assert(slots.skip(0) =~= slots);
        let rest = slots.drop_first();
        assert(slots.skip(i) =~= rest.skip(i - 1));
        assert(forall|j: int| 0 <= j < i - 1 ==> rest[j].key@ != key);
        lemma_spec_get_skip(rest, key, i - 1);
    } else {
        assert(slots.skip(0) =~= slots);
    }
}

impl<V> Table<V> {
    /// What the table holds, as a map from key to value.
    pub closed spec fn view(&self) -> Map<Seq<char>, V> {
        Map::new(
            |k: Seq<char>| spec_get(self.slots@, k) is Some,
            |k: Seq<char>| spec_get(self.slots@, k)->Some_0,
        )
    }

    /// Keys are pairwise distinct.
    pub closed spec fn wf(&self) -> bool {
        forall|i: int, j: int|
            0 <= i < j < self.slots@.len() ==> self.slots@[i].key@ != self.slots@[j].key@
    }

    /// The number of entries held.
    pub closed spec fn spec_len(&self) -> nat {
        self.slots@.len()
    }

    /// An empty table.
    pub fn new() -> (r: Table<V>)
        ensures
            r.wf(),
            r@ == Map::<Seq<char>, V>::empty(),
            r.spec_len() == 0,
    {
        let r = Table { slots: Vec::new() };
        proof {
            assert(r@ =~= Map::<Seq<char>, V>::empty());
        }
        r
    }

    /// The number of entries held.
    pub fn len(&self) -> (r: usize)
        ensures
            r == self.spec_len(),
    {
        self.slots.len()
    }

    /// Looks the key up.
    #[verifier::loop_isolation(false)]
    pub fn get(&self, key: &String) -> (r: Option<&V>)
        ensures
            match r {
                Some(v) => self@.contains_key(key@) && self@[key@] == *v,
                None => !self@.contains_key(key@),
            },
    {
        let mut i: usize = 0;
        while i < self.slots.len()
            invariant
                0 <= i <= self.slots@.len(),
                forall|j: int| 0 <= j < i ==> self.slots@[j].key@ != key@,
            decreases self.slots@.len() - i,
        {
            if self.slots[i].key == *key {
                proof {
                    lemma_spec_get_skip(self.slots@, key@, i as int);
                    assert(self.slots@.skip(i as int)[0] == self.slots@[i as int]);
                    assert(spec_get(self.slots@, key@) == Some(self.slots@[i as int].value));
                }
                return Some(&self.slots[i].value);
            }
            i = i + 1;
        }
        proof {
            lemma_spec_get_skip(self.slots@, key@, self.slots@.len() as int);
            assert(self.slots@.skip(self.slots@.len() as int) =~= Seq::<Slot<V>>::empty());
        }
        None
    }

    /// Stores `value` under `key`, replacing what the key held.
    #[verifier::loop_isolation(false)]
    pub fn upsert(&mut self, key: &String, value: V)
        requires
            old(self).wf(),
        ensures
            final(self).wf(),
            final(self)@ == old(self)@.insert(key@, value),
            final(self).spec_len() == if old(self)@.contains_key(key@) {
                old(self).spec_len()
            } else {
                old(self).spec_len() + 1
            },
    {
        let ghost oldslots = self.slots@;
        let ghost val = value;
        let n = self.slots.len();
        let mut i: usize = 0;
        while i < n
            invariant
                0 <= i <= n == self.slots@.len(),
                self.slots@ == oldslots,
                forall|j: int| 0 <= j < i ==> self.slots@[j].key@ != key@,
            decreases n - i,
        {
            if self.slots[i].key == *key {
                self.slots[i].value = value;
                proof {
                    let newslots = self.slots@;
                    assert(newslots =~= oldslots.update(i as int, newslots[i as int]));
                    assert(newslots[i as int].key@ == key@);
                    assert(newslots[i as int].value == val);
                    lemma_get_after_update(oldslots, newslots, i as int, key@);
                    assert(self@ =~= old(self)@.insert(key@, val));
                    lemma_spec_get_skip(oldslots, key@, i as int);
                    assert(oldslots.skip(i as int)[0] == oldslots[i as int]);
                    assert(old(self)@.contains_key(key@));
                }
                return;
            }
            i = i + 1;
        }
        proof {
            lemma_spec_get_skip(oldslots, key@, oldslots.len() as int);
            assert(oldslots.skip(oldslots.len() as int) =~= Seq::<Slot<V>>::empty());
            assert(!old(self)@.contains_key(key@));
        }
        self.slots.push(Slot { key: key.clone(), value });
        proof {
            let newslots = self.slots@;
            lemma_get_after_push(oldslots, newslots[newslots.len() - 1], key@);
            assert(self@ =~= old(self)@.insert(key@, val));
        }
    }

    /// Removes the key and what it held, if present.
    #[verifier::loop_isolation(false)]
    pub fn remove_key(&mut self, key: &String)
        requires
            old(self).wf(),
        ensures
            final(self).wf(),
            final(self)@ == old(self)@.remove(key@),
            final(self).spec_len() <= old(self).spec_len(),
    {
        let ghost oldslots = self.slots@;
        let mut i: usize = 0;
        while i < self.slots.len()
            invariant
                0 <= i <= self.slots@.len(),
                self.slots@ == oldslots,
                forall|j: int| 0 <= j < i ==> self.slots@[j].key@ != key@,
            decreases self.slots@.len() - i,
        {
            if self.slots[i].key == *key {
                self.slots.remove(i);
                proof {
                    lemma_get_after_remove(oldslots, self.slots@, i as int, key@);
                    assert(self@ =~= old(self)@.remove(key@));
                }
                return;
            }
            i = i + 1;
        }
        proof {
            lemma_spec_get_skip(oldslots, key@, oldslots.len() as int);
            assert(oldslots.skip(oldslots.len() as int) =~= Seq::<Slot<V>>::empty());
            assert(!old(self)@.contains_key(key@));
            assert(self@ =~= old(self)@.remove(key@));
        }
    }

    /// Drops every entry.
    pub fn clear(&mut self)
        ensures
            final(self).wf(),
            final(self)@ == Map::<Seq<char>, V>::empty(),
            final(self).spec_len() == 0,
    {
        self.slots.clear();
        proof {
            assert(self@ =~= Map::<Seq<char>, V>::empty());
        }
    }
}

proof fn lemma_get_after_update<V>(
    oldslots: Seq<Slot<V>>,
    newslots: Seq<Slot<V>>,
    i: int,
    key: Seq<char>,
)
    requires
        0 <= i < oldslots.len(),
        newslots == oldslots.update(i, newslots[i]),
        newslots[i].key@ == key,
        oldslots[i].key@ == key,
        forall|j: int| 0 <= j < i ==> oldslots[j].key@ != key,
    ensures
        forall|k: Seq<char>|
            spec_get(newslots, k) == if k == key {
                Some(newslots[i].value)
            } else {
                spec_get(oldslots, k)
            },
    decreases i,
{
    if i == 0 {
        assert forall|k: Seq<char>| true implies spec_get(newslots, k) == (if k == key {
            Some(newslots[0].value)
        } else {
            spec_get(oldslots, k)
        }) by {
            assert(newslots.len() == oldslots.len());
            if k == key {
                assert(newslots[0].key@ == key);
            } else {
                assert(newslots.drop_first() =~= oldslots.drop_first());
                assert(spec_get(newslots, k) == spec_get(newslots.drop_first(), k));
                assert(spec_get(oldslots, k) == spec_get(oldslots.drop_first(), k));
            }
        }
    } else {
        let oldrest = oldslots.drop_first();
        let newrest = newslots.drop_first();
        assert(newrest[i - 1] == newslots[i]);
        assert(newrest =~= oldrest.update(i - 1, newrest[i - 1]));
        assert forall|j: int| 0 <= j < i - 1 implies oldrest[j].key@ != key by {
            assert(oldrest[j] == oldslots[j + 1]);
        }
        assert(oldrest[i - 1] == oldslots[i]);
        lemma_get_after_update(oldrest, newrest, i - 1, key);
        assert forall|k: Seq<char>| true implies spec_get(newslots, k) == (if k == key {
            Some(newslots[i].value)
        } else {
            spec_get(oldslots, k)
        }) by {
            assert(newslots[0] == oldslots[0]);
            assert(oldslots[0].key@ != key);
            if k == oldslots[0].key@ {
            } else {
                assert(spec_get(newslots, k) == spec_get(newrest, k));
                assert(spec_get(oldslots, k) == spec_get(oldrest, k));
                assert(spec_get(newrest, k) == (if k == key {
                    Some(newrest[i - 1].value)
                } else {
                    spec_get(oldrest, k)
                }));
            }
        }
    }
}

proof fn lemma_get_after_push<V>(oldslots: Seq<Slot<V>>, slot: Slot<V>, key: Seq<char>)
    requires
        slot.key@ == key,
        forall|j: int| 0 <= j < oldslots.len() ==> oldslots[j].key@ != key,
    ensures
        forall|k: Seq<char>|
            spec_get(oldslots.push(slot), k) == if k == key {
                Some(slot.value)
            } else {
                spec_get(oldslots, k)
            },
    decreases oldslots.len(),
{
    let pushed = oldslots.push(slot);
    if oldslots.len() == 0 {
        assert forall|k: Seq<char>| true implies spec_get(pushed, k) == (if k == key {
            Some(slot.value)
        } else {
            spec_get(oldslots, k)
        }) by {
            assert(pushed[0] == slot);
            if k != key {
                assert(pushed.drop_first() =~= Seq::<Slot<V>>::empty());
                assert(spec_get(pushed, k) == spec_get(pushed.drop_first(), k));
            }
        }
    } else {
        let oldrest = oldslots.drop_first();
        assert forall|j: int| 0 <= j < oldrest.len() implies oldrest[j].key@ != key by {
            assert(oldrest[j] == oldslots[j + 1]);
        }
        lemma_get_after_push(oldrest, slot, key);
        assert forall|k: Seq<char>| true implies spec_get(pushed, k) == (if k == key {
            Some(slot.value)
        } else {
            spec_get(oldslots, k)
        }) by {
            assert(pushed[0] == oldslots[0]);
            assert(oldslots[0].key@ != key);
            if k == oldslots[0].key@ {
            } else {
                assert(pushed.drop_first() =~= oldrest.push(slot));
                assert(spec_get(pushed, k) == spec_get(oldrest.push(slot), k));
                assert(spec_get(oldslots, k) == spec_get(oldrest, k));
                assert(spec_get(oldrest.push(slot), k) == (if k == key {
                    Some(slot.value)
                } else {
                    spec_get(oldrest, k)
                }));
            }
        }
    }
}

proof fn lemma_get_after_remove<V>(
    oldslots: Seq<Slot<V>>,
    newslots: Seq<Slot<V>>,
    i: int,
    key: Seq<char>,
)
    requires
        0 <= i < oldslots.len(),
        newslots == oldslots.remove(i),
        oldslots[i].key@ == key,
        forall|p: int, q: int|
            0 <= p < q < oldslots.len() ==> oldslots[p].key@ != oldslots[q].key@,
        forall|j: int| 0 <= j < i ==> oldslots[j].key@ != key,
    ensures
        forall|k: Seq<char>|
            spec_get(newslots, k) == if k == key {
                None::<V>
            } else {
                spec_get(oldslots, k)
            },
        forall|p: int, q: int| 0 <= p < q < newslots.len() ==> newslots[p].key@ != newslots[q].key@,
    decreases i,
{
    assert forall|p: int, q: int|
        0 <= p < q < newslots.len() implies newslots[p].key@ != newslots[q].key@ by {
        if q < i {
        } else if p < i {
            assert(newslots[q] == oldslots[q + 1]);
        } else {
            assert(newslots[p] == oldslots[p + 1]);
            assert(newslots[q] == oldslots[q + 1]);
        }
    }
    if i == 0 {
        assert(newslots =~= oldslots.drop_first());
        assert forall|k: Seq<char>| true implies spec_get(newslots, k) == (if k == key {
            None::<V>
        } else {
            spec_get(oldslots, k)
        }) by {
            if k == key {
                assert forall|j: int| 0 <= j < newslots.len() implies newslots[j].key@ != key by {
                    assert(newslots[j] == oldslots[j + 1]);
                    assert(oldslots[0].key@ != oldslots[j + 1].key@);
                }
                lemma_no_key_no_get(newslots, k);
            } else {
                assert(spec_get(oldslots, k) == spec_get(oldslots.drop_first(), k));
            }
        }
    } else {
        let oldrest = oldslots.drop_first();
        let newrest = newslots.drop_first();
        assert(newrest =~= oldrest.remove(i - 1));
        assert forall|p: int, q: int|
            0 <= p < q < oldrest.len() implies oldrest[p].key@ != oldrest[q].key@ by {
            assert(oldrest[p] == oldslots[p + 1]);
            assert(oldrest[q] == oldslots[q + 1]);
        }
        assert forall|j: int| 0 <= j < i - 1 implies oldrest[j].key@ != key by {
            assert(oldrest[j] == oldslots[j + 1]);
        }
        assert(oldrest[i - 1] == oldslots[i]);
        lemma_get_after_remove(oldrest, newrest, i - 1, key);
        assert forall|k: Seq<char>| true implies spec_get(newslots, k) == (if k == key {
            None::<V>
        } else {
            spec_get(oldslots, k)
        }) by {
            assert(newslots[0] == oldslots[0]);
            assert(oldslots[0].key@ != key);
            if k == oldslots[0].key@ {
            } else {
                assert(spec_get(newslots, k) == spec_get(newrest, k));
                assert(spec_get(oldslots, k) == spec_get(oldrest, k));
                assert(spec_get(newrest, k) == (if k == key {
                    None::<V>
                } else {
                    spec_get(oldrest, k)
                }));
            }
        }
    }
}

proof fn lemma_no_key_no_get<V>(slots: Seq<Slot<V>>, key: Seq<char>)
    requires
        forall|j: int| 0 <= j < slots.len() ==> slots[j].key@ != key,
    ensures
        spec_get(slots, key) is None,
    decreases slots.len(),
{
    if slots.len() > 0 {
        lemma_no_key_no_get(slots.drop_first(), key);
    }
}

} // verus!
