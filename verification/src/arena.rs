//! An append-only store of records addressed by identity. Records are never
//! removed; a record is found again by the key it was stored under.

use vstd::prelude::*;
use anchor_lang::prelude::Pubkey;
use crate::keys::same_key;

verus! {

#[derive(Clone, Debug)]
pub struct Arena<T> {
    pub keys: Vec<Pubkey>,
    pub items: Vec<T>,
}

impl<T> Arena<T> {
    /// Every key has its record, and no key occurs twice.
    pub open spec fn wf(&self) -> bool {
        &&& self.keys@.len() == self.items@.len()
        &&& self.keys@.no_duplicates()
    }

    /// The position at which `key` is stored, where it is stored.
    pub open spec fn slot(&self, key: Pubkey) -> int {
        choose|i: int| 0 <= i < self.keys@.len() && self.keys@[i] == key
    }

    /// The store as a map from key to record.
    pub open spec fn view(&self) -> Map<Pubkey, T> {
        Map::new(|k: Pubkey| self.keys@.contains(k), |k: Pubkey| self.items@[self.slot(k)])
    }

    /// In a well-formed store a key sits at one position only.
    pub proof fn lemma_slot(&self, key: Pubkey, i: int)
        requires
            self.wf(),
            0 <= i < self.keys@.len(),
            self.keys@[i] == key,
        ensures
            self.slot(key) == i,
            self@.contains_key(key),
            self@[key] == self.items@[i],
    {
        let c = self.slot(key);
        assert(0 <= c < self.keys@.len() && self.keys@[c] == key);
        assert(self.keys@.contains(key));
    }

    pub fn new() -> (r: Self)
        ensures
            r.wf(),
            r@ == Map::<Pubkey, T>::empty(),
            r.items@.len() == 0,
    {
        let r = Arena { keys: Vec::new(), items: Vec::new() };
        assert(r@ =~= Map::<Pubkey, T>::empty());
        r
    }

    /// The position of `key`, or `None` where the store holds no record for it.
    pub fn find(&self, key: &Pubkey) -> (r: Option<usize>)
        requires
            self.wf(),
        ensures
            r is Some <==> self@.contains_key(*key),
            r is Some ==> r->0 == self.slot(*key) && r->0 < self.items@.len()
                && self.keys@[r->0 as int] == *key,
    {
        let mut i: usize = 0;
        while i < self.keys.len()
            invariant
                self.wf(),
                i <= self.keys@.len(),
                forall|j: int| 0 <= j < i ==> self.keys@[j] != *key,
            decreases self.keys@.len() - i,
        {
            if same_key(&self.keys[i], key) {
                proof {
                    self.lemma_slot(*key, i as int);
                }
                return Some(i);
            }
            i += 1;
        }
        None
    }

    /// The record stored under `key`.
    pub fn get(&self, key: &Pubkey) -> (r: Option<&T>)
        requires
            self.wf(),
        ensures
            r is Some <==> self@.contains_key(*key),
            r is Some ==> *r->0 == self@[*key],
    {
        match self.find(key) {
            Some(i) => Some(&self.items[i]),
            None => None,
        }
    }

    /// Stores `item` under a key that the store does not hold yet.
    pub fn insert(&mut self, key: Pubkey, item: T)
        requires
            old(self).wf(),
            !old(self)@.contains_key(key),
        ensures
            final(self).wf(),
            final(self)@ == old(self)@.insert(key, item),
            final(self).keys@ == old(self).keys@.push(key),
            final(self).items@ == old(self).items@.push(item),
    {
        self.keys.push(key);
        self.items.push(item);
        proof {
            let n = old(self).keys@.len() as int;
            assert(self.keys@.no_duplicates());
            assert forall|k: Pubkey| #[trigger] self@.contains_key(k) == old(self)@.insert(key, item).contains_key(k) by {
                if old(self).keys@.contains(k) {
                    let j = old(self).keys@.index_of(k);
                    assert(self.keys@[j] == k);
                }
                if k == key {
                    assert(self.keys@[n] == k);
                }
            }
            assert forall|k: Pubkey| self@.contains_key(k) implies #[trigger] self@[k] == old(self)@.insert(key, item)[k] by {
                if k == key {
                    self.lemma_slot(k, n);
                } else {
                    let j = self.keys@.index_of(k);
                    assert(j != n);
                    assert(old(self).keys@[j] == k);
                    self.lemma_slot(k, j);
                    old(self).lemma_slot(k, j);
                }
            }
            assert(self@ =~= old(self)@.insert(key, item));
        }
    }

    /// Puts `item` in place of the record at position `slot`.
    pub fn replace(&mut self, slot: usize, item: T)
        requires
            old(self).wf(),
            slot < old(self).items@.len(),
        ensures
            final(self).wf(),
            final(self)@ == old(self)@.insert(old(self).keys@[slot as int], item),
            final(self).keys@ == old(self).keys@,
            final(self).items@ == old(self).items@.update(slot as int, item),
    {
        self.items.set(slot, item);
        proof {
            let key = self.keys@[slot as int];
            assert(self.keys@.contains(key));
            assert forall|k: Pubkey| self@.contains_key(k) implies #[trigger] self@[k] == old(self)@.insert(key, item)[k] by {
                let j = self.keys@.index_of(k);
                self.lemma_slot(k, j);
                old(self).lemma_slot(k, j);
            }
            assert(self@ =~= old(self)@.insert(key, item));
        }
    }
}

} // verus!
