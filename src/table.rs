//! Associative tables keyed by 32-byte digests, with absent keys reading as
//! "not present".
use vstd::prelude::*;
use crate::digest::digest_eq;

verus! {

/// Sum of a sequence of amounts.
pub open spec fn seq_sum(s: Seq<u128>) -> int
    decreases s.len(),
{
    if s.len() == 0 {
        0
    } else {
        seq_sum(s.drop_last()) + s.last()
    }
}

proof fn lemma_sum_push(s: Seq<u128>, v: u128)
    ensures
        seq_sum(s.push(v)) == seq_sum(s) + v,
{
    assert(s.push(v).drop_last() =~= s);
}

proof fn lemma_sum_update(s: Seq<u128>, i: int, v: u128)
    requires
        0 <= i < s.len(),
    ensures
        seq_sum(s.update(i, v)) == seq_sum(s) - s[i] + v,
    decreases s.len(),
{
    if i == s.len() - 1 {
        assert(s.update(i, v).drop_last() =~= s.drop_last());
    } else {
        lemma_sum_update(s.drop_last(), i, v);
        assert(s.update(i, v).drop_last() =~= s.drop_last().update(i, v));
    }
}

/// A map from digests to values, held as two parallel vectors with no
/// repeated key.
pub struct DigestMap<V> {
    pub keys: Vec<[u8; 32]>,
    pub vals: Vec<V>,
}

impl<V> DigestMap<V> {
    pub open spec fn wf(&self) -> bool {
        &&& self.keys.len() == self.vals.len()
        &&& self.keys@.no_duplicates()
    }

    pub open spec fn view(&self) -> Map<[u8; 32], V> {
        Map::new(
            |k: [u8; 32]| self.keys@.contains(k),
            |k: [u8; 32]| self.vals@[self.keys@.index_of(k)],
        )
    }

    pub proof fn lemma_index(&self, i: int)
        requires
            self.wf(),
            0 <= i < self.keys.len(),
        ensures
            self.keys@.index_of(self.keys@[i]) == i,
            self@.contains_key(self.keys@[i]),
            self@[self.keys@[i]] == self.vals@[i],
    {
        assert(self.keys@.contains(self.keys@[i]));
    }

    pub fn new() -> (r: Self)
        ensures
            r.wf(),
            r@ == Map::<[u8; 32], V>::empty(),
            r.keys@ == Seq::<[u8; 32]>::empty(),
            r.vals@ == Seq::<V>::empty(),
    {
        let r = DigestMap { keys: Vec::new(), vals: Vec::new() };
        assert(r@ =~= Map::<[u8; 32], V>::empty());
        r
    }

    /// Position of `k` among the keys, if present.
    pub fn find(&self, k: &[u8; 32]) -> (r: Option<usize>)
        requires
            self.wf(),
        ensures
            match r {
                Some(i) => i < self.keys.len() && self.keys@[i as int] == *k,
                None => !self@.contains_key(*k),
            },
    {
        let mut i: usize = 0;
        while i < self.keys.len()
            invariant
                self.wf(),
                0 <= i <= self.keys.len(),
                forall|j: int| 0 <= j < i ==> self.keys@[j] != *k,
            decreases self.keys.len() - i,
        {
            if digest_eq(&self.keys[i], k) {
                return Some(i);
            }
            i = i + 1;
        }
        None
    }

    pub fn contains(&self, k: &[u8; 32]) -> (r: bool)
        requires
            self.wf(),
        ensures
            r == self@.contains_key(*k),
    {
        match self.find(k) {
            Some(i) => {
                proof { self.lemma_index(i as int); }
                true
            },
            None => false,
        }
    }

    /// Sets the value of `k`, replacing the old one in place or adding a new
    /// entry at the end.
    pub fn insert(&mut self, k: [u8; 32], v: V)
        requires
            old(self).wf(),
        ensures
            final(self).wf(),
            final(self)@ == old(self)@.insert(k, v),
            final(self).vals@ == if old(self)@.contains_key(k) {
                old(self).vals@.update(old(self).keys@.index_of(k), v)
            } else {
                old(self).vals@.push(v)
            },
    {
        match self.find(&k) {
            Some(i) => {
                proof { self.lemma_index(i as int); }
                self.vals.set(i, v);
                proof {
                    assert forall|j: int| 0 <= j < self.keys.len() implies
                        self.keys@.index_of(self.keys@[j]) == j by {
                        self.lemma_index(j);
                    }
                }
                assert(self@ =~= old(self)@.insert(k, v));
            },
            None => {
                proof {
                    assert forall|j: int| 0 <= j < self.keys.len() implies
                        self.keys@.index_of(self.keys@[j]) == j by {
                        self.lemma_index(j);
                    }
                }
                self.keys.push(k);
                self.vals.push(v);
                proof {
                    assert(self.keys@ == old(self).keys@.push(k));
                    assert(self.keys@[self.keys.len() - 1] == k);
                    assert(self.keys@.no_duplicates());
                    assert forall|x: [u8; 32]| self.keys@.contains(x) implies
                        old(self).keys@.contains(x) || x == k by {
                        let j = choose|j: int| 0 <= j < self.keys.len() && self.keys@[j] == x;
                        if j < old(self).keys.len() {
                            assert(old(self).keys@[j] == x);
                        }
                    }
                    assert forall|x: [u8; 32]| old(self).keys@.contains(x) implies
                        self.keys@.contains(x) by {
                        let j = choose|j: int| 0 <= j < old(self).keys.len() && old(self).keys@[j] == x;
                        assert(self.keys@[j] == x);
                    }
                    assert forall|j: int| 0 <= j < self.keys.len() implies
                        self.keys@.index_of(self.keys@[j]) == j by {
                        self.lemma_index(j);
                    }
                }
                assert(self@ =~= old(self)@.insert(k, v));
            },
        }
    }
}

impl<V> DigestMap<V> {
    /// Drops the entry of `k`, if there is one.
    pub fn remove(&mut self, k: &[u8; 32])
        requires
            old(self).wf(),
        ensures
            final(self).wf(),
            final(self)@ == old(self)@.remove(*k),
    {
        match self.find(k) {
            Some(i) => {
                let ghost ok = old(self).keys@;
                self.keys.remove(i);
                self.vals.remove(i);
                proof {
                    assert(self.keys@ == ok.remove(i as int));
                    assert forall|a: int, b: int|
                        0 <= a < self.keys.len() && 0 <= b < self.keys.len() && a != b implies
                        self.keys@[a] != self.keys@[b] by {
                        let a0 = if a < i { a } else { a + 1 };
                        let b0 = if b < i { b } else { b + 1 };
                        assert(ok[a0] != ok[b0]);
                    }
                    assert forall|x: [u8; 32]| #[trigger] self.keys@.contains(x) <==>
                        (old(self)@.contains_key(x) && x != *k) by {
                        if self.keys@.contains(x) {
                            let a = choose|a: int| 0 <= a < self.keys.len() && self.keys@[a] == x;
                            let a0 = if a < i { a } else { a + 1 };
                            assert(ok[a0] == x);
                            assert(a0 != i);
                        }
                        if old(self)@.contains_key(x) && x != *k {
                            let a0 = choose|a: int| 0 <= a < ok.len() && ok[a] == x;
                            assert(a0 != i);
                            let a = if a0 < i { a0 } else { a0 - 1 };
                            assert(self.keys@[a] == x);
                        }
                    }
                    assert forall|x: [u8; 32]| #[trigger] self.keys@.contains(x) implies
                        self@[x] == old(self)@[x] by {
                        let a = self.keys@.index_of(x);
                        let a0 = if a < i { a } else { a + 1 };
                        assert(ok[a0] == x);
                        old(self).lemma_index(a0);
                    }
                }
                assert(self@ =~= old(self)@.remove(*k));
            },
            None => {
                assert(self@ =~= old(self)@.remove(*k));
            },
        }
    }
}

impl<V: Copy> DigestMap<V> {
    pub fn get(&self, k: &[u8; 32]) -> (r: Option<V>)
        requires
            self.wf(),
        ensures
            r == if self@.contains_key(*k) { Some(self@[*k]) } else { None::<V> },
    {
        match self.find(k) {
            Some(i) => {
                proof { self.lemma_index(i as int); }
                Some(self.vals[i])
            },
            None => None,
        }
    }
}

impl DigestMap<u128> {
    /// Sum of all the amounts held.
    pub open spec fn total(&self) -> int {
        seq_sum(self.vals@)
    }

    /// The amount of `k`, zero when absent.
    pub open spec fn amount(&self, k: [u8; 32]) -> u128 {
        if self@.contains_key(k) { self@[k] } else { 0 }
    }

    pub proof fn lemma_insert_total(old_map: &Self, new_map: &Self, k: [u8; 32], v: u128)
        requires
            old_map.wf(),
            new_map.vals@ == if old_map@.contains_key(k) {
                old_map.vals@.update(old_map.keys@.index_of(k), v)
            } else {
                old_map.vals@.push(v)
            },
        ensures
            new_map.total() == old_map.total() - old_map.amount(k) + v,
    {
        if old_map@.contains_key(k) {
            let i = old_map.keys@.index_of(k);
            lemma_sum_update(old_map.vals@, i, v);
        } else {
            lemma_sum_push(old_map.vals@, v);
        }
    }
}

} // verus!
