//! A small map from string keys to values, kept as a vector of pairs with
//! unique keys. Its view is a `Map` over the keys' character sequences.

use vstd::prelude::*;
use crate::text::str_eq;

verus! {

pub struct StrTable<V> {
    pub entries: Vec<(String, V)>,
}

impl<V> StrTable<V> {
    pub open spec fn has(&self, k: Seq<char>) -> bool {
        exists|i: int| 0 <= i < self.entries@.len() && #[trigger] self.entries@[i].0@ == k
    }

    pub open spec fn index_spec(&self, k: Seq<char>) -> int {
        choose|i: int| 0 <= i < self.entries@.len() && #[trigger] self.entries@[i].0@ == k
    }

    pub open spec fn view(&self) -> Map<Seq<char>, V> {
        Map::new(|k: Seq<char>| self.has(k), |k: Seq<char>| self.entries@[self.index_spec(k)].1)
    }

    /// Keys are unique.
    pub open spec fn wf(&self) -> bool {
        forall|i: int, j: int|
            0 <= i < self.entries@.len() && 0 <= j < self.entries@.len() && i != j
                ==> #[trigger] self.entries@[i].0@ != #[trigger] self.entries@[j].0@
    }

    pub proof fn lemma_at(&self, i: int)
        requires
            self.wf(),
            0 <= i < self.entries@.len(),
        ensures
            self.view().contains_key(self.entries@[i].0@),
            self.view()[self.entries@[i].0@] == self.entries@[i].1,
            self.index_spec(self.entries@[i].0@) == i,
    {
        let k = self.entries@[i].0@;
        assert(self.has(k));
        let j = self.index_spec(k);
        assert(0 <= j < self.entries@.len() && self.entries@[j].0@ == k);
    }

    pub fn new() -> (t: StrTable<V>)
        ensures
            t.wf(),
            t.view() == Map::<Seq<char>, V>::empty(),
            t.entries@.len() == 0,
    {
        let t = StrTable { entries: Vec::new() };
        assert(t.view() =~= Map::<Seq<char>, V>::empty());
        t
    }

    pub fn len(&self) -> (r: usize)
        requires
            self.wf(),
        ensures
            r == self.entries@.len(),
            r == self.view().dom().len(),
    {
        proof { self.lemma_len(); }
        self.entries.len()
    }

    pub proof fn lemma_len(&self)
        requires
            self.wf(),
        ensures
            self.view().dom().finite(),
            self.view().dom().len() == self.entries@.len(),
        decreases self.entries@.len(),
    {
        let n = self.entries@.len();
        let keys = Seq::new(n, |i: int| self.entries@[i].0@);
        assert forall|i: int, j: int| 0 <= i < j < n implies keys[i] != keys[j] by {}
        assert(keys.no_duplicates());
        keys.unique_seq_to_set();
        assert forall|k: Seq<char>| self.view().dom().contains(k) <==> keys.to_set().contains(k) by {
            if self.view().dom().contains(k) {
                let i = self.index_spec(k);
                assert(keys[i] == k);
            }
            if keys.to_set().contains(k) {
                let i = choose|i: int| 0 <= i < n && keys[i] == k;
                assert(self.entries@[i].0@ == k);
            }
        }
        assert(self.view().dom() =~= keys.to_set());
    }

    /// Position of a key.
    pub fn find(&self, k: &str) -> (r: Option<usize>)
        ensures
            match r {
                Some(i) => i < self.entries@.len() && self.entries@[i as int].0@ == k@,
                None => !self.view().contains_key(k@),
            },
    {
        let mut i: usize = 0;
        while i < self.entries.len()
            invariant
                i <= self.entries@.len(),
                forall|j: int| 0 <= j < i ==> self.entries@[j].0@ != k@,
            decreases self.entries@.len() - i,
        {
            if str_eq(self.entries[i].0.as_str(), k) {
                return Some(i);
            }
            i = i + 1;
        }
        None
    }

    pub fn contains_key(&self, k: &str) -> (r: bool)
        ensures
            r == self.view().contains_key(k@),
    {
        self.find(k).is_some()
    }

    pub fn get(&self, k: &str) -> (r: Option<&V>)
        requires
            self.wf(),
        ensures
            match r {
                Some(v) => self.view().contains_key(k@) && *v == self.view()[k@],
                None => !self.view().contains_key(k@),
            },
    {
        match self.find(k) {
            Some(i) => {
                proof { self.lemma_at(i as int); }
                Some(&self.entries[i].1)
            }
            None => None,
        }
    }

    /// Adds a key that is not present yet.
    pub fn push_new(&mut self, k: String, v: V)
        requires
            old(self).wf(),
            !old(self).view().contains_key(k@),
        ensures
            final(self).wf(),
            final(self).view() == old(self).view().insert(k@, v),
            final(self).entries@ == old(self).entries@.push((k, v)),
    {
        let ghost pre = *self;
        let ghost kv = k@;
        self.entries.push((k, v));
        let ghost n = pre.entries@.len() as int;
        assert(self.entries@[n].0@ == kv);
        assert forall|i: int| 0 <= i < n implies #[trigger] pre.entries@[i].0@ != kv by {
            if pre.entries@[i].0@ == kv {
                assert(pre.has(kv));
            }
        }
        assert(self.wf());
        assert forall|a: Seq<char>| self.has(a) <==> (pre.has(a) || a == kv) by {
            if pre.has(a) {
                let j = pre.index_spec(a);
                assert(self.entries@[j].0@ == a);
            }
            if self.has(a) && a != kv {
                let j = self.index_spec(a);
                assert(pre.entries@[j].0@ == a);
            }
        }
        assert forall|a: Seq<char>| #[trigger] self.view().contains_key(a) implies
            self.view()[a] == pre.view().insert(kv, v)[a] by {
            let j = self.index_spec(a);
            self.lemma_at(j);
            if a != kv {
                pre.lemma_at(j);
            }
        }
        assert(self.view() =~= pre.view().insert(kv, v));
    }

    /// Inserts or replaces the value of a key.
    pub fn insert(&mut self, k: &str, v: V)
        requires
            old(self).wf(),
        ensures
            final(self).wf(),
            final(self).view() == old(self).view().insert(k@, v),
    {
        match self.find(k) {
            Some(i) => {
                let ghost pre = *self;
                let key = self.entries[i].0.clone();
                self.entries.set(i, (key, v));
                assert(self.entries@[i as int].0@ == k@);
                assert forall|a: Seq<char>| self.has(a) <==> pre.has(a) by {
                    if pre.has(a) {
                        let j = pre.index_spec(a);
                        assert(self.entries@[j].0@ == a);
                    }
                    if self.has(a) {
                        let j = self.index_spec(a);
                        assert(pre.entries@[j].0@ == a);
                    }
                }
                assert(self.wf());
                assert forall|a: Seq<char>| #[trigger] self.view().contains_key(a) implies
                    self.view()[a] == pre.view().insert(k@, v)[a] by {
                    let j = self.index_spec(a);
                    self.lemma_at(j);
                    if a != k@ {
                        pre.lemma_at(j);
                    }
                }
                assert forall|a: Seq<char>| self.view().contains_key(a)
                    <==> pre.view().insert(k@, v).contains_key(a) by {
                    if a == k@ {
                        pre.lemma_at(i as int);
                    }
                }
                assert(self.view() =~= pre.view().insert(k@, v));
            }
            None => {
                self.push_new(String::from_str(k), v);
            }
        }
    }
}

/// Whether a timestamp is younger than `max_age` at `now` (all in nanoseconds).
pub open spec fn is_recent(stamp: u64, now: u64, max_age: u64) -> bool {
    (now as int - stamp as int) < (max_age as int)
}

pub fn is_recent_exec(stamp: u64, now: u64, max_age: u64) -> (r: bool)
    ensures
        r == is_recent(stamp, now, max_age),
{
    if now >= stamp { now - stamp < max_age } else { true }
}

/// Tables whose values are a timestamp and a signal strength.
impl StrTable<(u64, i16)> {
    /// The entries whose timestamp is younger than `max_age` at `now`.
    pub fn recent_entries(&self, now: u64, max_age: u64) -> (r: StrTable<(u64, i16)>)
        requires
            self.wf(),
        ensures
            r.wf(),
            forall|k: Seq<char>| #[trigger] r.view().contains_key(k)
                == (self.view().contains_key(k) && is_recent(self.view()[k].0, now, max_age)),
            forall|k: Seq<char>| #[trigger] r.view().contains_key(k) ==> r.view()[k] == self.view()[k],
    {
        let mut r: StrTable<(u64, i16)> = StrTable::new();
        let mut i: usize = 0;
        while i < self.entries.len()
            invariant
                i <= self.entries@.len(),
                self.wf(),
                r.wf(),
                forall|k: Seq<char>| #[trigger] r.view().contains_key(k) ==>
                    (exists|j: int| 0 <= j < i && #[trigger] self.entries@[j].0@ == k)
                    && self.view().contains_key(k) && is_recent(self.view()[k].0, now, max_age)
                    && r.view()[k] == self.view()[k],
                forall|j: int| 0 <= j < i && is_recent(#[trigger] self.entries@[j].1.0, now, max_age)
                    ==> r.view().contains_key(self.entries@[j].0@),
            decreases self.entries@.len() - i,
        {
            let (stamp, rssi) = self.entries[i].1;
            proof { self.lemma_at(i as int); }
            if is_recent_exec(stamp, now, max_age) {
                let key = self.entries[i].0.clone();
                assert(!r.view().contains_key(key@)) by {
                    if r.view().contains_key(key@) {
                        let j = choose|j: int| 0 <= j < i && #[trigger] self.entries@[j].0@ == key@;
                        assert(self.entries@[j].0@ == self.entries@[i as int].0@);
                    }
                }
                r.push_new(key, (stamp, rssi));
            }
            i = i + 1;
        }
        assert forall|k: Seq<char>| self.view().contains_key(k) && is_recent(self.view()[k].0, now, max_age)
            implies #[trigger] r.view().contains_key(k) by {
            let j = self.index_spec(k);
            self.lemma_at(j);
        }
        r
    }
}

} // verus!
