//! A map keyed by strings, kept as a vector of entries with distinct keys.
use vstd::prelude::*;

verus! {

/// A map from string keys to values. Entries keep the order in which their
/// keys were first inserted.
#[derive(Debug)]
pub struct KeyMap<T> {
    entries: Vec<(String, T)>,
}

impl<T> KeyMap<T> {
    /// Keys are pairwise distinct.
    pub closed spec fn wf(&self) -> bool {
        forall|i: int, j: int|
            0 <= i < j < self.entries@.len() ==> self.entries@[i].0@ != self.entries@[j].0@
    }

    /// The index of `k`'s entry, if any.
    closed spec fn index_of(&self, k: Seq<char>) -> int {
        choose|i: int| 0 <= i < self.entries@.len() && self.entries@[i].0@ == k
    }
}

impl<T> View for KeyMap<T> {
    type V = Map<Seq<char>, T>;

    closed spec fn view(&self) -> Map<Seq<char>, T> {
        Map::new(
            |k: Seq<char>| exists|i: int| 0 <= i < self.entries@.len() && self.entries@[i].0@ == k,
            |k: Seq<char>| self.entries@[self.index_of(k)].1,
        )
    }
}

impl<T> KeyMap<T> {
    /// An empty map.
    pub fn new() -> (r: KeyMap<T>)
        ensures
            r.wf(),
            r@ == Map::<Seq<char>, T>::empty(),
    {
        let r = KeyMap { entries: Vec::new() };
        assert(r@ =~= Map::<Seq<char>, T>::empty());
        r
    }

    /// The position of `key`'s entry.
    fn find(&self, key: &str) -> (r: Option<usize>)
        requires
            self.wf(),
        ensures
            match r {
                Some(i) => i < self.entries@.len() && self.entries@[i as int].0@ == key@,
                None => !self@.contains_key(key@),
            },
    {
        let k = key.to_owned();
        let mut i: usize = 0;
        while i < self.entries.len()
            invariant
                k@ == key@,
                i <= self.entries@.len(),
                forall|j: int| 0 <= j < i ==> self.entries@[j].0@ != key@,
            decreases self.entries@.len() - i,
        {
            if self.entries[i].0 == k {
                return Some(i);
            }
            i = i + 1;
        }
        None
    }

    /// The entry at a valid position is what the map holds under its key.
    proof fn lemma_entry(&self, i: int)
        requires
            self.wf(),
            0 <= i < self.entries@.len(),
        ensures
            self@.contains_key(self.entries@[i].0@),
            self@[self.entries@[i].0@] == self.entries@[i].1,
    {
        let k = self.entries@[i].0@;
        assert(exists|j: int| 0 <= j < self.entries@.len() && self.entries@[j].0@ == k);
        let j = self.index_of(k);
        assert(j == i);
    }

    /// The value stored under `key`, if any.
    pub fn get(&self, key: &str) -> (r: Option<&T>)
        requires
            self.wf(),
        ensures
            match r {
                Some(v) => self@.contains_key(key@) && *v == self@[key@],
                None => !self@.contains_key(key@),
            },
    {
        match self.find(key) {
            Some(i) => {
                assert(self@.contains_key(key@));
                Some(&self.entries[i].1)
            },
            None => None,
        }
    }

    /// Stores `value` under `key`, returning the value that was there before.
    pub fn insert(&mut self, key: String, value: T) -> (r: Option<T>)
        requires
            old(self).wf(),
        ensures
            final(self).wf(),
            final(self)@ == old(self)@.insert(key@, value),
            r == (if old(self)@.contains_key(key@) {
                Some(old(self)@[key@])
            } else {
                None
            }),
    {
        let ghost k = key@;
        match self.find(key.as_str()) {
            Some(i) => {
                proof { self.lemma_entry(i as int); }
                let mut e = (key, value);
                self.entries.set_and_swap(i, &mut e);
                assert(self.wf());
                assert forall|j: int| 0 <= j < self.entries@.len() implies #[trigger] self.entries@[j] == (
                if j == i {
                    self.entries@[j]
                } else {
                    old(self).entries@[j]
                }) by {}
                assert(self@ =~= old(self)@.insert(k, value)) by {
                    self.lemma_entry(i as int);
                    assert forall|q: Seq<char>| #[trigger] self@.contains_key(q) && q != k implies
                        old(self)@.contains_key(q) && self@[q] == old(self)@[q] by {
                        let j = choose|j: int| 0 <= j < self.entries@.len() && self.entries@[j].0@ == q;
                        self.lemma_entry(j);
                        old(self).lemma_entry(j);
                    }
                    assert forall|q: Seq<char>| #[trigger] old(self)@.contains_key(q) && q != k implies
                        self@.contains_key(q) by {
                        let j = choose|j: int| 0 <= j < old(self).entries@.len() && old(self).entries@[j].0@ == q;
                        self.lemma_entry(j);
                    }
                }
                Some(e.1)
            },
            None => {
                self.entries.push((key, value));
                let ghost n = (self.entries.len() - 1) as int;
                assert(self.wf());
                assert(self@ =~= old(self)@.insert(k, value)) by {
                    self.lemma_entry(n);
                    assert forall|q: Seq<char>| #[trigger] self@.contains_key(q) && q != k implies
                        old(self)@.contains_key(q) && self@[q] == old(self)@[q] by {
                        let j = choose|j: int| 0 <= j < self.entries@.len() && self.entries@[j].0@ == q;
                        self.lemma_entry(j);
                        old(self).lemma_entry(j);
                    }
                    assert forall|q: Seq<char>| #[trigger] old(self)@.contains_key(q) && q != k implies
                        self@.contains_key(q) by {
                        let j = choose|j: int| 0 <= j < old(self).entries@.len() && old(self).entries@[j].0@ == q;
                        self.lemma_entry(j);
                    }
                }
                None
            },
        }
    }

    /// Removes `key`'s entry, returning its value.
    pub fn remove(&mut self, key: &str) -> (r: Option<T>)
        requires
            old(self).wf(),
        ensures
            final(self).wf(),
            final(self)@ == old(self)@.remove(key@),
            r == (if old(self)@.contains_key(key@) {
                Some(old(self)@[key@])
            } else {
                None
            }),
    {
        match self.find(key) {
            Some(i) => {
                proof { self.lemma_entry(i as int); }
                let e = self.entries.remove(i);
                assert(self.wf());
                assert(self@ =~= old(self)@.remove(key@)) by {
                    assert forall|q: Seq<char>| #[trigger] self@.contains_key(q) implies
                        q != key@ && old(self)@.contains_key(q) && self@[q] == old(self)@[q] by {
                        let j = choose|j: int| 0 <= j < self.entries@.len() && self.entries@[j].0@ == q;
                        self.lemma_entry(j);
                        if j < i {
                            old(self).lemma_entry(j);
                        } else {
                            old(self).lemma_entry(j + 1);
                        }
                    }
                    assert forall|q: Seq<char>| #[trigger] old(self)@.contains_key(q) && q != key@ implies
                        self@.contains_key(q) by {
                        let j = choose|j: int| 0 <= j < old(self).entries@.len() && old(self).entries@[j].0@ == q;
                        if j < i {
                            self.lemma_entry(j);
                        } else {
                            self.lemma_entry(j - 1);
                        }
                    }
                }
                Some(e.1)
            },
            None => {
                assert(old(self)@.remove(key@) =~= old(self)@);
                None
            },
        }
    }

    /// Removes every entry.
    pub fn clear(&mut self)
        requires
            old(self).wf(),
        ensures
            final(self).wf(),
            final(self)@ == Map::<Seq<char>, T>::empty(),
    {
        self.entries.clear();
        assert(self@ =~= Map::<Seq<char>, T>::empty());
    }
}

} // verus!
