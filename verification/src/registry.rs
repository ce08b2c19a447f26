//! A small keyed registry: at most one value per textual key.
//!
//! The supervisor keeps one registry of command channels and one of log
//! buffers, both keyed by instance identifier.  The mathematical content of a
//! registry is a finite map from keys to values.
use crate::text::same_text;
use vstd::prelude::*;

verus! {

/// A mapping from textual keys to values that holds each key at most once.
pub struct Registry<V> {
    keys: Vec<String>,
    values: Vec<V>,
}

impl<V> Registry<V> {
    /// Keys and values go in pairs, and no key occurs twice.
    pub closed spec fn wf(&self) -> bool {
        &&& self.keys@.len() == self.values@.len()
        &&& forall|i: int, j: int|
            0 <= i < j < self.keys@.len() ==> self.keys@[i]@ != self.keys@[j]@
    }

    spec fn has(&self, key: Seq<char>) -> bool {
        exists|i: int| 0 <= i < self.keys@.len() && self.keys@[i]@ == key
    }

    spec fn slot(&self, key: Seq<char>) -> int {
        choose|i: int| 0 <= i < self.keys@.len() && self.keys@[i]@ == key
    }

    /// The map that the registry stands for.
    pub closed spec fn view(&self) -> Map<Seq<char>, V> {
        Map::new(|k: Seq<char>| self.has(k), |k: Seq<char>| self.values@[self.slot(k)])
    }

    proof fn lemma_slot(&self, i: int)
        requires
            self.wf(),
            0 <= i < self.keys@.len(),
        ensures
            self.has(self.keys@[i]@),
            self.slot(self.keys@[i]@) == i,
            self@.contains_key(self.keys@[i]@),
            self@[self.keys@[i]@] == self.values@[i],
    {
        let k = self.keys@[i]@;
        assert(self.has(k));
        let j = self.slot(k);
        assert(0 <= j < self.keys@.len() && self.keys@[j]@ == k);
        if j < i {
            assert(self.keys@[j]@ != self.keys@[i]@);
        } else if i < j {
            assert(self.keys@[i]@ != self.keys@[j]@);
        }
    }

    /// A registry without entries.
    pub fn new() -> (r: Self)
        ensures
            r.wf(),
            r@ == Map::<Seq<char>, V>::empty(),
    {
        let r = Registry { keys: Vec::new(), values: Vec::new() };
        assert(r@ =~= Map::<Seq<char>, V>::empty());
        r
    }

    /// The number of entries.
    pub fn len(&self) -> (n: usize)
        requires
            self.wf(),
        ensures
            n == self@.dom().len(),
            self@.dom().finite(),
    {
        proof {
            self.lemma_len(self.keys@.len() as int);
            assert(self.prefix_keys(self.keys@.len() as int) =~= self@.dom()) by {
                assert forall|k: Seq<char>| self@.dom().contains(k) implies self.prefix_keys(
                    self.keys@.len() as int,
                ).contains(k) by {
                    let j = self.slot(k);
                    assert(self.has(k));
                }
            }
        }
        self.keys.len()
    }

    spec fn prefix_keys(&self, n: int) -> Set<Seq<char>> {
        Set::new(|k: Seq<char>| exists|i: int| 0 <= i < n && self.keys@[i]@ == k)
    }

    proof fn lemma_len(&self, n: int)
        requires
            self.wf(),
            0 <= n <= self.keys@.len(),
        ensures
            self.prefix_keys(n).finite(),
            self.prefix_keys(n).len() == n,
        decreases n,
    {
        if n == 0 {
            assert(self.prefix_keys(0) =~= Set::<Seq<char>>::empty());
        } else {
            self.lemma_len(n - 1);
            let k = self.keys@[n - 1]@;
            assert(!self.prefix_keys(n - 1).contains(k)) by {
                if self.prefix_keys(n - 1).contains(k) {
                    let i = choose|i: int| 0 <= i < n - 1 && self.keys@[i]@ == k;
                    assert(self.keys@[i]@ != self.keys@[n - 1]@);
                }
            }
            assert(self.prefix_keys(n) =~= self.prefix_keys(n - 1).insert(k));
        }
    }

    fn position(&self, key: &str) -> (r: Option<usize>)
        requires
            self.wf(),
        ensures
            match r {
                Some(i) => i < self.keys@.len() && self.keys@[i as int]@ == key@,
                None => !self.has(key@),
            },
            r is Some <==> self@.contains_key(key@),
    {
        let mut i: usize = 0;
        while i < self.keys.len()
            invariant
                i <= self.keys@.len(),
                forall|j: int| 0 <= j < i ==> self.keys@[j]@ != key@,
            decreases self.keys@.len() - i,
        {
            if same_text(self.keys[i].as_str(), key) {
                assert(self.has(key@));
                return Some(i);
            }
            i += 1;
        }
        None
    }

    /// Whether `key` has an entry.
    pub fn contains_key(&self, key: &str) -> (r: bool)
        requires
            self.wf(),
        ensures
            r == self@.contains_key(key@),
    {
        self.position(key).is_some()
    }

    /// The value registered under `key`, if any.
    pub fn get(&self, key: &str) -> (r: Option<&V>)
        requires
            self.wf(),
        ensures
            match r {
                Some(v) => self@.contains_key(key@) && *v == self@[key@],
                None => !self@.contains_key(key@),
            },
    {
        match self.position(key) {
            Some(i) => {
                proof {
                    self.lemma_slot(i as int);
                }
                Some(&self.values[i])
            },
            None => None,
        }
    }

    /// Registers `value` under `key`, replacing and returning what was
    /// registered there before.
    pub fn insert(&mut self, key: String, value: V) -> (previous: Option<V>)
        requires
            old(self).wf(),
        ensures
            final(self).wf(),
            final(self)@ == old(self)@.insert(key@, value),
            match previous {
                Some(v) => old(self)@.contains_key(key@) && v == old(self)@[key@],
                None => !old(self)@.contains_key(key@),
            },
    {
        match self.position(key.as_str()) {
            Some(i) => {
                proof {
                    self.lemma_slot(i as int);
                }
                self.values.push(value);
                let previous = self.values.swap_remove(i);
                proof {
                    assert(self.wf());
                    assert forall|k: Seq<char>| self.has(k) == old(self).has(k) by {
                        if self.has(k) {
                            let j = self.slot(k);
                            assert(old(self).keys@[j]@ == k);
                        }
                        if old(self).has(k) {
                            let j = old(self).slot(k);
                            assert(self.keys@[j]@ == k);
                        }
                    }
                    assert forall|k: Seq<char>| self.has(k) implies #[trigger] self@[k] == old(
                        self,
                    )@.insert(key@, value)[k] by {
                        let j = self.slot(k);
                        self.lemma_slot(j);
                        old(self).lemma_slot(j);
                    }
                    assert(self@ =~= old(self)@.insert(key@, value));
                }
                Some(previous)
            },
            None => {
                self.keys.push(key);
                self.values.push(value);
                proof {
                    let n = old(self).keys@.len() as int;
                    assert(self.wf()) by {
                        assert forall|i: int, j: int|
                            0 <= i < j < self.keys@.len() implies self.keys@[i]@
                            != self.keys@[j]@ by {
                            if j == n {
                                assert(old(self).keys@[i]@ != key@);
                            }
                        }
                    }
                    assert forall|k: Seq<char>| self.has(k) == (old(self).has(k) || k == key@) by {
                        if self.has(k) {
                            let j = self.slot(k);
                            if j < n {
                                assert(old(self).keys@[j]@ == k);
                            }
                        }
                        if old(self).has(k) {
                            let j = old(self).slot(k);
                            assert(self.keys@[j]@ == k);
                        }
                        if k == key@ {
                            assert(self.keys@[n]@ == k);
                        }
                    }
                    assert forall|k: Seq<char>| self.has(k) implies #[trigger] self@[k] == old(
                        self,
                    )@.insert(key@, value)[k] by {
                        let j = self.slot(k);
                        self.lemma_slot(j);
                        if j < n {
                            old(self).lemma_slot(j);
                        }
                    }
                    assert(self@ =~= old(self)@.insert(key@, value));
                }
                None
            },
        }
    }

    /// Takes the entry of `key` out of the registry and returns its value.
    pub fn remove(&mut self, key: &str) -> (taken: Option<V>)
        requires
            old(self).wf(),
        ensures
            final(self).wf(),
            final(self)@ == old(self)@.remove(key@),
            match taken {
                Some(v) => old(self)@.contains_key(key@) && v == old(self)@[key@],
                None => !old(self)@.contains_key(key@),
            },
    {
        match self.position(key) {
            Some(i) => {
                proof {
                    self.lemma_slot(i as int);
                }
                let _ = self.keys.swap_remove(i);
                let taken = self.values.swap_remove(i);
                proof {
                    let n = old(self).keys@.len() as int;
                    assert(self.wf()) by {
                        assert forall|a: int, b: int|
                            0 <= a < b < self.keys@.len() implies self.keys@[a]@
                            != self.keys@[b]@ by {
                            let a0 = if a == i { n - 1 } else { a };
                            let b0 = if b == i { n - 1 } else { b };
                            if a0 < b0 {
                                assert(old(self).keys@[a0]@ != old(self).keys@[b0]@);
                            } else {
                                assert(old(self).keys@[b0]@ != old(self).keys@[a0]@);
                            }
                        }
                    }
                    assert forall|k: Seq<char>| self.has(k) == (old(self).has(k) && k != key@) by {
                        if self.has(k) {
                            let j = self.slot(k);
                            let j0 = if j == i { n - 1 } else { j };
                            assert(old(self).keys@[j0]@ == k);
                            if j0 < i {
                                assert(old(self).keys@[j0]@ != old(self).keys@[i as int]@);
                            } else {
                                assert(old(self).keys@[i as int]@ != old(self).keys@[j0]@);
                            }
                        }
                        if old(self).has(k) && k != key@ {
                            let j = old(self).slot(k);
                            let j1 = if j == n - 1 { i as int } else { j };
                            assert(self.keys@[j1]@ == k);
                        }
                    }
                    assert forall|k: Seq<char>| self.has(k) implies #[trigger] self@[k] == old(
                        self,
                    )@.remove(key@)[k] by {
                        let j = self.slot(k);
                        self.lemma_slot(j);
                        let j0 = if j == i { n - 1 } else { j };
                        old(self).lemma_slot(j0);
                    }
                    assert(self@ =~= old(self)@.remove(key@));
                }
                Some(taken)
            },
            None => {
                assert(self@ =~= old(self)@.remove(key@));
                None
            },
        }
    }
}

impl Registry<Vec<String>> {
    /// Appends `line` to the list registered under `key`.  Returns whether a
    /// list was registered there; if none was, nothing changes.
    pub fn append(&mut self, key: &str, line: String) -> (appended: bool)
        requires
            old(self).wf(),
        ensures
            final(self).wf(),
            appended == old(self)@.contains_key(key@),
            appended ==> final(self)@.dom() == old(self)@.dom() && final(self)@[key@]@ == old(
                self,
            )@[key@]@.push(line) && forall|k: Seq<char>|
                k != key@ && old(self)@.contains_key(k) ==> final(self)@[k] == old(self)@[k],
            !appended ==> final(self)@ == old(self)@,
    {
        match self.position(key) {
            Some(i) => {
                proof {
                    self.lemma_slot(i as int);
                }
                self.values[i].push(line);
                proof {
                    assert(self.wf());
                    assert forall|k: Seq<char>| self.has(k) == old(self).has(k) by {
                        if self.has(k) {
                            let j = self.slot(k);
                            assert(old(self).keys@[j]@ == k);
                        }
                        if old(self).has(k) {
                            let j = old(self).slot(k);
                            assert(self.keys@[j]@ == k);
                        }
                    }
                    assert(self@.dom() =~= old(self)@.dom());
                    self.lemma_slot(i as int);
                    assert forall|k: Seq<char>|
                        k != key@ && old(self)@.contains_key(k) implies self@[k] == old(
                        self,
                    )@[k] by {
                        let j = old(self).slot(k);
                        old(self).lemma_slot(j);
                        self.lemma_slot(j);
                    }
                }
                true
            },
            None => false,
        }
    }
}

} // verus!
