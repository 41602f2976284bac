//! A small keyed table held in memory: at most one row under each key.

use vstd::prelude::*;

verus! {

/// The key of a row: a pair of integers. Tables with a single-column key use
/// 0 for the second one.
pub type Key = (i64, i64);

/// Rows under pairwise different keys.
pub struct Table<R> {
    keys: Vec<Key>,
    rows: Vec<R>,
}

impl<R> Table<R> {
    /// Every row has its key, and no key occurs twice.
    pub closed spec fn wf(&self) -> bool {
        &&& self.keys.len() == self.rows.len()
        &&& forall|i: int, j: int|
            0 <= i < j < self.keys.len() ==> self.keys[i] != self.keys[j]
    }

    spec fn holds_at(&self, k: Key, i: int) -> bool {
        0 <= i < self.keys.len() && self.keys[i] == k
    }

    /// The rows of the table by their keys.
    pub closed spec fn entries(&self) -> Map<Key, R> {
        Map::new(
            |k: Key| exists|i: int| self.holds_at(k, i),
            |k: Key| self.rows[choose|i: int| self.holds_at(k, i)],
        )
    }

    proof fn lemma_at(&self, i: int)
        requires
            self.wf(),
            0 <= i < self.keys.len(),
        ensures
            self.entries().contains_key(self.keys[i]),
            self.entries()[self.keys[i]] == self.rows[i],
    {
        let k = self.keys[i];
        assert(self.holds_at(k, i));
        let j = choose|j: int| self.holds_at(k, j);
        assert(self.holds_at(k, j));
        assert(i == j);
    }

    proof fn lemma_absent(&self, k: Key)
        requires
            forall|i: int| 0 <= i < self.keys.len() ==> self.keys[i] != k,
        ensures
            !self.entries().contains_key(k),
    {
        assert forall|i: int| !self.holds_at(k, i) by {}
    }

    proof fn lemma_present(&self, k: Key) -> (i: int)
        requires
            self.entries().contains_key(k),
        ensures
            0 <= i < self.keys.len(),
            self.keys[i] == k,
    {
        let i = choose|i: int| self.holds_at(k, i);
        assert(self.holds_at(k, i));
        i
    }

    /// A table without rows.
    pub fn new() -> (t: Table<R>)
        ensures
            t.wf(),
            t.entries() == Map::<Key, R>::empty(),
    {
        let t = Table { keys: Vec::new(), rows: Vec::new() };
        proof {
            assert forall|k: Key| !t.entries().contains_key(k) by {
                t.lemma_absent(k);
            }
            assert(t.entries() =~= Map::<Key, R>::empty());
        }
        t
    }

    fn position(&self, k: Key) -> (at: Option<usize>)
        requires
            self.wf(),
        ensures
            match at {
                Some(i) => i < self.keys.len() && self.keys[i as int] == k
                    && self.entries().contains_key(k) && self.entries()[k] == self.rows[i as int],
                None => !self.entries().contains_key(k),
            },
    {
        let mut i: usize = 0;
        while i < self.keys.len()
            invariant
                self.wf(),
                i <= self.keys.len(),
                forall|j: int| 0 <= j < i ==> self.keys[j] != k,
            decreases self.keys.len() - i,
        {
            if self.keys[i].0 == k.0 && self.keys[i].1 == k.1 {
                proof {
                    self.lemma_at(i as int);
                }
                return Some(i);
            }
            i += 1;
        }
        proof {
            self.lemma_absent(k);
        }
        None
    }

    /// Whether a row is stored under `k`.
    pub fn contains(&self, k: Key) -> (found: bool)
        requires
            self.wf(),
        ensures
            found == self.entries().contains_key(k),
    {
        self.position(k).is_some()
    }

    /// The row under `k`, if there is one.
    pub fn get(&self, k: Key) -> (row: Option<&R>)
        requires
            self.wf(),
        ensures
            match row {
                Some(r) => self.entries().contains_key(k) && *r == self.entries()[k],
                None => !self.entries().contains_key(k),
            },
    {
        match self.position(k) {
            Some(i) => Some(&self.rows[i]),
            None => None,
        }
    }

    /// Stores `row` under the new key `k`.
    pub fn insert(&mut self, k: Key, row: R)
        requires
            old(self).wf(),
            !old(self).entries().contains_key(k),
        ensures
            final(self).wf(),
            final(self).entries() == old(self).entries().insert(k, row),
    {
        proof {
            assert forall|i: int| 0 <= i < self.keys.len() implies self.keys[i] != k by {
                self.lemma_at(i);
            }
        }
        let ghost before = *self;
        self.keys.push(k);
        self.rows.push(row);
        proof {
            let after = *self;
            let n = before.keys.len() as int;
            assert(after.wf());
            assert forall|q: Key|
                after.entries().contains_key(q) <==> #[trigger] before.entries().insert(
                    k,
                    row,
                ).contains_key(q) by {
                if after.entries().contains_key(q) {
                    let i = after.lemma_present(q);
                    if i < n {
                        before.lemma_at(i);
                    }
                }
                if before.entries().contains_key(q) {
                    let i = before.lemma_present(q);
                    after.lemma_at(i);
                }
                if q == k {
                    after.lemma_at(n);
                }
            }
            assert forall|q: Key| #[trigger] after.entries().contains_key(q) implies after.entries()[q]
                == before.entries().insert(k, row)[q] by {
                let i = after.lemma_present(q);
                after.lemma_at(i);
                if i < n {
                    before.lemma_at(i);
                }
            }
            assert(after.entries() =~= before.entries().insert(k, row));
        }
    }

    /// Puts `row` in place of the row under `k`, if there is one, and says
    /// whether there was.
    pub fn replace(&mut self, k: Key, row: R) -> (found: bool)
        requires
            old(self).wf(),
        ensures
            final(self).wf(),
            found == old(self).entries().contains_key(k),
            final(self).entries() == (if found {
                old(self).entries().insert(k, row)
            } else {
                old(self).entries()
            }),
    {
        let ghost before = *self;
        match self.position(k) {
            None => false,
            Some(at) => {
                self.rows[at] = row;
                proof {
                    let after = *self;
                    assert(after.keys == before.keys);
                    assert(after.wf());
                    assert forall|q: Key|
                        after.entries().contains_key(q) <==> #[trigger] before.entries().insert(
                            k,
                            row,
                        ).contains_key(q) by {
                        if after.entries().contains_key(q) {
                            let i = after.lemma_present(q);
                            before.lemma_at(i);
                        }
                        if before.entries().contains_key(q) {
                            let i = before.lemma_present(q);
                            after.lemma_at(i);
                        }
                        if q == k {
                            after.lemma_at(at as int);
                        }
                    }
                    assert forall|q: Key| #[trigger]
                        after.entries().contains_key(q) implies after.entries()[q]
                        == before.entries().insert(k, row)[q] by {
                        let i = after.lemma_present(q);
                        after.lemma_at(i);
                        before.lemma_at(i);
                        before.lemma_at(at as int);
                    }
                    assert(after.entries() =~= before.entries().insert(k, row));
                }
                true
            },
        }
    }

    fn remove_at(&mut self, at: usize)
        requires
            old(self).wf(),
            at < old(self).keys.len(),
        ensures
            final(self).wf(),
            final(self).keys@ == old(self).keys@.remove(at as int),
            final(self).entries() == old(self).entries().remove(old(self).keys[at as int]),
    {
        let ghost before = *self;
        let ghost k = self.keys[at as int];
        self.keys.remove(at);
        self.rows.remove(at);
        proof {
            let after = *self;
            assert(after.wf()) by {
                assert forall|i: int, j: int| 0 <= i < j < after.keys.len() implies after.keys[i]
                    != after.keys[j] by {
                    let bi = if i < at { i } else { i + 1 };
                    let bj = if j < at { j } else { j + 1 };
                    assert(after.keys[i] == before.keys[bi]);
                    assert(after.keys[j] == before.keys[bj]);
                }
            }
            assert forall|i: int| 0 <= i < after.keys.len() implies after.keys[i] != k by {
                let bi = if i < at { i } else { i + 1 };
                assert(after.keys[i] == before.keys[bi]);
            }
            after.lemma_absent(k);
            assert forall|q: Key|
                after.entries().contains_key(q) <==> #[trigger] before.entries().remove(
                    k,
                ).contains_key(q) by {
                if after.entries().contains_key(q) {
                    let i = after.lemma_present(q);
                    let bi = if i < at { i } else { i + 1 };
                    assert(after.keys[i] == before.keys[bi]);
                    before.lemma_at(bi);
                }
                if before.entries().contains_key(q) && q != k {
                    let bi = before.lemma_present(q);
                    let i = if bi < at { bi } else { bi - 1 };
                    assert(after.keys[i] == before.keys[bi]);
                    after.lemma_at(i);
                }
            }
            assert forall|q: Key| #[trigger] after.entries().contains_key(q) implies after.entries()[q]
                == before.entries().remove(k)[q] by {
                let i = after.lemma_present(q);
                let bi = if i < at { i } else { i + 1 };
                assert(after.keys[i] == before.keys[bi]);
                assert(after.rows[i] == before.rows[bi]);
                after.lemma_at(i);
                before.lemma_at(bi);
            }
            assert(after.entries() =~= before.entries().remove(k));
        }
    }

    /// Removes the row under `k`, if there is one, and says whether there
    /// was.
    pub fn remove(&mut self, k: Key) -> (found: bool)
        requires
            old(self).wf(),
        ensures
            final(self).wf(),
            found == old(self).entries().contains_key(k),
            final(self).entries() == old(self).entries().remove(k),
    {
        match self.position(k) {
            None => {
                assert(self.entries().remove(k) =~= self.entries());
                false
            },
            Some(at) => {
                self.remove_at(at);
                true
            },
        }
    }

    /// Removes every row whose key has `part` as its first part or, where
    /// `by_first` is false, as its second part.
    pub fn remove_where(&mut self, part: i64, by_first: bool)
        requires
            old(self).wf(),
        ensures
            final(self).wf(),
            final(self).entries() == old(self).entries().remove_keys(
                Set::new(|k: Key| key_has(k, part, by_first)),
            ),
    {
        let ghost before = *self;
        let mut i: usize = 0;
        while i < self.keys.len()
            invariant
                self.wf(),
                i <= self.keys.len(),
                forall|j: int| 0 <= j < i ==> !key_has(#[trigger] self.keys[j], part, by_first),
                forall|q: Key| #[trigger]
                    self.entries().contains_key(q) ==> before.entries().contains_key(q)
                        && self.entries()[q] == before.entries()[q],
                forall|q: Key|
                    before.entries().contains_key(q) && !key_has(q, part, by_first)
                        ==> #[trigger] self.entries().contains_key(q),
            decreases self.keys.len() - i,
        {
            let k = self.keys[i];
            let hit = if by_first {
                k.0 == part
            } else {
                k.1 == part
            };
            if hit {
                self.remove_at(i);
            } else {
                i += 1;
            }
        }
        proof {
            let after = *self;
            let gone = Set::new(|k: Key| key_has(k, part, by_first));
            assert forall|q: Key|
                after.entries().contains_key(q) <==> #[trigger] before.entries().remove_keys(
                    gone,
                ).contains_key(q) by {
                if after.entries().contains_key(q) {
                    let j = after.lemma_present(q);
                    assert(!key_has(after.keys[j], part, by_first));
                }
            }
            assert(after.entries() =~= before.entries().remove_keys(gone));
        }
    }
}

/// Whether `part` is the first part of the key or, where `by_first` is
/// false, the second.
pub open spec fn key_has(k: Key, part: i64, by_first: bool) -> bool {
    if by_first {
        k.0 == part
    } else {
        k.1 == part
    }
}

} // verus!
