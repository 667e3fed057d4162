//! A keyed store: entries with unique string keys, kept in insertion order.

use vstd::prelude::*;
use vstd::string::StrSliceExecFns;

verus! {

/// Entries `(key, value)` with unique keys, in the order they were first inserted.
pub struct KeyedStore<V> {
    pub entries: Vec<(String, V)>,
}

impl<V> KeyedStore<V> {
    /// The keys, in order.
    pub open spec fn keys(&self) -> Seq<Seq<char>> {
        self.entries@.map_values(|e: (String, V)| e.0@)
    }

    /// No key occurs twice.
    pub open spec fn wf(&self) -> bool {
        forall|i: int, j: int|
            0 <= i < self.entries@.len() && 0 <= j < self.entries@.len() && i != j
                ==> #[trigger] self.entries@[i].0@ != #[trigger] self.entries@[j].0@
    }

    /// The position of key `k`, if present.
    pub open spec fn has_at(&self, k: Seq<char>, i: int) -> bool {
        0 <= i < self.entries@.len() && self.entries@[i].0@ == k
    }

    /// The store as a map from key to value.
    pub open spec fn view(&self) -> Map<Seq<char>, V> {
        Map::new(
            |k: Seq<char>| exists|i: int| self.has_at(k, i),
            |k: Seq<char>| self.entries@[choose|i: int| self.has_at(k, i)].1,
        )
    }

    pub fn new() -> (r: Self)
        ensures
            r.wf(),
            r.entries@.len() == 0,
            r.view() == Map::<Seq<char>, V>::empty(),
    {
        let r = KeyedStore { entries: Vec::new() };
        assert(r.view() =~= Map::<Seq<char>, V>::empty());
        r
    }

    /// The value at position `i` is the map's value for its key.
    pub proof fn lemma_view_at(&self, i: int)
        requires
            self.wf(),
            0 <= i < self.entries@.len(),
        ensures
            self.view().contains_key(self.entries@[i].0@),
            self.view()[self.entries@[i].0@] == self.entries@[i].1,
    {
        let k = self.entries@[i].0@;
        assert(self.has_at(k, i));
        let j = choose|j: int| self.has_at(k, j);
        assert(self.has_at(k, j));
    }

    pub fn len(&self) -> (r: usize)
        ensures
            r == self.entries@.len(),
    {
        self.entries.len()
    }

    /// The position of key `k`.
    pub fn find(&self, k: &str) -> (r: Option<usize>)
        requires
            self.wf(),
        ensures
            r is None ==> !self.view().contains_key(k@),
            r matches Some(i) ==> self.has_at(k@, i as int) && self.view().contains_key(k@)
                && self.view()[k@] == self.entries@[i as int].1,
    {
        let mut i: usize = 0;
        while i < self.entries.len()
            invariant
                self.wf(),
                i <= self.entries@.len(),
                forall|j: int| 0 <= j < i ==> self.entries@[j].0@ != k@,
            decreases self.entries@.len() - i,
        {
            if str_eq(self.entries[i].0.as_str(), k) {
                proof {
                    self.lemma_view_at(i as int);
                }
                return Some(i);
            }
            i = i + 1;
        }
        None
    }

    /// The value under key `k`.
    pub fn get(&self, k: &str) -> (r: Option<&V>)
        requires
            self.wf(),
        ensures
            r is None <==> !self.view().contains_key(k@),
            r matches Some(v) ==> self.view()[k@] == *v,
    {
        match self.find(k) {
            Some(i) => Some(&self.entries[i].1),
            None => None,
        }
    }

    pub fn contains(&self, k: &str) -> (r: bool)
        requires
            self.wf(),
        ensures
            r == self.view().contains_key(k@),
    {
        self.find(k).is_some()
    }

    /// Puts `v` under `k`: in place where `k` is present, else at the end.
    pub fn insert(&mut self, k: String, v: V)
        requires
            old(self).wf(),
        ensures
            final(self).wf(),
            final(self).view() == old(self).view().insert(k@, v),
            old(self).view().contains_key(k@) ==> final(self).keys() == old(self).keys(),
            !old(self).view().contains_key(k@) ==> final(self).keys() == old(self).keys().push(
                k@,
            ),
    {
        match self.find(k.as_str()) {
            Some(i) => {
                self.entries.set(i, (k, v));
                proof {
                    assert(final(self).keys() =~= old(self).keys());
                    assert forall|a: int, b: int|
                        0 <= a < self.entries@.len() && 0 <= b < self.entries@.len() && a != b
                            implies #[trigger] self.entries@[a].0@
                        != #[trigger] self.entries@[b].0@ by {
                        assert(self.entries@[a].0@ == old(self).entries@[a].0@);
                        assert(self.entries@[b].0@ == old(self).entries@[b].0@);
                    }
                    self.lemma_view_equal_insert(old(self), k@, v, i as int);
                }
            },
            None => {
                self.entries.push((k, v));
                proof {
                    assert(final(self).keys() =~= old(self).keys().push(k@));
                    let n = old(self).entries@.len() as int;
                    assert forall|a: int, b: int|
                        0 <= a < self.entries@.len() && 0 <= b < self.entries@.len() && a != b
                            implies #[trigger] self.entries@[a].0@
                        != #[trigger] self.entries@[b].0@ by {
                        if a < n && b < n {
                            assert(self.entries@[a] == old(self).entries@[a]);
                            assert(self.entries@[b] == old(self).entries@[b]);
                        } else if a < n {
                            assert(self.entries@[a] == old(self).entries@[a]);
                            assert(!old(self).has_at(k@, a));
                        } else {
                            assert(self.entries@[b] == old(self).entries@[b]);
                            assert(!old(self).has_at(k@, b));
                        }
                    }
                    self.lemma_view_equal_insert(old(self), k@, v, n);
                }
            },
        }
    }

    /// Removes the entry under `k`, if any.
    pub fn remove(&mut self, k: &str)
        requires
            old(self).wf(),
        ensures
            final(self).wf(),
            final(self).view() == old(self).view().remove(k@),
    {
        match self.find(k) {
            Some(i) => {
                let ghost prev = *old(self);
                self.entries.remove(i);
                proof {
                    let n = prev.entries@.len() as int;
                    assert forall|a: int| 0 <= a < n - 1 implies #[trigger] self.entries@[a] == (
                    if a < i {
                        prev.entries@[a]
                    } else {
                        prev.entries@[a + 1]
                    }) by {}
                    assert forall|a: int, b: int|
                        0 <= a < self.entries@.len() && 0 <= b < self.entries@.len() && a != b
                            implies #[trigger] self.entries@[a].0@
                        != #[trigger] self.entries@[b].0@ by {
                        let a1 = if a < i { a } else { a + 1 };
                        let b1 = if b < i { b } else { b + 1 };
                        assert(self.entries@[a] == prev.entries@[a1]);
                        assert(self.entries@[b] == prev.entries@[b1]);
                    }
                    assert forall|q: Seq<char>| #[trigger]
                        self.view().contains_key(q) <==> prev.view().remove(k@).contains_key(q) by {
                        if self.view().contains_key(q) {
                            let j = choose|j: int| self.has_at(q, j);
                            let j1 = if j < i { j } else { j + 1 };
                            assert(prev.entries@[j1] == self.entries@[j]);
                            assert(prev.has_at(q, j1));
                            assert(q != k@);
                        }
                        if prev.view().remove(k@).contains_key(q) {
                            let j = choose|j: int| prev.has_at(q, j);
                            assert(j != i);
                            let j1 = if j < i { j } else { j - 1 };
                            assert(self.entries@[j1] == prev.entries@[j]);
                            assert(self.has_at(q, j1));
                        }
                    }
                    assert forall|q: Seq<char>| #[trigger]
                        self.view().contains_key(q) implies self.view()[q] == prev.view()[q] by {
                        let j = choose|j: int| self.has_at(q, j);
                        let j1 = if j < i { j } else { j + 1 };
                        assert(prev.entries@[j1] == self.entries@[j]);
                        self.lemma_view_at(j);
                        prev.lemma_view_at(j1);
                    }
                    assert(self.view() =~= prev.view().remove(k@));
                }
            },
            None => {
                assert(self.view() =~= old(self).view().remove(k@));
            },
        }
    }

    /// `self` is `prev` with `(k, v)` at position `at`, in place or at the end.
    proof fn lemma_view_equal_insert(&self, prev: &Self, k: Seq<char>, v: V, at: int)
        requires
            self.wf(),
            prev.wf(),
            0 <= at <= prev.entries@.len(),
            at < prev.entries@.len() ==> prev.entries@[at].0@ == k && self.entries@.len()
                == prev.entries@.len(),
            at == prev.entries@.len() ==> self.entries@.len() == prev.entries@.len() + 1,
            self.entries@[at].0@ == k,
            self.entries@[at].1 == v,
            forall|j: int|
                0 <= j < prev.entries@.len() && j != at ==> self.entries@[j] == prev.entries@[j],
        ensures
            self.view() == prev.view().insert(k, v),
    {
        self.lemma_view_at(at);
        assert forall|q: Seq<char>| #[trigger]
            self.view().contains_key(q) <==> prev.view().insert(k, v).contains_key(q) by {
            if q != k {
                if self.view().contains_key(q) {
                    let j = choose|j: int| self.has_at(q, j);
                    assert(prev.has_at(q, j));
                }
                if prev.view().contains_key(q) {
                    let j = choose|j: int| prev.has_at(q, j);
                    assert(self.has_at(q, j));
                }
            }
        }
        assert forall|q: Seq<char>| #[trigger]
            self.view().contains_key(q) implies self.view()[q] == prev.view().insert(k, v)[q] by {
            if q != k {
                let j = choose|j: int| self.has_at(q, j);
                assert(prev.has_at(q, j));
                self.lemma_view_at(j);
                prev.lemma_view_at(j);
            }
        }
        assert(self.view() =~= prev.view().insert(k, v));
    }
}

/// String equality.
pub(crate) fn str_eq(a: &str, b: &str) -> (r: bool)
    ensures
        r == (a@ == b@),
{
    let n = a.unicode_len();
    let m = b.unicode_len();
    if n != m {
        return false;
    }
    let mut i: usize = 0;
    while i < n
        invariant
            n == a@.len(),
            m == b@.len(),
            n == m,
            i <= n,
            forall|j: int| 0 <= j < i ==> a@[j] == b@[j],
        decreases n - i,
    {
        if a.get_char(i) != b.get_char(i) {
            return false;
        }
        i = i + 1;
    }
    assert(a@ =~= b@);
    true
}

} // verus!
