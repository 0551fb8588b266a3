//! An insertion-ordered association table from entity ids to component
//! values: one table per component kind.
//!
//! The entity store needs two things from its component maps that a hash
//! map does not give: a deterministic, stable iteration order (the shadow
//! pass and the light buffer must see the lights in the same order within a
//! frame), and contracts that Verus can reason about. A vector of
//! `(id, value)` pairs with unique ids provides both; entity counts are
//! small, so the linear scans are of no concern.

use vstd::prelude::*;

verus! {

/// Index of the first entry of `s` whose id is `key`, or -1 if there is
/// none.
pub open spec fn first_index_of<T>(s: Seq<(usize, T)>, key: usize) -> int
    decreases s.len(),
{
    if s.len() == 0 {
        -1
    } else if s[0].0 == key {
        0
    } else {
        let r = first_index_of(s.drop_first(), key);
        if r < 0 {
            -1
        } else {
            r + 1
        }
    }
}

/// What `first_index_of` returns: a valid index of an entry with the key,
/// preceded by no entry with the key; or -1 when no entry has the key.
pub proof fn lemma_first_index_of<T>(s: Seq<(usize, T)>, key: usize)
    ensures
        -1 <= first_index_of(s, key) < s.len(),
        first_index_of(s, key) >= 0 ==> s[first_index_of(s, key)].0 == key,
        forall|j: int| 0 <= j < first_index_of(s, key) ==> (#[trigger] s[j]).0 != key,
        first_index_of(s, key) == -1 ==> forall|j: int|
            0 <= j < s.len() ==> (#[trigger] s[j]).0 != key,
    decreases s.len(),
{
    if s.len() == 0 {
    } else if s[0].0 == key {
    } else {
        let rest = s.drop_first();
        lemma_first_index_of(rest, key);
        let r = first_index_of(rest, key);
        let f = first_index_of(s, key);
        if r >= 0 {
            assert(s[f] == rest[r]);
        }
        assert forall|j: int| 0 <= j < f implies (#[trigger] s[j]).0 != key by {
            if j > 0 {
                assert(s[j] == rest[j - 1]);
            }
        }
        if f == -1 {
            assert forall|j: int| 0 <= j < s.len() implies (#[trigger] s[j]).0 != key by {
                if j > 0 {
                    assert(s[j] == rest[j - 1]);
                }
            }
        }
    }
}

/// The value of the first entry of `s` whose id is `key`.
pub open spec fn assoc_get<T>(s: Seq<(usize, T)>, key: usize) -> Option<T> {
    let i = first_index_of(s, key);
    if i >= 0 {
        Some(s[i].1)
    } else {
        None
    }
}

/// `first_index_of` looks only at the ids, never at the values.
pub proof fn lemma_first_index_of_same_keys<T>(s1: Seq<(usize, T)>, s2: Seq<(usize, T)>, key: usize)
    requires
        s1.len() == s2.len(),
        forall|j: int| 0 <= j < s1.len() ==> (#[trigger] s1[j]).0 == (#[trigger] s2[j]).0,
    ensures
        first_index_of(s1, key) == first_index_of(s2, key),
    decreases s1.len(),
{
    if s1.len() == 0 {
    } else {
        let r1 = s1.drop_first();
        let r2 = s2.drop_first();
        assert(forall|j: int| 0 <= j < r1.len() ==> r1[j] == s1[j + 1] && r2[j] == s2[j + 1]);
        lemma_first_index_of_same_keys(r1, r2, key);
    }
}

#[derive(Debug)]
pub struct Table<T> {
    pub entries: Vec<(usize, T)>,
}

impl<T> View for Table<T> {
    type V = Seq<(usize, T)>;

    open spec fn view(&self) -> Seq<(usize, T)> {
        self.entries@
    }
}

impl<T> Table<T> {
    /// Ids are pairwise distinct.
    pub open spec fn wf(self) -> bool {
        forall|i: int, j: int|
            0 <= i < j < self@.len() ==> (#[trigger] self@[i]).0 != (#[trigger] self@[j]).0
    }

    pub open spec fn spec_contains(self, key: usize) -> bool {
        first_index_of(self@, key) >= 0
    }

    pub open spec fn spec_get(self, key: usize) -> Option<T> {
        assoc_get(self@, key)
    }

    /// Every id in the table is below `bound`.
    pub open spec fn keys_below(self, bound: usize) -> bool {
        forall|i: int| 0 <= i < self@.len() ==> (#[trigger] self@[i]).0 < bound
    }

    pub fn new() -> (r: Self)
        ensures
            r@ =~= Seq::<(usize, T)>::empty(),
    {
        Table { entries: Vec::new() }
    }

    pub fn len(&self) -> (n: usize)
        ensures
            n == self@.len(),
    {
        self.entries.len()
    }

    /// Index of the first entry with this id, if any.
    pub fn index_of(&self, key: usize) -> (r: Option<usize>)
        ensures
            match r {
                Some(i) => i == first_index_of(self@, key) && i < self@.len()
                    && self@[i as int].0 == key,
                None => first_index_of(self@, key) == -1,
            },
            r is Some <==> self.spec_contains(key),
    {
        proof {
            lemma_first_index_of(self@, key);
        }
        let n = self.entries.len();
        let mut i: usize = 0;
        while i < n
            invariant
                n == self@.len(),
                i <= n,
                forall|j: int| 0 <= j < i ==> (#[trigger] self@[j]).0 != key,
            decreases n - i,
        {
            if self.entries[i].0 == key {
                proof {
                    lemma_first_index_of(self@, key);
                    let fi = first_index_of(self@, key);
                    assert(fi >= 0);
                    assert(!(fi < i) && !(i < fi));
                }
                return Some(i);
            }
            i = i + 1;
        }
        None
    }

    pub fn contains(&self, key: usize) -> (b: bool)
        ensures
            b == self.spec_contains(key),
    {
        self.index_of(key).is_some()
    }

    /// Insert or replace: an existing entry keeps its place in the order; a
    /// new id goes to the end.
    pub fn insert(&mut self, key: usize, value: T)
        ensures
            final(self)@ == (if old(self).spec_contains(key) {
                old(self)@.update(first_index_of(old(self)@, key), (key, value))
            } else {
                old(self)@.push((key, value))
            }),
            final(self).spec_get(key) == Some(value),
            forall|k: usize| k != key ==> final(self).spec_get(k) == old(self).spec_get(k),
            final(self)@.len() == old(self)@.len() + (if old(self).spec_contains(key) {
                0int
            } else {
                1int
            }),
            old(self).wf() ==> final(self).wf(),
            forall|b: usize|
                old(self).keys_below(b) && key < b ==> final(self).keys_below(b),
    {
        proof {
            lemma_first_index_of(self@, key);
        }
        let ghost s0 = self@;
        match self.index_of(key) {
            Some(i) => {
                self.entries.set(i, (key, value));
                proof {
                    let fi = first_index_of(s0, key);
                    let s1 = self@;
                    assert(forall|j: int| 0 <= j < s1.len() ==> (#[trigger] s1[j]).0 == (
                    #[trigger] s0[j]).0);
                    lemma_first_index_of_same_keys(s0, s1, key);
                    assert(s1[first_index_of(s1, key)].1 == value);
                    assert forall|k: usize| k != key implies assoc_get(s1, k) == assoc_get(
                        s0,
                        k,
                    ) by {
                        lemma_first_index_of_same_keys(s0, s1, k);
                        lemma_first_index_of(s0, k);
                        let fk = first_index_of(s0, k);
                        if fk >= 0 {
                            assert(s0[fk].0 == k);
                            assert(fk != fi);
                            assert(s1[fk] == s0[fk]);
                        }
                    }
                }
            },
            None => {
                self.entries.push((key, value));
                proof {
                    let s1 = self@;
                    lemma_first_index_of(s0, key);
                    lemma_first_index_of_push(s0, key, value, key);
                    assert(first_index_of(s1, key) == s0.len());
                    assert forall|k: usize| k != key implies assoc_get(s1, k) == assoc_get(
                        s0,
                        k,
                    ) by {
                        lemma_first_index_of_push(s0, key, value, k);
                        lemma_first_index_of(s0, k);
                        let fk = first_index_of(s0, k);
                        if fk >= 0 {
                            assert(s1[fk] == s0[fk]);
                        }
                    }
                    assert forall|i: int, j: int|
                        0 <= i < j < s1.len() && old(self).wf() implies (#[trigger] s1[i]).0 != (
                    #[trigger] s1[j]).0 by {
                        if j == s1.len() - 1 {
                            lemma_first_index_of(s0, key);
                        }
                    }
                }
            },
        }
    }

    /// Remove the entry with this id, if any; the relative order of the
    /// remaining entries is unchanged.
    pub fn remove(&mut self, key: usize)
        ensures
            final(self)@ == (if old(self).spec_contains(key) {
                old(self)@.remove(first_index_of(old(self)@, key))
            } else {
                old(self)@
            }),
            old(self).wf() ==> final(self).spec_get(key) == None::<T>,
            forall|k: usize| k != key ==> final(self).spec_get(k) == old(self).spec_get(k),
            old(self).wf() ==> final(self).wf(),
            forall|b: usize| old(self).keys_below(b) ==> final(self).keys_below(b),
    {
        proof {
            lemma_first_index_of(self@, key);
        }
        let ghost s0 = self@;
        match self.index_of(key) {
            Some(i) => {
                self.entries.remove(i);
                proof {
                    let fi = first_index_of(s0, key);
                    let s1 = self@;
                    assert(s1 == s0.remove(fi));
                    assert(forall|j: int| 0 <= j < fi ==> s1[j] == s0[j]);
                    assert(forall|j: int| fi <= j < s1.len() ==> s1[j] == s0[j + 1]);
                    if old(self).wf() {
                        lemma_remove_key_gone(s0, key);
                    }
                    assert forall|k: usize| k != key implies assoc_get(s1, k) == assoc_get(
                        s0,
                        k,
                    ) by {
                        lemma_remove_other_key(s0, key, k);
                    }
                }
            },
            None => {},
        }
    }
}

/// `first_index_of` after a push: an existing first match is undisturbed; a
/// newly pushed id becomes findable at the end.
pub proof fn lemma_first_index_of_push<T>(s: Seq<(usize, T)>, key: usize, value: T, k: usize)
    ensures
        first_index_of(s.push((key, value)), k) == (if first_index_of(s, k) >= 0 {
            first_index_of(s, k)
        } else if k == key {
            s.len() as int
        } else {
            -1
        }),
    decreases s.len(),
{
    let p = s.push((key, value));
    if s.len() == 0 {
        assert(p.len() == 1);
        assert(p[0] == (key, value));
        if k == key {
            assert(first_index_of(p, k) == 0);
        } else {
            assert(p.drop_first() =~= Seq::<(usize, T)>::empty());
            assert(first_index_of(Seq::<(usize, T)>::empty(), k) == -1);
            assert(first_index_of(p, k) == -1);
        }
    } else {
        assert(p[0] == s[0]);
        if s[0].0 == k {
            assert(first_index_of(p, k) == 0);
            assert(first_index_of(s, k) == 0);
        } else {
            let rest = s.drop_first();
            assert(p.drop_first() =~= rest.push((key, value)));
            lemma_first_index_of_push(rest, key, value, k);
            assert(first_index_of(p, k) == (if first_index_of(rest.push((key, value)), k) < 0 {
                -1int
            } else {
                first_index_of(rest.push((key, value)), k) + 1
            }));
        }
    }
}

/// Removing the first entry with `key` from a table with unique ids leaves
/// no entry with `key`.
proof fn lemma_remove_key_gone<T>(s: Seq<(usize, T)>, key: usize)
    requires
        forall|i: int, j: int| 0 <= i < j < s.len() ==> (#[trigger] s[i]).0 != (#[trigger] s[j]).0,
        first_index_of(s, key) >= 0,
    ensures
        assoc_get(s.remove(first_index_of(s, key)), key) == None::<T>,
{
    let fi = first_index_of(s, key);
    lemma_first_index_of(s, key);
    let s1 = s.remove(fi);
    lemma_first_index_of(s1, key);
    let r = first_index_of(s1, key);
    if r >= 0 {
        assert(s1[r].0 == key);
        if r < fi {
            assert(s1[r] == s[r]);
        } else {
            assert(s1[r] == s[r + 1]);
            assert(s[fi].0 == s[r + 1].0);
        }
    }
}

/// Removing the first entry with `key` does not change the lookup of any
/// other id.
proof fn lemma_remove_other_key<T>(s: Seq<(usize, T)>, key: usize, k: usize)
    requires
        first_index_of(s, key) >= 0,
        k != key,
    ensures
        assoc_get(s.remove(first_index_of(s, key)), k) == assoc_get(s, k),
{
    let fi = first_index_of(s, key);
    lemma_first_index_of(s, key);
    let s1 = s.remove(fi);
    lemma_first_index_of(s, k);
    lemma_first_index_of(s1, k);
    let r0 = first_index_of(s, k);
    let r1 = first_index_of(s1, k);
    assert(forall|j: int| 0 <= j < fi ==> s1[j] == s[j]);
    assert(forall|j: int| fi <= j < s1.len() ==> s1[j] == s[j + 1]);
    if r0 == -1 {
        if r1 >= 0 {
            assert(s1[r1].0 == k);
        }
    } else {
        assert(s[r0].0 == k);
        assert(r0 != fi);
        if r0 < fi {
            // the first match sits before the removed entry and keeps its place
            assert(s1[r0].0 == k);
            assert(r1 >= 0 && !(r1 < r0) && !(r0 < r1)) by {
                if r1 >= 0 && r1 < r0 {
                    if r1 < fi {
                        assert(s1[r1] == s[r1]);
                    } else {
                        assert(s1[r1] == s[r1 + 1]);
                    }
                }
                if r1 > r0 {
                    assert(s1[r0].0 == k);
                }
                if r1 == -1 {
                    assert(s1[r0].0 == k);
                }
            }
            assert(s1[r1] == s[r0]);
        } else {
            // the first match sits after the removed entry and shifts down one
            assert(s1[r0 - 1] == s[r0]);
            assert(r1 >= 0 && !(r1 < r0 - 1) && !(r0 - 1 < r1)) by {
                if r1 >= 0 && r1 < r0 - 1 {
                    if r1 < fi {
                        assert(s1[r1] == s[r1]);
                    } else {
                        assert(s1[r1] == s[r1 + 1]);
                    }
                }
                if r1 > r0 - 1 {
                    assert(s1[r0 - 1].0 == k);
                }
                if r1 == -1 {
                    assert(s1[r0 - 1].0 == k);
                }
            }
            assert(s1[r1] == s[r0]);
        }
    }
}

} // verus!
