//! A map keyed by strings, kept as a list of entries in which no key
//! occurs twice. Its model is a `Map<Seq<char>, V>`.

use vstd::prelude::*;

use crate::text::str_eq;

verus! {

/// The map that the entries `s` stand for: later entries win.
pub open spec fn map_of<V>(s: Seq<(String, V)>) -> Map<Seq<char>, V>
    decreases s.len(),
{
    if s.len() == 0 {
        Map::empty()
    } else {
        map_of(s.drop_last()).insert(s.last().0@, s.last().1)
    }
}

/// No two entries of `s` share a key.
pub open spec fn keys_unique<V>(s: Seq<(String, V)>) -> bool {
    forall|i: int, j: int|
        0 <= i < s.len() && 0 <= j < s.len() && i != j ==> #[trigger] s[i].0@ != #[trigger] s[j].0@
}

/// The keys of `s`, in order.
pub open spec fn keys_of<V>(s: Seq<(String, V)>) -> Seq<Seq<char>> {
    s.map_values(|e: (String, V)| e.0@)
}

/// What the entries of a map with unique keys say about its model.
pub proof fn lemma_map_of<V>(s: Seq<(String, V)>)
    requires
        keys_unique(s),
    ensures
        forall|i: int|
            0 <= i < s.len() ==> #[trigger] map_of(s).contains_key(s[i].0@) && map_of(s)[s[i].0@]
                == s[i].1,
        forall|k: Seq<char>|
            #[trigger] map_of(s).contains_key(k) ==> exists|i: int|
                0 <= i < s.len() && #[trigger] s[i].0@ == k,
        map_of(s).dom().finite(),
    decreases s.len(),
{
    if s.len() > 0 {
        let t = s.drop_last();
        assert(keys_unique(t)) by {
            assert forall|i: int, j: int|
                0 <= i < t.len() && 0 <= j < t.len() && i != j implies #[trigger] t[i].0@
                != #[trigger] t[j].0@ by {
                assert(t[i] == s[i] && t[j] == s[j]);
            }
        }
        lemma_map_of(t);
        assert forall|i: int| 0 <= i < s.len() implies #[trigger] map_of(s).contains_key(s[i].0@)
            && map_of(s)[s[i].0@] == s[i].1 by {
            if i < s.len() - 1 {
                assert(t[i] == s[i]);
                assert(s[i].0@ != s[s.len() - 1].0@);
            }
        }
        assert forall|k: Seq<char>| #[trigger] map_of(s).contains_key(k) implies exists|i: int|
            0 <= i < s.len() && #[trigger] s[i].0@ == k by {
            if k != s.last().0@ {
                assert(map_of(t).contains_key(k));
                let i = choose|i: int| 0 <= i < t.len() && #[trigger] t[i].0@ == k;
                assert(s[i] == t[i]);
            } else {
                assert(s[s.len() - 1].0@ == k);
            }
        }
    }
}

/// Replacing the value of an entry, keeping its key, updates the model there.
proof fn lemma_map_of_update<V>(s: Seq<(String, V)>, i: int, e: (String, V))
    requires
        keys_unique(s),
        0 <= i < s.len(),
        e.0@ == s[i].0@,
    ensures
        keys_unique(s.update(i, e)),
        map_of(s.update(i, e)) == map_of(s).insert(e.0@, e.1),
{
    let u = s.update(i, e);
    assert(keys_unique(u)) by {
        assert forall|a: int, b: int|
            0 <= a < u.len() && 0 <= b < u.len() && a != b implies #[trigger] u[a].0@
            != #[trigger] u[b].0@ by {
            assert(u[a].0@ == s[a].0@);
            assert(u[b].0@ == s[b].0@);
        }
    }
    lemma_map_of(s);
    lemma_map_of(u);
    assert(map_of(u) =~= map_of(s).insert(e.0@, e.1)) by {
        assert forall|k: Seq<char>| #[trigger] map_of(u).contains_key(k) implies map_of(s).insert(
            e.0@,
            e.1,
        ).contains_key(k) by {
            let j = choose|j: int| 0 <= j < u.len() && #[trigger] u[j].0@ == k;
            if j != i {
                assert(u[j] == s[j]);
            }
        }
        assert forall|k: Seq<char>| #[trigger] map_of(s).insert(e.0@, e.1).contains_key(k)
            implies map_of(u).contains_key(k) by {
            if k != e.0@ {
                let j = choose|j: int| 0 <= j < s.len() && #[trigger] s[j].0@ == k;
                assert(u[j] == s[j]);
            } else {
                assert(u[i] == e);
            }
        }
        assert forall|k: Seq<char>| #[trigger] map_of(u).contains_key(k) implies map_of(u)[k]
            == map_of(s).insert(e.0@, e.1)[k] by {
            let j = choose|j: int| 0 <= j < u.len() && #[trigger] u[j].0@ == k;
            if j != i {
                assert(u[j] == s[j]);
            } else {
                assert(u[i] == e);
            }
        }
    }
}

/// Removing an entry removes its key from the model.
proof fn lemma_map_of_remove<V>(s: Seq<(String, V)>, i: int)
    requires
        keys_unique(s),
        0 <= i < s.len(),
    ensures
        keys_unique(s.remove(i)),
        map_of(s.remove(i)) == map_of(s).remove(s[i].0@),
{
    let u = s.remove(i);
    assert(keys_unique(u)) by {
        assert forall|a: int, b: int|
            0 <= a < u.len() && 0 <= b < u.len() && a != b implies #[trigger] u[a].0@
            != #[trigger] u[b].0@ by {
            let a2 = if a < i { a } else { a + 1 };
            let b2 = if b < i { b } else { b + 1 };
            assert(u[a] == s[a2]);
            assert(u[b] == s[b2]);
        }
    }
    lemma_map_of(s);
    lemma_map_of(u);
    let key = s[i].0@;
    assert(map_of(u) =~= map_of(s).remove(key)) by {
        assert forall|k: Seq<char>| #[trigger] map_of(u).contains_key(k) implies map_of(s).remove(
            key,
        ).contains_key(k) && map_of(u)[k] == map_of(s)[k] by {
            let j = choose|j: int| 0 <= j < u.len() && #[trigger] u[j].0@ == k;
            let j2 = if j < i { j } else { j + 1 };
            assert(u[j] == s[j2]);
            assert(j2 != i);
        }
        assert forall|k: Seq<char>| #[trigger] map_of(s).remove(key).contains_key(k) implies map_of(
            u,
        ).contains_key(k) by {
            let j = choose|j: int| 0 <= j < s.len() && #[trigger] s[j].0@ == k;
            assert(j != i);
            let j2 = if j < i { j } else { j - 1 };
            assert(u[j2] == s[j]);
        }
    }
}

/// A map from strings to values of type `V`.
pub struct StrMap<V> {
    entries: Vec<(String, V)>,
}

impl<V> StrMap<V> {
    #[verifier::type_invariant]
    spec fn inv(self) -> bool {
        keys_unique(self.entries@)
    }

    /// The map these entries stand for.
    pub closed spec fn view(&self) -> Map<Seq<char>, V> {
        map_of(self.entries@)
    }

    /// The entries in the order in which they were first inserted.
    pub closed spec fn entry_seq(&self) -> Seq<(String, V)> {
        self.entries@
    }

    /// An empty map.
    pub fn new() -> (r: Self)
        ensures
            r.view() == Map::<Seq<char>, V>::empty(),
            r.entry_seq().len() == 0,
    {
        StrMap { entries: Vec::new() }
    }

    /// The position of the entry with key `k`.
    fn position(&self, k: &str) -> (r: Option<usize>)
        ensures
            r matches Some(i) ==> i < self.entries@.len() && self.entries@[i as int].0@ == k@,
            r is None ==> !self.view().contains_key(k@),
    {
        proof {
            use_type_invariant(self);
            lemma_map_of(self.entries@);
        }
        let mut i: usize = 0;
        while i < self.entries.len()
            invariant
                i <= self.entries@.len(),
                forall|j: int| 0 <= j < i ==> #[trigger] self.entries@[j].0@ != k@,
            decreases self.entries.len() - i,
        {
            if str_eq(self.entries[i].0.as_str(), k) {
                return Some(i);
            }
            i = i + 1;
        }
        None
    }

    /// Whether `k` is a key of the map.
    pub fn contains_key(&self, k: &str) -> (r: bool)
        ensures
            r == self.view().contains_key(k@),
    {
        proof {
            use_type_invariant(self);
            lemma_map_of(self.entries@);
        }
        match self.position(k) {
            Some(_) => true,
            None => false,
        }
    }

    /// The value stored under `k`.
    pub fn get(&self, k: &str) -> (r: Option<&V>)
        ensures
            match r {
                Some(v) => self.view().contains_key(k@) && *v == self.view()[k@],
                None => !self.view().contains_key(k@),
            },
    {
        proof {
            use_type_invariant(self);
            lemma_map_of(self.entries@);
        }
        match self.position(k) {
            Some(i) => {
                proof {
                    assert(map_of(self.entries@).contains_key(self.entries@[i as int].0@));
                }
                Some(&self.entries[i].1)
            },
            None => None,
        }
    }

    /// Stores `v` under `k`, replacing what was stored there.
    pub fn insert(&mut self, k: String, v: V)
        ensures
            final(self).view() == old(self).view().insert(k@, v),
    {
        proof {
            use_type_invariant(&*self);
        }
        let pos = self.position(k.as_str());
        let mut e: Vec<(String, V)> = Vec::new();
        std::mem::swap(&mut e, &mut self.entries);
        match pos {
            Some(i) => {
                let ghost before = e@;
                e.set(i, (k, v));
                proof {
                    lemma_map_of_update(before, i as int, e@[i as int]);
                    assert(e@ =~= before.update(i as int, e@[i as int]));
                }
            },
            None => {
                let ghost before = e@;
                proof {
                    lemma_map_of(before);
                }
                e.push((k, v));
                proof {
                    assert(e@.drop_last() =~= before);
                    assert forall|a: int, b: int|
                        0 <= a < e@.len() && 0 <= b < e@.len() && a != b implies #[trigger] e@[a].0@
                        != #[trigger] e@[b].0@ by {
                        if a < before.len() && b < before.len() {
                            assert(e@[a] == before[a] && e@[b] == before[b]);
                        } else if a < before.len() {
                            assert(e@[a] == before[a]);
                        } else {
                            assert(e@[b] == before[b]);
                        }
                    }
                }
            },
        }
        self.entries = e;
    }

    /// Removes the entry for `k`, giving back its value.
    pub fn remove(&mut self, k: &str) -> (r: Option<V>)
        ensures
            final(self).view() == old(self).view().remove(k@),
            match r {
                Some(v) => old(self).view().contains_key(k@) && v == old(self).view()[k@],
                None => !old(self).view().contains_key(k@),
            },
    {
        proof {
            use_type_invariant(&*self);
            lemma_map_of(self.entries@);
        }
        let pos = self.position(k);
        match pos {
            Some(i) => {
                let mut e: Vec<(String, V)> = Vec::new();
                std::mem::swap(&mut e, &mut self.entries);
                let ghost before = e@;
                proof {
                    assert(map_of(before).contains_key(before[i as int].0@));
                }
                let (_key, val) = e.remove(i);
                proof {
                    lemma_map_of_remove(before, i as int);
                }
                self.entries = e;
                Some(val)
            },
            None => {
                proof {
                    assert(self.view().remove(k@) =~= self.view());
                }
                None
            },
        }
    }

    /// Whether the map holds no entry.
    pub fn is_empty(&self) -> (r: bool)
        ensures
            r == (self.view().dom().len() == 0),
    {
        proof {
            use_type_invariant(self);
            lemma_map_of(self.entries@);
            if self.entries@.len() > 0 {
                assert(self.view().contains_key(self.entries@[0].0@));
                assert(self.view().dom().contains(self.entries@[0].0@));
            } else {
                assert(self.view().dom() =~= Set::<Seq<char>>::empty());
            }
        }
        self.entries.len() == 0
    }

    /// The number of entries.
    pub fn len(&self) -> (r: usize)
        ensures
            r == self.entry_seq().len(),
    {
        self.entries.len()
    }

    /// The entries, each key once, in the order of first insertion.
    pub fn entries(&self) -> (r: &Vec<(String, V)>)
        ensures
            r@ == self.entry_seq(),
            keys_unique(r@),
            map_of(r@) == self.view(),
            self.view().dom().finite(),
            forall|i: int|
                0 <= i < r@.len() ==> #[trigger] self.view().contains_key(r@[i].0@)
                    && self.view()[r@[i].0@] == r@[i].1,
            forall|k: Seq<char>|
                #[trigger] self.view().contains_key(k) ==> exists|i: int|
                    0 <= i < r@.len() && #[trigger] r@[i].0@ == k,
    {
        proof {
            use_type_invariant(self);
            lemma_map_of(self.entries@);
        }
        &self.entries
    }
}

} // verus!
