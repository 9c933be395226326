//! An association list with distinct keys, viewed as a finite map.
use vstd::prelude::*;

verus! {

/// A key that can be compared and copied faithfully to its view.
pub trait MapKey: Sized + View {
    fn key_eq(&self, other: &Self) -> (r: bool)
        ensures
            r == (self@ == other@),
    ;

    fn key_copy(&self) -> (r: Self)
        ensures
            r@ == self@,
    ;
}

/// A value that can be copied faithfully to its view.
pub trait MapValue: Sized + View {
    fn value_copy(&self) -> (r: Self)
        ensures
            r@ == self@,
    ;
}

/// The map that a list of entries denotes: later entries override earlier ones.
pub open spec fn entries_map<K: View, V: View>(s: Seq<(K, V)>) -> Map<K::V, V::V>
    decreases s.len(),
{
    if s.len() == 0 {
        Map::empty()
    } else {
        entries_map(s.drop_last()).insert(s.last().0@, s.last().1@)
    }
}

/// No two entries carry keys with the same view.
pub open spec fn keys_distinct<K: View, V>(s: Seq<(K, V)>) -> bool {
    forall|i: int, j: int|
        #![trigger s[i], s[j]]
        0 <= i < s.len() && 0 <= j < s.len() && i != j ==> s[i].0@ != s[j].0@
}

pub proof fn lemma_entries_map_contains<K: View, V: View>(s: Seq<(K, V)>, k: K::V)
    ensures
        entries_map(s).contains_key(k) <==> exists|i: int| 0 <= i < s.len() && #[trigger] s[i].0@ == k,
    decreases s.len(),
{
    if s.len() > 0 {
        let t = s.drop_last();
        lemma_entries_map_contains(t, k);
        if entries_map(s).contains_key(k) {
            if k != s.last().0@ {
                let i = choose|i: int| 0 <= i < t.len() && #[trigger] t[i].0@ == k;
                assert(s[i].0@ == k);
            } else {
                assert(s[s.len() - 1].0@ == k);
            }
        }
        if exists|i: int| 0 <= i < s.len() && #[trigger] s[i].0@ == k {
            let i = choose|i: int| 0 <= i < s.len() && #[trigger] s[i].0@ == k;
            if i < s.len() - 1 {
                assert(t[i].0@ == k);
            }
        }
    }
}

pub proof fn lemma_entries_map_value<K: View, V: View>(s: Seq<(K, V)>, i: int)
    requires
        keys_distinct(s),
        0 <= i < s.len(),
    ensures
        entries_map(s).contains_key(s[i].0@),
        entries_map(s)[s[i].0@] == s[i].1@,
    decreases s.len(),
{
    if i < s.len() - 1 {
        let t = s.drop_last();
        assert(t[i] == s[i]);
        assert(keys_distinct(t)) by {
            assert forall|a: int, b: int|
                0 <= a < t.len() && 0 <= b < t.len() && a != b implies #[trigger] t[a].0@ != #[trigger] t[b].0@ by {
                assert(t[a] == s[a] && t[b] == s[b]);
            }
        }
        lemma_entries_map_value(t, i);
        assert(s[i].0@ != s[s.len() - 1].0@);
    }
}

pub proof fn lemma_entries_map_update<K: View, V: View>(s: Seq<(K, V)>, i: int, e: (K, V))
    requires
        keys_distinct(s),
        0 <= i < s.len(),
        e.0@ == s[i].0@,
    ensures
        entries_map(s.update(i, e)) == entries_map(s).insert(e.0@, e.1@),
    decreases s.len(),
{
    let u = s.update(i, e);
    let t = s.drop_last();
    if i == s.len() - 1 {
        assert(u.drop_last() =~= t);
        assert(entries_map(u) =~= entries_map(s).insert(e.0@, e.1@));
    } else {
        assert(u.drop_last() =~= t.update(i, e));
        assert(keys_distinct(t)) by {
            assert forall|a: int, b: int|
                0 <= a < t.len() && 0 <= b < t.len() && a != b implies #[trigger] t[a].0@ != #[trigger] t[b].0@ by {
                assert(t[a] == s[a] && t[b] == s[b]);
            }
        }
        assert(t[i] == s[i]);
        lemma_entries_map_update(t, i, e);
        assert(s[i].0@ != s[s.len() - 1].0@);
        assert(u.last() == s.last());
        assert(entries_map(u) =~= entries_map(s).insert(e.0@, e.1@));
    }
}

pub proof fn lemma_entries_map_push<K: View, V: View>(s: Seq<(K, V)>, e: (K, V))
    ensures
        entries_map(s.push(e)) == entries_map(s).insert(e.0@, e.1@),
{
    assert(s.push(e).drop_last() =~= s);
}

/// A finite map from keys to values, stored as a list of entries with distinct keys.
#[derive(Debug)]
pub struct KeyedList<K: View, V: View> {
    entries: Vec<(K, V)>,
}

impl<K: View, V: View> View for KeyedList<K, V> {
    type V = Map<K::V, V::V>;

    closed spec fn view(&self) -> Map<K::V, V::V> {
        entries_map(self.entries@)
    }
}

impl<K: View, V: View> KeyedList<K, V> {
    #[verifier::type_invariant]
    closed spec fn wf(self) -> bool {
        keys_distinct(self.entries@)
    }
}

impl<K: MapKey, V: MapValue> KeyedList<K, V> {
    /// The empty map.
    pub fn new() -> (r: Self)
        ensures
            r@ == Map::<K::V, V::V>::empty(),
    {
        KeyedList { entries: Vec::new() }
    }

    /// The position of the entry for `k`, if there is one.
    fn position(&self, k: &K) -> (r: Option<usize>)
        ensures
            match r {
                Some(i) => i < self.entries@.len() && self.entries@[i as int].0@ == k@,
                None => forall|j: int| 0 <= j < self.entries@.len() ==> #[trigger] self.entries@[j].0@ != k@,
            },
    {
        let n = self.entries.len();
        let mut i: usize = 0;
        while i < n
            invariant
                n == self.entries@.len(),
                i <= n,
                forall|j: int| 0 <= j < i ==> #[trigger] self.entries@[j].0@ != k@,
            decreases n - i,
        {
            if self.entries[i].0.key_eq(k) {
                return Some(i);
            }
            i = i + 1;
        }
        None
    }

    /// Whether `k` has an entry.
    pub fn contains_key(&self, k: &K) -> (r: bool)
        ensures
            r == self@.contains_key(k@),
    {
        proof {
            use_type_invariant(self);
            lemma_entries_map_contains(self.entries@, k@);
        }
        self.position(k).is_some()
    }

    /// The value stored under `k`, if any.
    pub fn get(&self, k: &K) -> (r: Option<&V>)
        ensures
            r is Some <==> self@.contains_key(k@),
            r matches Some(v) ==> v@ == self@[k@],
    {
        proof {
            use_type_invariant(self);
            lemma_entries_map_contains(self.entries@, k@);
        }
        match self.position(k) {
            Some(i) => {
                proof {
                    lemma_entries_map_value(self.entries@, i as int);
                }
                Some(&self.entries[i].1)
            },
            None => None,
        }
    }

    /// Stores `v` under `k`, replacing any earlier value.
    pub fn set(&mut self, k: K, v: V)
        ensures
            final(self)@ == old(self)@.insert(k@, v@),
    {
        proof {
            use_type_invariant(&*self);
        }
        let pos = self.position(&k);
        match pos {
            Some(i) => {
                proof {
                    lemma_entries_map_update(self.entries@, i as int, (k, v));
                }
                let mut es: Vec<(K, V)> = Vec::new();
                std::mem::swap(&mut es, &mut self.entries);
                es.set(i, (k, v));
                self.entries = es;
            },
            None => {
                proof {
                    lemma_entries_map_push(self.entries@, (k, v));
                    assert(keys_distinct(self.entries@.push((k, v)))) by {
                        let s = self.entries@.push((k, v));
                        assert forall|a: int, b: int|
                            0 <= a < s.len() && 0 <= b < s.len() && a != b implies #[trigger] s[a].0@ != #[trigger] s[b].0@ by {
                            if a < s.len() - 1 && b < s.len() - 1 {
                                assert(s[a] == self.entries@[a] && s[b] == self.entries@[b]);
                            } else if a < s.len() - 1 {
                                assert(s[a] == self.entries@[a]);
                            } else {
                                assert(s[b] == self.entries@[b]);
                            }
                        }
                    }
                }
                let mut es: Vec<(K, V)> = Vec::new();
                std::mem::swap(&mut es, &mut self.entries);
                es.push((k, v));
                self.entries = es;
            },
        }
    }

    /// The keys of the map, each once.
    pub fn keys(&self) -> (r: Vec<K>)
        ensures
            forall|i: int| 0 <= i < r@.len() ==> self@.contains_key(#[trigger] r@[i]@),
            forall|k: K::V| self@.contains_key(k) ==> exists|i: int| 0 <= i < r@.len() && #[trigger] r@[i]@ == k,
            forall|i: int, j: int|
                #![trigger r@[i], r@[j]]
                0 <= i < r@.len() && 0 <= j < r@.len() && i != j ==> r@[i]@ != r@[j]@,
    {
        proof {
            use_type_invariant(self);
        }
        let n = self.entries.len();
        let mut r: Vec<K> = Vec::new();
        let mut i: usize = 0;
        while i < n
            invariant
                n == self.entries@.len(),
                keys_distinct(self.entries@),
                i <= n,
                r@.len() == i,
                forall|j: int| 0 <= j < i ==> #[trigger] r@[j]@ == self.entries@[j].0@,
            decreases n - i,
        {
            let k = self.entries[i].0.key_copy();
            r.push(k);
            i = i + 1;
        }
        proof {
            assert forall|i: int| 0 <= i < r@.len() implies self@.contains_key(#[trigger] r@[i]@) by {
                lemma_entries_map_value(self.entries@, i);
            }
            assert forall|k: K::V| self@.contains_key(k) implies exists|i: int|
                0 <= i < r@.len() && #[trigger] r@[i]@ == k by {
                lemma_entries_map_contains(self.entries@, k);
                let i = choose|i: int| 0 <= i < self.entries@.len() && #[trigger] self.entries@[i].0@ == k;
                assert(r@[i]@ == k);
            }
            assert forall|a: int, b: int|
                0 <= a < r@.len() && 0 <= b < r@.len() && a != b implies #[trigger] r@[a]@ != #[trigger] r@[b]@ by {
                assert(r@[a]@ == self.entries@[a].0@);
                assert(r@[b]@ == self.entries@[b].0@);
            }
        }
        r
    }

    /// A copy with the same contents.
    pub fn duplicate(&self) -> (r: Self)
        ensures
            r@ == self@,
    {
        proof {
            use_type_invariant(self);
        }
        let n = self.entries.len();
        let mut out: Vec<(K, V)> = Vec::new();
        let mut i: usize = 0;
        while i < n
            invariant
                n == self.entries@.len(),
                keys_distinct(self.entries@),
                i <= n,
                out@.len() == i,
                forall|j: int|
                    0 <= j < i ==> (#[trigger] out@[j]).0@ == self.entries@[j].0@ && out@[j].1@
                        == self.entries@[j].1@,
            decreases n - i,
        {
            let k = self.entries[i].0.key_copy();
            let v = self.entries[i].1.value_copy();
            out.push((k, v));
            i = i + 1;
        }
        proof {
            lemma_entries_map_same(out@, self.entries@);
            assert(keys_distinct(out@)) by {
                assert forall|a: int, b: int|
                    0 <= a < out@.len() && 0 <= b < out@.len() && a != b implies #[trigger] out@[a].0@
                    != #[trigger] out@[b].0@ by {
                    assert(out@[a].0@ == self.entries@[a].0@);
                    assert(out@[b].0@ == self.entries@[b].0@);
                }
            }
        }
        KeyedList { entries: out }
    }
}

/// Two entry lists with the same views entry by entry denote the same map.
pub proof fn lemma_entries_map_same<K: View, V: View>(s: Seq<(K, V)>, t: Seq<(K, V)>)
    requires
        s.len() == t.len(),
        forall|j: int| 0 <= j < s.len() ==> (#[trigger] s[j]).0@ == t[j].0@ && s[j].1@ == t[j].1@,
    ensures
        entries_map(s) == entries_map(t),
    decreases s.len(),
{
    if s.len() > 0 {
        let s2 = s.drop_last();
        let t2 = t.drop_last();
        assert forall|j: int| 0 <= j < s2.len() implies (#[trigger] s2[j]).0@ == t2[j].0@ && s2[j].1@
            == t2[j].1@ by {
            assert(s2[j] == s[j] && t2[j] == t[j]);
        }
        lemma_entries_map_same(s2, t2);
        assert(s.last() == s[s.len() - 1]);
    }
}

} // verus!
