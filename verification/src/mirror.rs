//! The local mirror of an embedded cache: a map from item keys to values, kept as a list of
//! entries whose keys are pairwise distinct.

use vstd::prelude::*;

verus! {

/// The keys of `s` are pairwise distinct.
pub open spec fn keys_distinct<V>(s: Seq<(String, V)>) -> bool {
    forall|i: int, j: int| 0 <= i < j < s.len() ==> #[trigger] s[i].0@ != #[trigger] s[j].0@
}

/// Some entry of `s` has key `k`.
pub open spec fn has_key<V>(s: Seq<(String, V)>, k: Seq<char>) -> bool {
    exists|i: int| 0 <= i < s.len() && #[trigger] s[i].0@ == k
}

/// The value of the entry of `s` with key `k` (meaningful when `has_key(s, k)`).
pub open spec fn value_of<V>(s: Seq<(String, V)>, k: Seq<char>) -> V {
    s[choose|i: int| 0 <= i < s.len() && #[trigger] s[i].0@ == k].1
}

/// The map that a list of entries with distinct keys stands for.
pub open spec fn entries_map<V>(s: Seq<(String, V)>) -> Map<Seq<char>, V> {
    Map::new(|k: Seq<char>| has_key(s, k), |k: Seq<char>| value_of(s, k))
}

/// With distinct keys, the entry at index `i` is the one the map reports for its key.
pub proof fn lemma_entry_in_map<V>(s: Seq<(String, V)>, i: int)
    requires
        keys_distinct(s),
        0 <= i < s.len(),
    ensures
        entries_map(s).contains_key(s[i].0@),
        entries_map(s)[s[i].0@] == s[i].1,
{
    let k = s[i].0@;
    assert(has_key(s, k));
    let j = choose|j: int| 0 <= j < s.len() && #[trigger] s[j].0@ == k;
    if j != i {
        if j < i {
            assert(s[j].0@ != s[i].0@);
        } else {
            assert(s[i].0@ != s[j].0@);
        }
    }
}

/// Any run of consecutive entries of a list with distinct keys has distinct keys.
pub proof fn lemma_subrange_distinct<V>(s: Seq<(String, V)>, a: int, b: int)
    requires
        keys_distinct(s),
        0 <= a <= b <= s.len(),
    ensures
        keys_distinct(s.subrange(a, b)),
{
    let t = s.subrange(a, b);
    assert forall|i: int, j: int| 0 <= i < j < t.len() implies #[trigger] t[i].0@
        != #[trigger] t[j].0@ by {
        assert(t[i] == s[a + i]);
        assert(t[j] == s[a + j]);
    }
}

/// The entries of a list with distinct keys from index `j` on stand for the map of the entries
/// from `j + 1` on, with the entry at `j` added.
pub proof fn lemma_entries_map_suffix<V>(s: Seq<(String, V)>, j: int)
    requires
        keys_distinct(s),
        0 <= j < s.len(),
    ensures
        entries_map(s.subrange(j, s.len() as int)) == entries_map(
            s.subrange(j + 1, s.len() as int),
        ).insert(s[j].0@, s[j].1),
{
    let n = s.len() as int;
    let u = s.subrange(j, n);
    let t = s.subrange(j + 1, n);
    lemma_subrange_distinct(s, j, n);
    lemma_subrange_distinct(s, j + 1, n);
    let m = entries_map(t).insert(s[j].0@, s[j].1);
    assert(u[0] == s[j]);
    lemma_entry_in_map(u, 0);
    assert forall|k: Seq<char>| #[trigger] entries_map(u).contains_key(k) <==> m.contains_key(k) by {
        if has_key(u, k) {
            let i = choose|i: int| 0 <= i < u.len() && #[trigger] u[i].0@ == k;
            if i > 0 {
                assert(t[i - 1] == u[i]);
            }
        }
        if has_key(t, k) {
            let i = choose|i: int| 0 <= i < t.len() && #[trigger] t[i].0@ == k;
            assert(u[i + 1] == t[i]);
        }
    }
    assert forall|k: Seq<char>| #[trigger] entries_map(u).contains_key(k) implies entries_map(u)[k]
        == m[k] by {
        if k != s[j].0@ {
            let i = choose|i: int| 0 <= i < u.len() && #[trigger] u[i].0@ == k;
            assert(i > 0);
            assert(t[i - 1] == u[i]);
            lemma_entry_in_map(u, i);
            lemma_entry_in_map(t, i - 1);
        }
    }
    assert(entries_map(u) =~= m);
}

/// A map from string keys to values, with insert, remove and lookup by key.
pub struct LocalMirror<V> {
    entries: Vec<(String, V)>,
}

impl<V> View for LocalMirror<V> {
    type V = Map<Seq<char>, V>;

    /// The key/value map this mirror holds.
    open spec fn view(&self) -> Map<Seq<char>, V> {
        self.contents()
    }
}

impl<V> LocalMirror<V> {
    #[verifier::type_invariant]
    closed spec fn inv(self) -> bool {
        keys_distinct(self.entries@)
    }

    /// The key/value map this mirror holds.
    pub closed spec fn contents(&self) -> Map<Seq<char>, V> {
        entries_map(self.entries@)
    }

    /// Creates an empty mirror.
    pub fn new() -> (m: Self)
        ensures
            m.view() == Map::<Seq<char>, V>::empty(),
    {
        let m = LocalMirror { entries: Vec::new() };
        assert(m.view() =~= Map::<Seq<char>, V>::empty());
        m
    }

    /// The index of the entry with key `key`, if any.
    fn find(&self, key: &str) -> (r: Option<usize>)
        ensures
            match r {
                Some(i) => i < self.entries@.len() && self.entries@[i as int].0@ == key@,
                None => !has_key(self.entries@, key@),
            },
    {
        let k = key.to_owned();
        let n = self.entries.len();
        let mut i: usize = 0;
        while i < n
            invariant
                n == self.entries@.len(),
                i <= n,
                k@ == key@,
                forall|j: int| 0 <= j < i ==> #[trigger] self.entries@[j].0@ != key@,
            decreases n - i,
        {
            if self.entries[i].0 == k {
                return Some(i);
            }
            i = i + 1;
        }
        None
    }

    /// The value stored under `key`, if any.
    pub fn get(&self, key: &str) -> (r: Option<&V>)
        ensures
            match r {
                Some(v) => self.view().contains_key(key@) && *v == self.view()[key@],
                None => !self.view().contains_key(key@),
            },
    {
        proof {
            use_type_invariant(self);
        }
        match self.find(key) {
            Some(i) => {
                proof {
                    lemma_entry_in_map(self.entries@, i as int);
                }
                Some(&self.entries[i].1)
            },
            None => None,
        }
    }

    /// Whether `key` is stored.
    pub fn contains_key(&self, key: &str) -> (r: bool)
        ensures
            r == self.view().contains_key(key@),
    {
        proof {
            use_type_invariant(self);
        }
        match self.find(key) {
            Some(i) => {
                proof {
                    lemma_entry_in_map(self.entries@, i as int);
                }
                true
            },
            None => false,
        }
    }

    /// Stores `value` under `key`, replacing any value stored there.
    pub fn insert(&mut self, key: String, value: V)
        ensures
            final(self).view() == old(self).view().insert(key@, value),
    {
        proof {
            use_type_invariant(&*self);
        }
        let ghost old_entries = self.entries@;
        let ghost k = key@;
        let found = self.find(key.as_str());
        let mut entries = Vec::new();
        std::mem::swap(&mut entries, &mut self.entries);
        match found {
            Some(i) => {
                entries.remove(i);
                proof {
                    assert forall|a: int, b: int|
                        0 <= a < b < entries@.len() implies #[trigger] entries@[a].0@
                        != #[trigger] entries@[b].0@ by {
                        let a0 = if a < i { a } else { a + 1 };
                        let b0 = if b < i { b } else { b + 1 };
                        assert(entries@[a] == old_entries[a0]);
                        assert(entries@[b] == old_entries[b0]);
                    }
                    assert forall|j: int| 0 <= j < entries@.len() implies #[trigger] entries@[j].0@
                        != k by {
                        let j0 = if j < i { j } else { j + 1 };
                        assert(entries@[j] == old_entries[j0]);
                        assert(old_entries[i as int].0@ == k);
                    }
                }
            },
            None => {},
        }
        let ghost mid = entries@;
        entries.push((key, value));
        proof {
            let s = entries@;
            assert(s.len() == mid.len() + 1);
            assert forall|a: int, b: int| 0 <= a < b < s.len() implies #[trigger] s[a].0@
                != #[trigger] s[b].0@ by {
                if b == s.len() - 1 {
                    assert(s[a] == mid[a]);
                    if found is None {
                        assert(old_entries == mid);
                        assert(old_entries[a].0@ != k);
                    }
                } else {
                    assert(s[a] == mid[a]);
                    assert(s[b] == mid[b]);
                }
            }
            // the map view of the new entries
            let target = entries_map(old_entries).insert(k, value);
            assert forall|kk: Seq<char>| #[trigger] entries_map(s).contains_key(kk)
                <==> target.contains_key(kk) by {
                if kk == k {
                    assert(s[s.len() - 1].0@ == k);
                } else {
                    if has_key(s, kk) {
                        let j = choose|j: int| 0 <= j < s.len() && #[trigger] s[j].0@ == kk;
                        assert(j < s.len() - 1);
                        assert(s[j] == mid[j]);
                        let j0 = match found {
                            Some(i) => if j < i { j } else { j + 1 },
                            None => j,
                        };
                        assert(mid[j] == old_entries[j0]);
                        assert(has_key(old_entries, kk));
                    }
                    if has_key(old_entries, kk) {
                        let j = choose|j: int|
                            0 <= j < old_entries.len() && #[trigger] old_entries[j].0@ == kk;
                        match found {
                            Some(i) => {
                                assert(j != i);
                                let j1 = if j < i { j } else { j - 1 };
                                assert(mid[j1] == old_entries[j]);
                                assert(s[j1] == mid[j1]);
                            },
                            None => {
                                assert(s[j] == old_entries[j]);
                            },
                        }
                    }
                }
            }
            assert forall|kk: Seq<char>| #[trigger] entries_map(s).contains_key(kk) implies entries_map(
                s,
            )[kk] == target[kk] by {
                if kk == k {
                    lemma_entry_in_map(s, s.len() - 1);
                } else {
                    let j = choose|j: int| 0 <= j < s.len() && #[trigger] s[j].0@ == kk;
                    lemma_entry_in_map(s, j);
                    assert(j < s.len() - 1);
                    assert(s[j] == mid[j]);
                    let j0 = match found {
                        Some(i) => if j < i { j } else { j + 1 },
                        None => j,
                    };
                    assert(mid[j] == old_entries[j0]);
                    lemma_entry_in_map(old_entries, j0);
                }
            }
            assert(entries_map(s) =~= target);
        }
        self.entries = entries;
    }

    /// Removes the entry stored under `key`, if any, and returns its value.
    pub fn remove(&mut self, key: &str) -> (r: Option<V>)
        ensures
            final(self).view() == old(self).view().remove(key@),
            match r {
                Some(v) => old(self).view().contains_key(key@) && v == old(self).view()[key@],
                None => !old(self).view().contains_key(key@),
            },
    {
        proof {
            use_type_invariant(&*self);
        }
        let ghost old_entries = self.entries@;
        let ghost k = key@;
        match self.find(key) {
            Some(i) => {
                let mut entries = Vec::new();
                std::mem::swap(&mut entries, &mut self.entries);
                let (_k, v) = entries.remove(i);
                proof {
                    lemma_entry_in_map(old_entries, i as int);
                    let s = entries@;
                    assert forall|a: int, b: int| 0 <= a < b < s.len() implies #[trigger] s[a].0@
                        != #[trigger] s[b].0@ by {
                        let a0 = if a < i { a } else { a + 1 };
                        let b0 = if b < i { b } else { b + 1 };
                        assert(s[a] == old_entries[a0]);
                        assert(s[b] == old_entries[b0]);
                    }
                    let target = entries_map(old_entries).remove(k);
                    assert forall|kk: Seq<char>| #[trigger] entries_map(s).contains_key(kk)
                        <==> target.contains_key(kk) by {
                        if has_key(s, kk) {
                            let j = choose|j: int| 0 <= j < s.len() && #[trigger] s[j].0@ == kk;
                            let j0 = if j < i { j } else { j + 1 };
                            assert(s[j] == old_entries[j0]);
                            assert(has_key(old_entries, kk));
                            if kk == k {
                                assert(old_entries[i as int].0@ == k);
                            }
                        }
                        if has_key(old_entries, kk) && kk != k {
                            let j = choose|j: int|
                                0 <= j < old_entries.len() && #[trigger] old_entries[j].0@ == kk;
                            assert(j != i);
                            let j1 = if j < i { j } else { j - 1 };
                            assert(s[j1] == old_entries[j]);
                        }
                    }
                    assert forall|kk: Seq<char>| #[trigger] entries_map(s).contains_key(kk)
                        implies entries_map(s)[kk] == target[kk] by {
                        let j = choose|j: int| 0 <= j < s.len() && #[trigger] s[j].0@ == kk;
                        lemma_entry_in_map(s, j);
                        let j0 = if j < i { j } else { j + 1 };
                        assert(s[j] == old_entries[j0]);
                        lemma_entry_in_map(old_entries, j0);
                    }
                    assert(entries_map(s) =~= target);
                }
                self.entries = entries;
                Some(v)
            },
            None => {
                assert(entries_map(old_entries) =~= entries_map(old_entries).remove(k));
                None
            },
        }
    }

    /// A mirror holding exactly `entries`, whose keys must be pairwise distinct.
    pub fn from_entries(entries: Vec<(String, V)>) -> (m: Self)
        requires
            keys_distinct(entries@),
        ensures
            m.view() == entries_map(entries@),
    {
        LocalMirror { entries }
    }

    /// The entries of this mirror; their keys are pairwise distinct.
    pub fn into_entries(self) -> (r: Vec<(String, V)>)
        ensures
            keys_distinct(r@),
            entries_map(r@) == self.view(),
    {
        proof {
            use_type_invariant(&self);
        }
        self.entries
    }

    /// Removes every entry.
    pub fn clear(&mut self)
        ensures
            final(self).view() == Map::<Seq<char>, V>::empty(),
    {
        self.entries = Vec::new();
        assert(entries_map(self.entries@) =~= Map::<Seq<char>, V>::empty());
    }

    /// The stored entries; their keys are pairwise distinct and they stand for this mirror's map.
    pub fn entries(&self) -> (r: &Vec<(String, V)>)
        ensures
            keys_distinct(r@),
            entries_map(r@) == self.view(),
    {
        proof {
            use_type_invariant(self);
        }
        &self.entries
    }

    /// The number of stored entries.
    pub fn len(&self) -> (r: usize)
        ensures
            r == self.view().len(),
    {
        proof {
            use_type_invariant(self);
            lemma_distinct_entries_len(self.entries@);
        }
        self.entries.len()
    }
}

/// The map of a list of entries with distinct keys has as many keys as the list has entries.
pub proof fn lemma_distinct_entries_len<V>(s: Seq<(String, V)>)
    requires
        keys_distinct(s),
    ensures
        entries_map(s).dom().finite(),
        entries_map(s).len() == s.len(),
    decreases s.len(),
{
    if s.len() == 0 {
        assert(entries_map(s).dom() =~= Set::<Seq<char>>::empty());
    } else {
        let t = s.drop_last();
        assert forall|a: int, b: int| 0 <= a < b < t.len() implies #[trigger] t[a].0@
            != #[trigger] t[b].0@ by {
            assert(t[a] == s[a]);
            assert(t[b] == s[b]);
        }
        lemma_distinct_entries_len(t);
        let k = s.last().0@;
        assert forall|kk: Seq<char>| #[trigger] entries_map(s).dom().contains(kk)
            <==> entries_map(t).dom().insert(k).contains(kk) by {
            if has_key(s, kk) && kk != k {
                let j = choose|j: int| 0 <= j < s.len() && #[trigger] s[j].0@ == kk;
                assert(j < s.len() - 1);
                assert(t[j] == s[j]);
            }
            if has_key(t, kk) {
                let j = choose|j: int| 0 <= j < t.len() && #[trigger] t[j].0@ == kk;
                assert(t[j] == s[j]);
            }
            if kk == k {
                assert(s[s.len() - 1].0@ == k);
            }
        }
        assert(entries_map(s).dom() =~= entries_map(t).dom().insert(k));
        assert(!entries_map(t).dom().contains(k)) by {
            if has_key(t, k) {
                let j = choose|j: int| 0 <= j < t.len() && #[trigger] t[j].0@ == k;
                assert(t[j] == s[j]);
                assert(s[j].0@ != s[s.len() - 1].0@);
            }
        }
    }
}

} // verus!
