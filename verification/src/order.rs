//! The order of text keys (character by character, by code point, a proper prefix first) and
//! the arrangement of a list of keyed entries in that order.

use crate::mirror::{entries_map, keys_distinct, lemma_entry_in_map};
use crate::text::chars_of;
use vstd::prelude::*;

verus! {

/// `a` comes before `b` when compared from index `i` on: at the first index where they differ,
/// `a` has the smaller code point, or `a` ends there and `b` does not.
pub open spec fn text_lt_from(a: Seq<char>, b: Seq<char>, i: nat) -> bool
    decreases a.len() - i,
{
    if i >= a.len() {
        i < b.len()
    } else if i >= b.len() {
        false
    } else if a[i as int] == b[i as int] {
        text_lt_from(a, b, i + 1)
    } else {
        (a[i as int] as int) < (b[i as int] as int)
    }
}

/// `a` comes strictly before `b` in key order.
pub open spec fn text_lt(a: Seq<char>, b: Seq<char>) -> bool {
    text_lt_from(a, b, 0)
}

/// The keys of `s` are strictly ascending (so, in particular, pairwise distinct).
pub open spec fn keys_ascending<V>(s: Seq<(String, V)>) -> bool {
    forall|i: int, j: int| 0 <= i < j < s.len() ==> text_lt(#[trigger] s[i].0@, #[trigger] s[j].0@)
}

proof fn lemma_lt_from_irreflexive(a: Seq<char>, i: nat)
    ensures
        !text_lt_from(a, a, i),
    decreases a.len() - i,
{
    if i < a.len() {
        lemma_lt_from_irreflexive(a, i + 1);
    }
}

proof fn lemma_lt_from_transitive(a: Seq<char>, b: Seq<char>, c: Seq<char>, i: nat)
    requires
        text_lt_from(a, b, i),
        text_lt_from(b, c, i),
    ensures
        text_lt_from(a, c, i),
    decreases a.len() - i,
{
    if i < a.len() && i < b.len() && i < c.len() {
        if a[i as int] == b[i as int] && b[i as int] == c[i as int] {
            lemma_lt_from_transitive(a, b, c, i + 1);
        }
    }
}

proof fn lemma_lt_from_total(a: Seq<char>, b: Seq<char>, i: nat)
    requires
        i <= a.len(),
        i <= b.len(),
    ensures
        text_lt_from(a, b, i) || text_lt_from(b, a, i) || a.subrange(i as int, a.len() as int)
            =~= b.subrange(i as int, b.len() as int),
    decreases a.len() - i,
{
    if i < a.len() && i < b.len() && a[i as int] != b[i as int] {
        assert((a[i as int] as int) != (b[i as int] as int));
    }
    if i < a.len() && i < b.len() && a[i as int] == b[i as int] {
        lemma_lt_from_total(a, b, i + 1);
        if a.subrange(i + 1 as int, a.len() as int) =~= b.subrange(i + 1 as int, b.len() as int) {
            assert(a.subrange(i as int, a.len() as int) =~= b.subrange(i as int, b.len() as int))
                by {
                assert forall|j: int| 0 <= j < a.len() - i implies a.subrange(
                    i as int,
                    a.len() as int,
                )[j] == b.subrange(i as int, b.len() as int)[j] by {
                    if j > 0 {
                        assert(a.subrange(i + 1 as int, a.len() as int)[j - 1] == b.subrange(
                            i + 1 as int,
                            b.len() as int,
                        )[j - 1]);
                    }
                }
            }
        }
    }
}

/// No key comes before itself.
pub proof fn lemma_text_lt_irreflexive(a: Seq<char>)
    ensures
        !text_lt(a, a),
{
    lemma_lt_from_irreflexive(a, 0);
}

/// Key order is transitive.
pub proof fn lemma_text_lt_transitive(a: Seq<char>, b: Seq<char>, c: Seq<char>)
    requires
        text_lt(a, b),
        text_lt(b, c),
    ensures
        text_lt(a, c),
{
    lemma_lt_from_transitive(a, b, c, 0);
}

/// Of two different keys, one comes before the other.
pub proof fn lemma_text_lt_total(a: Seq<char>, b: Seq<char>)
    requires
        a != b,
    ensures
        text_lt(a, b) || text_lt(b, a),
{
    lemma_lt_from_total(a, b, 0);
    assert(a.subrange(0, a.len() as int) =~= a);
    assert(b.subrange(0, b.len() as int) =~= b);
}

/// Key order is ascending: a proper prefix comes first, and otherwise the key with the smaller
/// character at the first position where the two differ.
pub proof fn lemma_text_lt_ascending(a: Seq<char>, b: Seq<char>, i: int)
    requires
        0 <= i <= a.len(),
        i <= b.len(),
        forall|j: int| 0 <= j < i ==> a[j] == b[j],
    ensures
        i == a.len() && i < b.len() ==> text_lt(a, b),
        i < a.len() && i < b.len() && (a[i] as int) < (b[i] as int) ==> text_lt(a, b),
{
    lemma_lt_from_prefix(a, b, i as nat);
}

proof fn lemma_lt_from_prefix(a: Seq<char>, b: Seq<char>, i: nat)
    requires
        i <= a.len(),
        i <= b.len(),
        forall|j: int| 0 <= j < i ==> a[j] == b[j],
    ensures
        text_lt_from(a, b, 0) == text_lt_from(a, b, i),
    decreases i,
{
    if i > 0 {
        lemma_lt_from_prefix(a, b, (i - 1) as nat);
        assert(a[i - 1] == b[i - 1]);
    }
}

/// A list whose keys ascend has pairwise distinct keys.
pub proof fn lemma_ascending_distinct<V>(s: Seq<(String, V)>)
    requires
        keys_ascending(s),
    ensures
        keys_distinct(s),
{
    assert forall|i: int, j: int| 0 <= i < j < s.len() implies #[trigger] s[i].0@
        != #[trigger] s[j].0@ by {
        lemma_text_lt_irreflexive(s[i].0@);
    }
}

/// Whether `a` comes strictly before `b` in key order.
pub fn text_less(a: &str, b: &str) -> (r: bool)
    ensures
        r == text_lt(a@, b@),
{
    let ca = chars_of(a);
    let cb = chars_of(b);
    let mut i: usize = 0;
    while i < ca.len() && i < cb.len() && ca[i] == cb[i]
        invariant
            i <= ca.len(),
            i <= cb.len(),
            ca@ == a@,
            cb@ == b@,
            text_lt(a@, b@) == text_lt_from(a@, b@, i as nat),
        decreases ca.len() - i,
    {
        i = i + 1;
    }
    if i < ca.len() && i < cb.len() {
        ca[i] < cb[i]
    } else {
        i >= ca.len() && i < cb.len()
    }
}

/// Inserting at `p` an entry whose key lies strictly between those before `p` and those from `p`
/// on keeps the keys ascending, and adds exactly that entry.
proof fn lemma_insert_ascending<V>(s: Seq<(String, V)>, p: int, e: (String, V))
    requires
        keys_ascending(s),
        0 <= p <= s.len(),
        forall|a: int| 0 <= a < p ==> text_lt(#[trigger] s[a].0@, e.0@),
        p < s.len() ==> !text_lt(s[p].0@, e.0@),
        forall|a: int| 0 <= a < s.len() ==> #[trigger] s[a].0@ != e.0@,
    ensures
        keys_ascending(s.insert(p, e)),
        forall|x: (String, V)| #[trigger] s.insert(p, e).contains(x) <==> (s.contains(x) || x == e),
{
    let t = s.insert(p, e);
    if p < s.len() {
        lemma_text_lt_total(s[p].0@, e.0@);
    }
    assert forall|i: int, j: int| 0 <= i < j < t.len() implies text_lt(
        #[trigger] t[i].0@,
        #[trigger] t[j].0@,
    ) by {
        if j == p {
            assert(t[i] == s[i]);
        } else if i == p {
            assert(t[j] == s[j - 1]);
            if j - 1 > p {
                lemma_text_lt_transitive(e.0@, s[p].0@, s[j - 1].0@);
            }
        } else if j < p {
            assert(t[i] == s[i] && t[j] == s[j]);
        } else if i < p {
            assert(t[i] == s[i] && t[j] == s[j - 1]);
        } else {
            assert(t[i] == s[i - 1] && t[j] == s[j - 1]);
        }
    }
    assert forall|x: (String, V)| #[trigger] t.contains(x) <==> (s.contains(x) || x == e) by {
        if t.contains(x) {
            let k = choose|k: int| 0 <= k < t.len() && t[k] == x;
            if k < p {
                assert(s[k] == x);
            } else if k > p {
                assert(s[k - 1] == x);
            }
        }
        if s.contains(x) {
            let k = choose|k: int| 0 <= k < s.len() && s[k] == x;
            if k < p {
                assert(t[k] == x);
            } else {
                assert(t[k + 1] == x);
            }
        }
        if x == e {
            assert(t[p] == x);
        }
    }
}

/// Two lists with distinct keys and the same entries stand for the same map.
proof fn lemma_same_entries_same_map<V>(s1: Seq<(String, V)>, s2: Seq<(String, V)>)
    requires
        keys_distinct(s1),
        keys_distinct(s2),
        forall|x: (String, V)| #[trigger] s1.contains(x) <==> s2.contains(x),
    ensures
        entries_map(s1) == entries_map(s2),
{
    assert forall|k: Seq<char>| #[trigger] entries_map(s1).contains_key(k) implies entries_map(
        s2,
    ).contains_key(k) && entries_map(s2)[k] == entries_map(s1)[k] by {
        let i = choose|i: int| 0 <= i < s1.len() && #[trigger] s1[i].0@ == k;
        assert(s1.contains(s1[i]));
        let j = choose|j: int| 0 <= j < s2.len() && s2[j] == s1[i];
        lemma_entry_in_map(s1, i);
        lemma_entry_in_map(s2, j);
    }
    assert forall|k: Seq<char>| #[trigger] entries_map(s2).contains_key(k) implies entries_map(
        s1,
    ).contains_key(k) by {
        let j = choose|j: int| 0 <= j < s2.len() && #[trigger] s2[j].0@ == k;
        assert(s2.contains(s2[j]));
        assert(s1.contains(s2[j]));
        let i = choose|i: int| 0 <= i < s1.len() && s1[i] == s2[j];
        assert(s1[i].0@ == k);
    }
    assert(entries_map(s1) =~= entries_map(s2));
}

/// Arranges entries with distinct keys in ascending key order: the result holds the same
/// entries, and so stands for the same map.
pub fn sort_by_key<V>(items: Vec<(String, V)>) -> (r: Vec<(String, V)>)
    requires
        keys_distinct(items@),
    ensures
        r.len() == items.len(),
        keys_ascending(r@),
        forall|x: (String, V)| #[trigger] r@.contains(x) <==> items@.contains(x),
        entries_map(r@) == entries_map(items@),
{
    let ghost orig = items@;
    let ghost n = items.len() as int;
    let mut rest = items;
    let mut out: Vec<(String, V)> = Vec::new();
    while rest.len() > 0
        invariant
            rest@ == orig.subrange(0, rest.len() as int),
            rest.len() <= n,
            n == orig.len(),
            out.len() + rest.len() == n,
            keys_distinct(orig),
            keys_ascending(out@),
            forall|x: (String, V)| #[trigger]
                out@.contains(x) <==> orig.subrange(rest.len() as int, n).contains(x),
        decreases rest.len(),
    {
        let ghost m = rest.len() as int;
        let e = rest.pop().unwrap();
        assert(e == orig[m - 1]);
        let mut p: usize = 0;
        while p < out.len() && text_less(out[p].0.as_str(), e.0.as_str())
            invariant
                p <= out.len(),
                forall|a: int| 0 <= a < p ==> text_lt(#[trigger] out@[a].0@, e.0@),
            decreases out.len() - p,
        {
            p = p + 1;
        }
        proof {
            assert forall|a: int| 0 <= a < out@.len() implies #[trigger] out@[a].0@ != e.0@ by {
                assert(out@.contains(out@[a]));
                let j = choose|j: int| 0 <= j < n - m && orig.subrange(m, n)[j] == out@[a];
                assert(orig[m + j] == out@[a]);
            }
            lemma_insert_ascending(out@, p as int, e);
            assert forall|x: (String, V)| #[trigger] orig.subrange(m - 1, n).contains(x) <==> (
            orig.subrange(m, n).contains(x) || x == e) by {
                let lo = orig.subrange(m - 1, n);
                let hi = orig.subrange(m, n);
                if lo.contains(x) {
                    let k = choose|k: int| 0 <= k < lo.len() && lo[k] == x;
                    if k > 0 {
                        assert(hi[k - 1] == x);
                    }
                }
                if hi.contains(x) {
                    let k = choose|k: int| 0 <= k < hi.len() && hi[k] == x;
                    assert(lo[k + 1] == x);
                }
                if x == e {
                    assert(lo[0] == x);
                }
            }
        }
        out.insert(p, e);
    }
    proof {
        assert(orig.subrange(0, n) =~= orig);
        lemma_ascending_distinct(out@);
        lemma_same_entries_same_map(out@, orig);
    }
    out
}

} // verus!
