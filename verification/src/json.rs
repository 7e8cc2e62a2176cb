//! JSON values as the library reads them, and the RFC 7386 (JSON Merge Patch) deep-merge that
//! object-valued caches apply to patch events.

use vstd::prelude::*;
use crate::mirror::{entries_map, has_key, keys_distinct, lemma_entry_in_map, value_of, LocalMirror};
use crate::model::CacheUpdateEvent;
use crate::text::{
    chars_of, hex_digit, hex_digit_of, i64_string, int_text, lemma_parse_int_text, parse_i64,
    parse_i64_spec, push_char, push_str, text_is,
};

verus! {

/// A JSON number: its text as it appeared, its value when it is an integer that fits in `i64`,
/// and otherwise its value as a float truncated (saturating) to `i64`.
#[derive(Clone, Debug)]
pub struct JsonNumber {
    pub text: String,
    pub int_value: Option<i64>,
    pub truncated: i64,
}

/// A JSON value. An object is a list of fields; in a well-formed value (see [`json_wf`]) the
/// field names of every object are pairwise distinct.
#[derive(Debug)]
pub enum JsonValue {
    Null,
    Bool(bool),
    Number(JsonNumber),
    Str(String),
    Array(Vec<JsonValue>),
    Object(Vec<(String, JsonValue)>),
}

/// The parts of a number agree: its integer value is what its text parses to as an `i64`, and
/// when there is one, the text is that integer's own decimal spelling and the truncated value is
/// the integer itself.
pub open spec fn number_wf(n: JsonNumber) -> bool {
    &&& n.int_value == parse_i64_spec(n.text@)
    &&& n.int_value matches Some(i) ==> n.text@ == int_text(i as int) && n.truncated == i
}

/// Every number reachable through object fields and array items is well formed (see
/// [`number_wf`]), and every object so reachable has pairwise distinct field names.
pub open spec fn json_wf(v: JsonValue) -> bool
    decreases v,
{
    match v {
        JsonValue::Number(n) => number_wf(n),
        JsonValue::Object(fields) => {
            &&& keys_distinct(fields@)
            &&& forall|i: int| 0 <= i < fields@.len() ==> json_wf(#[trigger] fields@[i].1)
        },
        JsonValue::Array(items) => forall|i: int| 0 <= i < items@.len() ==> json_wf(#[trigger] items@[i]),
        _ => true,
    }
}

/// The fields of `v` when it is an object; no fields otherwise.
pub open spec fn obj_fields(v: JsonValue) -> Seq<(String, JsonValue)> {
    match v {
        JsonValue::Object(f) => f@,
        _ => Seq::empty(),
    }
}

/// The fields of the value stored under `k` in `base`, or no fields when there is none.
pub open spec fn base_of(base: Seq<(String, JsonValue)>, k: Seq<char>) -> Seq<(String, JsonValue)> {
    if has_key(base, k) {
        obj_fields(value_of(base, k))
    } else {
        Seq::empty()
    }
}

/// In the merged object `m`, the field `k` is what merging the patch field value `v` gives: a
/// `null` deletes it, an object is merged into the base's value recursively, and any other value
/// replaces it.
pub open spec fn field_ok(
    base: Seq<(String, JsonValue)>,
    k: Seq<char>,
    v: JsonValue,
    m: Map<Seq<char>, JsonValue>,
) -> bool
    decreases v, 1int,
{
    match v {
        JsonValue::Null => !m.contains_key(k),
        JsonValue::Object(_) => m.contains_key(k) && is_merge(base_of(base, k), v, m[k]),
        _ => m.contains_key(k) && m[k] == v,
    }
}

/// `r` is the result of merging the patch `p` into an object with fields `base` (RFC 7386): a
/// non-object patch is the result itself; an object patch gives an object with distinct field
/// names in which every patch field is merged as [`field_ok`] says and every other field is the
/// base's.
pub open spec fn is_merge(base: Seq<(String, JsonValue)>, p: JsonValue, r: JsonValue) -> bool
    decreases p, 0int,
{
    match p {
        JsonValue::Object(pf) => match r {
            JsonValue::Object(rf) => {
                &&& keys_distinct(rf@)
                &&& forall|i: int|
                    0 <= i < pf@.len() ==> field_ok(
                        base,
                        #[trigger] pf@[i].0@,
                        pf@[i].1,
                        entries_map(rf@),
                    )
                &&& forall|k: Seq<char>|
                    #![trigger entries_map(rf@).contains_key(k)]
                    #![trigger has_key(base, k)]
                    !has_key(pf@, k) ==> (entries_map(rf@).contains_key(k) == has_key(base, k)
                        && (has_key(base, k) ==> entries_map(rf@)[k] == value_of(base, k)))
            },
            _ => false,
        },
        _ => r == p,
    }
}

/// Deep-merges `patch` into `target` (RFC 7386): nested objects merge recursively, scalars and
/// arrays replace, a `null` field deletes the field, and a non-object patch replaces the target.
pub fn deep_merge(target: JsonValue, patch: JsonValue) -> (r: JsonValue)
    requires
        json_wf(target),
        json_wf(patch),
    ensures
        json_wf(r),
        is_merge(obj_fields(target), patch, r),
    decreases patch,
{
    let ghost p0 = patch;
    let ghost base = obj_fields(target);
    proof {
        reveal_with_fuel(json_wf, 2);
        if target is Object {
            assert(base == target->Object_0@);
            assert(keys_distinct(base));
            assert(forall|j: int| 0 <= j < base.len() ==> json_wf(#[trigger] base[j].1));
        } else {
            assert(base =~= Seq::<(String, JsonValue)>::empty());
        }
    }
    match patch {
        JsonValue::Object(pf) => {
            let mut acc: LocalMirror<JsonValue> = match target {
                JsonValue::Object(tf) => LocalMirror::from_entries(tf),
                _ => {
                    let m = LocalMirror::new();
                    assert(entries_map(base) =~= Map::<Seq<char>, JsonValue>::empty());
                    m
                },
            };
            let ghost pfs = pf@;
            proof {
                reveal_with_fuel(json_wf, 2);
                assert(keys_distinct(pfs));
                assert(forall|j: int| 0 <= j < pfs.len() ==> json_wf(#[trigger] pfs[j].1));
            }
            let n = pf.len();
            let mut rest = pf;
            let mut i: usize = n;
            proof {
                assert(pfs.subrange(i as int, n as int) =~= Seq::<(String, JsonValue)>::empty());
                assert forall|k: Seq<char>| #[trigger] acc.view().contains_key(k) implies json_wf(
                    acc.view()[k],
                ) by {
                    let j = choose|j: int| 0 <= j < base.len() && #[trigger] base[j].0@ == k;
                    lemma_entry_in_map(base, j);
                }
            }
            while i > 0
                invariant
                    i <= n,
                    n == pfs.len(),
                    p0 == JsonValue::Object(pf),
                    p0 == patch,
                    pfs == pf@,
                    json_wf(p0),
                    json_wf(target),
                    base == obj_fields(target),
                    keys_distinct(base),
                    forall|j: int| 0 <= j < base.len() ==> json_wf(#[trigger] base[j].1),
                    keys_distinct(pfs),
                    forall|j: int| 0 <= j < pfs.len() ==> json_wf(#[trigger] pfs[j].1),
                    rest@ == pfs.subrange(0, i as int),
                    forall|k: Seq<char>| #[trigger]
                        acc.view().contains_key(k) ==> json_wf(acc.view()[k]),
                    forall|j: int|
                        i <= j < n ==> field_ok(base, #[trigger] pfs[j].0@, pfs[j].1, acc.view()),
                    forall|k: Seq<char>|
                        #![trigger acc.view().contains_key(k)]
                        #![trigger has_key(base, k)]
                        !has_key(pfs.subrange(i as int, n as int), k) ==> (acc.view().contains_key(k)
                            == has_key(base, k) && (has_key(base, k) ==> acc.view()[k] == value_of(
                            base,
                            k,
                        ))),
                decreases i,
            {
                let ghost acc0 = acc.view();
                let ghost j0 = (i - 1) as int;
                let ghost k0 = pfs[j0].0@;
                let ghost v0 = pfs[j0].1;
                let popped = rest.pop();
                assert(rest@ == pfs.subrange(0, j0));
                let (k, v) = match popped {
                    Some(kv) => kv,
                    None => {
                        assert(false);
                        return JsonValue::Null;
                    },
                };
                assert(k@ == k0 && v == v0);
                proof {
                    // k0 is not among the processed fields, so the accumulator agrees with the base
                    assert(!has_key(pfs.subrange(i as int, n as int), k0)) by {
                        if has_key(pfs.subrange(i as int, n as int), k0) {
                            let q = choose|q: int|
                                0 <= q < n - i && #[trigger] pfs.subrange(i as int, n as int)[q].0@
                                    == k0;
                            assert(pfs[i + q].0@ == k0);
                        }
                    }
                    assert(json_wf(v0));
                }
                i = i - 1;
                match v {
                    JsonValue::Null => {
                        acc.remove(k.as_str());
                    },
                    JsonValue::Object(vf) => {
                        let existing = match acc.remove(k.as_str()) {
                            Some(e) => e,
                            None => {
                                let e = JsonValue::Object(Vec::new());
                                assert(obj_fields(e) =~= Seq::<(String, JsonValue)>::empty());
                                e
                            },
                        };
                        assert(obj_fields(existing) == base_of(base, k0));
                        let sub = JsonValue::Object(vf);
                        assert(sub == pfs[j0].1);
                        proof {
                            assert(decreases_to!(p0 => pf));
                            assert(decreases_to!(pf => pf@));
                            assert(decreases_to!(pf@ => pf@[j0]));
                            assert(decreases_to!(pf@[j0] => pf@[j0].1));
                            assert(decreases_to!(p0 => pf@[j0].1));
                        }
                        assert(decreases_to!(patch => sub));
                        let merged = deep_merge(existing, sub);
                        acc.insert(k, merged);
                    },
                    other => {
                        acc.insert(k, other);
                    },
                }
                proof {
                    let m = acc.view();
                    assert(field_ok(base, k0, v0, m));
                    assert forall|j: int| i <= j < n implies field_ok(
                        base,
                        #[trigger] pfs[j].0@,
                        pfs[j].1,
                        m,
                    ) by {
                        if j > j0 {
                            assert(pfs[j].0@ != k0);
                            assert(field_ok(base, pfs[j].0@, pfs[j].1, acc0));
                        }
                    }
                    assert forall|kk: Seq<char>|
                        !has_key(pfs.subrange(i as int, n as int), kk) implies (#[trigger] m.contains_key(
                        kk,
                    ) == has_key(base, kk) && (has_key(base, kk) ==> m[kk] == value_of(base, kk))) by {
                        assert(kk != k0) by {
                            assert(pfs.subrange(i as int, n as int)[0].0@ == k0);
                        }
                        assert(acc0.contains_key(kk) == m.contains_key(kk));
                        if has_key(pfs.subrange(i + 1, n as int), kk) {
                            let q = choose|q: int|
                                0 <= q < n - i - 1 && #[trigger] pfs.subrange(
                                    i + 1,
                                    n as int,
                                )[q].0@ == kk;
                            assert(pfs.subrange(i as int, n as int)[q + 1].0@ == kk);
                        }
                    }
                }
            }
            proof {
                assert(pfs.subrange(0, n as int) =~= pfs);
            }
            let rf = acc.into_entries();
            let r = JsonValue::Object(rf);
            proof {
                reveal_with_fuel(json_wf, 2);
                assert forall|j: int| 0 <= j < rf@.len() implies json_wf(#[trigger] rf@[j].1) by {
                    lemma_entry_in_map(rf@, j);
                }
            }
            r
        },
        other => other,
    }
}

/// Whether the parts of a number agree (see [`number_wf`]).
pub fn number_is_wf(n: &JsonNumber) -> (r: bool)
    ensures
        r == number_wf(*n),
{
    match n.int_value {
        Some(i) => {
            let t = i64_string(i);
            proof {
                lemma_parse_int_text(i);
            }
            text_is(&n.text, t.as_str()) && n.truncated == i
        },
        None => parse_i64(n.text.as_str()).is_none(),
    }
}

/// Whether the field names of `fields` are pairwise distinct.
fn names_distinct(fields: &Vec<(String, JsonValue)>) -> (r: bool)
    ensures
        r == keys_distinct(fields@),
{
    let n = fields.len();
    let mut j: usize = 0;
    while j < n
        invariant
            n == fields@.len(),
            j <= n,
            forall|a: int, b: int| 0 <= a < b < j ==> #[trigger] fields@[a].0@ != #[trigger] fields@[b].0@,
        decreases n - j,
    {
        let mut i: usize = 0;
        while i < j
            invariant
                n == fields@.len(),
                i <= j < n,
                forall|a: int| 0 <= a < i ==> #[trigger] fields@[a].0@ != fields@[j as int].0@,
            decreases j - i,
        {
            if text_is(&fields[i].0, fields[j].0.as_str()) {
                assert(!keys_distinct(fields@)) by {
                    assert(fields@[i as int].0@ == fields@[j as int].0@);
                }
                return false;
            }
            i = i + 1;
        }
        j = j + 1;
    }
    true
}

/// Whether `v` is well formed (see [`json_wf`]).
pub fn json_is_wf(v: &JsonValue) -> (r: bool)
    ensures
        r == json_wf(*v),
    decreases v,
{
    match v {
        JsonValue::Number(n) => number_is_wf(n),
        JsonValue::Array(items) => {
            let n = items.len();
            let mut i: usize = 0;
            while i < n
                invariant
                    n == items@.len(),
                    i <= n,
                    *v == JsonValue::Array(*items),
                    forall|a: int| 0 <= a < i ==> json_wf(#[trigger] items@[a]),
                decreases n - i,
            {
                proof {
                    assert(decreases_to!(*v => (*v)->Array_0));
                    assert((*v)->Array_0 == *items);
                    assert(decreases_to!(*items => items@));
                    assert(decreases_to!(items@ => items@[i as int]));
                }
                if !json_is_wf(&items[i]) {
                    return false;
                }
                i = i + 1;
            }
            true
        },
        JsonValue::Object(fields) => {
            if !names_distinct(fields) {
                return false;
            }
            let n = fields.len();
            let mut i: usize = 0;
            while i < n
                invariant
                    n == fields@.len(),
                    i <= n,
                    *v == JsonValue::Object(*fields),
                    forall|a: int| 0 <= a < i ==> json_wf(#[trigger] fields@[a].1),
                decreases n - i,
            {
                proof {
                    assert(decreases_to!(*v => (*v)->Object_0));
                    assert((*v)->Object_0 == *fields);
                    assert(decreases_to!(*fields => fields@));
                    assert(decreases_to!(fields@ => fields@[i as int]));
                    assert(decreases_to!(fields@[i as int] => fields@[i as int].1));
                }
                if !json_is_wf(&fields[i].1) {
                    return false;
                }
                i = i + 1;
            }
            true
        },
        _ => true,
    }
}

/// Merge patches are idempotent: the result of merging a patch is already a fixed point of
/// merging that same patch again.
pub proof fn lemma_merge_idempotent(base: Seq<(String, JsonValue)>, p: JsonValue, r: JsonValue)
    requires
        is_merge(base, p, r),
    ensures
        is_merge(obj_fields(r), p, r),
    decreases p,
{
    match p {
        JsonValue::Object(pf) => {
            let rf = r->Object_0;
            let m = entries_map(rf@);
            assert forall|i: int| 0 <= i < pf@.len() implies field_ok(
                rf@,
                #[trigger] pf@[i].0@,
                pf@[i].1,
                m,
            ) by {
                let k = pf@[i].0@;
                let v = pf@[i].1;
                assert(field_ok(base, k, v, m));
                if v is Object {
                    lemma_merge_idempotent(base_of(base, k), v, m[k]);
                    assert(base_of(rf@, k) == obj_fields(m[k]));
                }
            }
        },
        _ => {},
    }
}

/// `a` and `b` are equal as JSON values: objects have the same field names and equal values
/// under each (field order does not matter), arrays have equal items in the same order, and all
/// other values are identical.
pub open spec fn json_equiv(a: JsonValue, b: JsonValue) -> bool
    decreases a,
{
    match a {
        JsonValue::Object(fa) => match b {
            JsonValue::Object(fb) => {
                &&& forall|k: Seq<char>| #[trigger] has_key(fa@, k) <==> has_key(fb@, k)
                &&& forall|i: int, j: int|
                    0 <= i < fa@.len() && 0 <= j < fb@.len() && #[trigger] fa@[i].0@
                        == #[trigger] fb@[j].0@ ==> json_equiv(fa@[i].1, fb@[j].1)
            },
            _ => false,
        },
        JsonValue::Array(xa) => match b {
            JsonValue::Array(xb) => {
                &&& xa@.len() == xb@.len()
                &&& forall|i: int| 0 <= i < xa@.len() ==> json_equiv(#[trigger] xa@[i], xb@[i])
            },
            _ => false,
        },
        _ => a == b,
    }
}

/// Every well-formed value equals itself as a JSON value.
pub proof fn lemma_json_equiv_refl(a: JsonValue)
    requires
        json_wf(a),
    ensures
        json_equiv(a, a),
    decreases a,
{
    match a {
        JsonValue::Object(fa) => {
            assert forall|i: int, j: int|
                0 <= i < fa@.len() && 0 <= j < fa@.len() && #[trigger] fa@[i].0@
                    == #[trigger] fa@[j].0@ implies json_equiv(fa@[i].1, fa@[j].1) by {
                if i != j {
                    if i < j {
                        assert(fa@[i].0@ != fa@[j].0@);
                    } else {
                        assert(fa@[j].0@ != fa@[i].0@);
                    }
                }
                assert(json_wf(fa@[i].1));
                lemma_json_equiv_refl(fa@[i].1);
            }
        },
        JsonValue::Array(xa) => {
            assert forall|i: int| 0 <= i < xa@.len() implies json_equiv(#[trigger] xa@[i], xa@[i]) by {
                lemma_json_equiv_refl(xa@[i]);
            }
        },
        _ => {},
    }
}

/// The fields of an object have distinct names and well-formed values.
pub open spec fn fields_wf(b: Seq<(String, JsonValue)>) -> bool {
    &&& keys_distinct(b)
    &&& forall|i: int| 0 <= i < b.len() ==> json_wf(#[trigger] b[i].1)
}

proof fn lemma_base_of_wf(b: Seq<(String, JsonValue)>, k: Seq<char>)
    requires
        fields_wf(b),
    ensures
        fields_wf(base_of(b, k)),
        has_key(b, k) ==> json_wf(value_of(b, k)),
{
    if has_key(b, k) {
        let i = choose|i: int| 0 <= i < b.len() && #[trigger] b[i].0@ == k;
        lemma_entry_in_map(b, i);
        let v = value_of(b, k);
        assert(json_wf(v));
        reveal_with_fuel(json_wf, 2);
    } else {
        assert(base_of(b, k) =~= Seq::<(String, JsonValue)>::empty());
    }
}

/// A merge result is determined, as a JSON value, by the base and the patch: two results of
/// merging the same patch into the same base are equal as JSON values.
pub proof fn lemma_merge_unique(b: Seq<(String, JsonValue)>, p: JsonValue, r1: JsonValue, r2: JsonValue)
    requires
        fields_wf(b),
        json_wf(p),
        is_merge(b, p, r1),
        is_merge(b, p, r2),
    ensures
        json_equiv(r1, r2),
    decreases p,
{
    match p {
        JsonValue::Object(pf) => {
            let rf1 = r1->Object_0;
            let rf2 = r2->Object_0;
            let m1 = entries_map(rf1@);
            let m2 = entries_map(rf2@);
            assert(keys_distinct(pf@));
            // a field name is present in one result exactly when it is present in the other
            assert forall|k: Seq<char>| m1.contains_key(k) == m2.contains_key(k) by {
                if has_key(pf@, k) {
                    let q = choose|q: int| 0 <= q < pf@.len() && #[trigger] pf@[q].0@ == k;
                    assert(field_ok(b, pf@[q].0@, pf@[q].1, m1));
                    assert(field_ok(b, pf@[q].0@, pf@[q].1, m2));
                } else {
                    assert(m1.contains_key(k) == has_key(b, k));
                    assert(m2.contains_key(k) == has_key(b, k));
                }
            }
            assert forall|k: Seq<char>| #[trigger] has_key(rf1@, k) <==> has_key(rf2@, k) by {
                assert(m1.contains_key(k) == has_key(rf1@, k));
                assert(m2.contains_key(k) == has_key(rf2@, k));
            }
            assert forall|i: int, j: int|
                0 <= i < rf1@.len() && 0 <= j < rf2@.len() && #[trigger] rf1@[i].0@
                    == #[trigger] rf2@[j].0@ implies json_equiv(rf1@[i].1, rf2@[j].1) by {
                let k = rf1@[i].0@;
                lemma_entry_in_map(rf1@, i);
                lemma_entry_in_map(rf2@, j);
                lemma_base_of_wf(b, k);
                if has_key(pf@, k) {
                    let q = choose|q: int| 0 <= q < pf@.len() && #[trigger] pf@[q].0@ == k;
                    let v = pf@[q].1;
                    assert(field_ok(b, k, v, m1));
                    assert(field_ok(b, k, v, m2));
                    assert(json_wf(v));
                    if v is Object {
                        assert(decreases_to!(p => pf));
                        assert(decreases_to!(pf => pf@));
                        assert(decreases_to!(pf@ => pf@[q]));
                        assert(decreases_to!(pf@[q] => pf@[q].1));
                        lemma_merge_unique(base_of(b, k), v, m1[k], m2[k]);
                    } else {
                        lemma_json_equiv_refl(v);
                    }
                } else {
                    assert(has_key(b, k));
                    lemma_json_equiv_refl(value_of(b, k));
                }
            }
        },
        _ => {
            lemma_json_equiv_refl(p);
        },
    }
}

/// Merge patches are idempotent: merging a patch into the result of merging that same patch
/// gives back an equal JSON value.
pub proof fn lemma_merge_twice(t: JsonValue, p: JsonValue, r1: JsonValue, r2: JsonValue)
    requires
        json_wf(t),
        json_wf(p),
        json_wf(r1),
        is_merge(obj_fields(t), p, r1),
        is_merge(obj_fields(r1), p, r2),
    ensures
        json_equiv(r2, r1),
{
    lemma_merge_idempotent(obj_fields(t), p, r1);
    reveal_with_fuel(json_wf, 2);
    if !(r1 is Object) {
        assert(obj_fields(r1) =~= Seq::<(String, JsonValue)>::empty());
    }
    lemma_merge_unique(obj_fields(r1), p, r2, r1);
}

/// Every value of `m` is well formed.
pub open spec fn values_wf(m: Map<Seq<char>, JsonValue>) -> bool {
    forall|k: Seq<char>| #[trigger] m.contains_key(k) ==> json_wf(m[k])
}

/// `new_m` is the object mirror `m` after applying the event `e`, whose item value, parsed as
/// JSON, is `parsed`: `ADD_ITEM` stores an object value, `PATCH_ITEM` deep-merges an object
/// delta into the stored object (or into an empty object when none is stored), `REMOVE_ITEM`
/// removes the key, `CLEAR_CACHE` and `DELETE_CACHE` empty the mirror; an event without key, or
/// whose value is absent or not a JSON object, and every other event, leaves the mirror unchanged.
pub open spec fn object_update_ok(
    m: Map<Seq<char>, JsonValue>,
    e: CacheUpdateEvent,
    parsed: Option<JsonValue>,
    new_m: Map<Seq<char>, JsonValue>,
) -> bool {
    if e.event_type@ == "ADD_ITEM"@ {
        match (e.item_key, parsed) {
            (Some(k), Some(v)) => if v is Object {
                new_m == m.insert(k@, v)
            } else {
                new_m == m
            },
            _ => new_m == m,
        }
    } else if e.event_type@ == "PATCH_ITEM"@ {
        match (e.item_key, parsed) {
            (Some(k), Some(d)) => if d is Object {
                &&& new_m.contains_key(k@)
                &&& new_m == m.insert(k@, new_m[k@])
                &&& is_merge(
                    if m.contains_key(k@) {
                        obj_fields(m[k@])
                    } else {
                        Seq::empty()
                    },
                    d,
                    new_m[k@],
                )
            } else {
                new_m == m
            },
            _ => new_m == m,
        }
    } else if e.event_type@ == "REMOVE_ITEM"@ {
        match e.item_key {
            Some(k) => new_m == m.remove(k@),
            None => new_m == m,
        }
    } else if e.event_type@ == "CLEAR_CACHE"@ || e.event_type@ == "DELETE_CACHE"@ {
        new_m == Map::<Seq<char>, JsonValue>::empty()
    } else {
        new_m == m
    }
}

/// After an `ADD_ITEM` event whose value is a JSON object, the mirror holds that object under
/// the event's key, and every other key as before.
pub proof fn lemma_object_add_then_read(
    m: Map<Seq<char>, JsonValue>,
    e: CacheUpdateEvent,
    v: JsonValue,
    n: Map<Seq<char>, JsonValue>,
    other: Seq<char>,
)
    requires
        e.event_type@ == "ADD_ITEM"@,
        e.item_key is Some,
        v is Object,
        object_update_ok(m, e, Some(v), n),
        other != e.item_key->0@,
    ensures
        n.contains_key(e.item_key->0@),
        n[e.item_key->0@] == v,
        n.contains_key(other) == m.contains_key(other),
        m.contains_key(other) ==> n[other] == m[other],
{
}

proof fn lemma_event_names_distinct()
    ensures
        "ADD_ITEM"@ != "PATCH_ITEM"@,
        "ADD_ITEM"@ != "REMOVE_ITEM"@,
        "PATCH_ITEM"@ != "REMOVE_ITEM"@,
        "CLEAR_CACHE"@ != "REMOVE_ITEM"@,
        "DELETE_CACHE"@ != "REMOVE_ITEM"@,
        "CLEAR_CACHE"@ != "ADD_ITEM"@,
        "DELETE_CACHE"@ != "ADD_ITEM"@,
        "CLEAR_CACHE"@ != "PATCH_ITEM"@,
        "DELETE_CACHE"@ != "PATCH_ITEM"@,
{
    reveal_strlit("ADD_ITEM");
    reveal_strlit("PATCH_ITEM");
    reveal_strlit("REMOVE_ITEM");
    reveal_strlit("CLEAR_CACHE");
    reveal_strlit("DELETE_CACHE");
    assert("ADD_ITEM"@.len() == 8);
    assert("PATCH_ITEM"@.len() == 10);
    assert("REMOVE_ITEM"@.len() == 11);
    assert("CLEAR_CACHE"@.len() == 11);
    assert("DELETE_CACHE"@.len() == 12);
    assert("CLEAR_CACHE"@[0] != "REMOVE_ITEM"@[0]);
}

/// A `PATCH_ITEM` event with an object delta deep-merges the delta into the stored object (an
/// empty object when none is stored), and every other key stays as before.
pub proof fn lemma_object_patch_merges(
    m: Map<Seq<char>, JsonValue>,
    e: CacheUpdateEvent,
    d: JsonValue,
    n: Map<Seq<char>, JsonValue>,
    other: Seq<char>,
)
    requires
        e.event_type@ == "PATCH_ITEM"@,
        e.item_key is Some,
        d is Object,
        object_update_ok(m, e, Some(d), n),
        other != e.item_key->0@,
    ensures
        n.contains_key(e.item_key->0@),
        m.contains_key(e.item_key->0@) ==> is_merge(obj_fields(m[e.item_key->0@]), d, n[e.item_key->0@]),
        !m.contains_key(e.item_key->0@) ==> is_merge(Seq::empty(), d, n[e.item_key->0@]),
        n.contains_key(other) == m.contains_key(other),
        m.contains_key(other) ==> n[other] == m[other],
{
    lemma_event_names_distinct();
    let k = e.item_key->0@;
    assert(n.contains_key(other) == n.remove(k).contains_key(other));
    assert(n.remove(k) == m.insert(k, n[k]).remove(k));
}

/// Applying the same `PATCH_ITEM` event twice leaves the key with a value equal, as a JSON
/// value, to applying it once.
pub proof fn lemma_object_patch_twice(
    m: Map<Seq<char>, JsonValue>,
    e: CacheUpdateEvent,
    d: JsonValue,
    n1: Map<Seq<char>, JsonValue>,
    n2: Map<Seq<char>, JsonValue>,
)
    requires
        e.event_type@ == "PATCH_ITEM"@,
        e.item_key is Some,
        d is Object,
        json_wf(d),
        values_wf(m),
        values_wf(n1),
        object_update_ok(m, e, Some(d), n1),
        object_update_ok(n1, e, Some(d), n2),
    ensures
        n2.contains_key(e.item_key->0@),
        json_equiv(n2[e.item_key->0@], n1[e.item_key->0@]),
{
    lemma_event_names_distinct();
    let k = e.item_key->0@;
    let t = if m.contains_key(k) {
        m[k]
    } else {
        JsonValue::Null
    };
    assert(json_wf(t));
    if !m.contains_key(k) {
        assert(obj_fields(t) =~= Seq::<(String, JsonValue)>::empty());
    }
    assert(json_wf(n1[k]));
    lemma_merge_twice(t, d, n1[k], n2[k]);
}

/// A `REMOVE_ITEM` event removes its key; `CLEAR_CACHE` and `DELETE_CACHE` empty the mirror.
pub proof fn lemma_object_remove_and_clear(
    m: Map<Seq<char>, JsonValue>,
    e: CacheUpdateEvent,
    parsed: Option<JsonValue>,
    n: Map<Seq<char>, JsonValue>,
)
    requires
        object_update_ok(m, e, parsed, n),
    ensures
        e.event_type@ == "REMOVE_ITEM"@ && e.item_key is Some ==> n == m.remove(e.item_key->0@),
        e.event_type@ == "CLEAR_CACHE"@ ==> n == Map::<Seq<char>, JsonValue>::empty(),
        e.event_type@ == "DELETE_CACHE"@ ==> n == Map::<Seq<char>, JsonValue>::empty(),
{
    lemma_event_names_distinct();
}

/// Applies one cache update event to a mirror of JSON objects; `parsed` is the event's item
/// value parsed as JSON (`None` when the event carries no value or it is not valid JSON).
pub fn update_object_local(
    local: &mut LocalMirror<JsonValue>,
    event: CacheUpdateEvent,
    parsed: Option<JsonValue>,
)
    requires
        values_wf(old(local).view()),
        parsed matches Some(v) ==> json_wf(v),
    ensures
        values_wf(final(local).view()),
        object_update_ok(old(local).view(), event, parsed, final(local).view()),
{
    let ghost m0 = local.view();
    if text_is(&event.event_type, "ADD_ITEM") {
        match (event.item_key, parsed) {
            (Some(k), Some(v)) => {
                if let JsonValue::Object(f) = v {
                    local.insert(k, JsonValue::Object(f));
                }
            },
            _ => {},
        }
    } else if text_is(&event.event_type, "PATCH_ITEM") {
        match (event.item_key, parsed) {
            (Some(k), Some(d)) => {
                if let JsonValue::Object(f) = d {
                    let delta = JsonValue::Object(f);
                    let base = match local.remove(k.as_str()) {
                        Some(b) => b,
                        None => {
                            let b = JsonValue::Object(Vec::new());
                            assert(obj_fields(b) =~= Seq::<(String, JsonValue)>::empty());
                            b
                        },
                    };
                    let ghost kk = k@;
                    let merged = deep_merge(base, delta);
                    local.insert(k, merged);
                    assert(local.view() =~= m0.insert(kk, local.view()[kk]));
                }
            },
            _ => {},
        }
    } else if text_is(&event.event_type, "REMOVE_ITEM") {
        match event.item_key {
            Some(k) => {
                local.remove(k.as_str());
            },
            None => {},
        }
    } else if text_is(&event.event_type, "CLEAR_CACHE") || text_is(&event.event_type, "DELETE_CACHE") {
        local.clear();
    }
}

/// The JSON escape of one character inside a string literal: quote and backslash are escaped,
/// as are the control characters below U+0020 (with the short forms `\b`, `\f`, `\n`, `\r`,
/// `\t` where they exist and `\u00xx` in lowercase hex otherwise); every other character stands
/// for itself.
pub open spec fn escaped_char(c: char) -> Seq<char> {
    if c == '"' {
        seq!['\\', '"']
    } else if c == '\\' {
        seq!['\\', '\\']
    } else if c == '\x08' {
        seq!['\\', 'b']
    } else if c == '\x0c' {
        seq!['\\', 'f']
    } else if c == '\n' {
        seq!['\\', 'n']
    } else if c == '\r' {
        seq!['\\', 'r']
    } else if c == '\t' {
        seq!['\\', 't']
    } else if (c as u32) < 0x20 {
        seq!['\\', 'u', '0', '0', hex_digit((c as u32 / 16) as nat), hex_digit((c as u32 % 16) as nat)]
    } else {
        seq![c]
    }
}

/// The JSON escape of every character of `s`, in order.
pub open spec fn escaped_text(s: Seq<char>) -> Seq<char>
    decreases s.len(),
{
    if s.len() == 0 {
        Seq::empty()
    } else {
        escaped_text(s.drop_last()) + escaped_char(s.last())
    }
}

/// `s` as a JSON string literal.
pub open spec fn quoted(s: Seq<char>) -> Seq<char> {
    seq!['"'] + escaped_text(s) + seq!['"']
}

/// The compact JSON text of `v`: no whitespace, array items and object fields in their order,
/// separated by commas.
pub open spec fn json_text(v: JsonValue) -> Seq<char>
    decreases v, 1int, 0nat,
{
    match v {
        JsonValue::Null => "null"@,
        JsonValue::Bool(b) => if b {
            "true"@
        } else {
            "false"@
        },
        JsonValue::Number(n) => n.text@,
        JsonValue::Str(s) => quoted(s@),
        JsonValue::Array(items) => seq!['['] + items_text(v, items@.len()) + seq![']'],
        JsonValue::Object(fields) => seq!['{'] + fields_text(v, fields@.len()) + seq!['}'],
    }
}

/// The text of the first `n` items of the array `v`, separated by commas.
pub open spec fn items_text(v: JsonValue, n: nat) -> Seq<char>
    decreases v, 0int, n,
{
    match v {
        JsonValue::Array(items) => if n == 0 || n > items@.len() {
            Seq::empty()
        } else if n == 1 {
            json_text(items@[0])
        } else {
            items_text(v, (n - 1) as nat) + seq![','] + json_text(items@[n - 1])
        },
        _ => Seq::empty(),
    }
}

/// The text of the first `n` fields of the object `v`, each as `"name":value`, separated by
/// commas.
pub open spec fn fields_text(v: JsonValue, n: nat) -> Seq<char>
    decreases v, 0int, n,
{
    match v {
        JsonValue::Object(fields) => if n == 0 || n > fields@.len() {
            Seq::empty()
        } else if n == 1 {
            quoted(fields@[0].0@) + seq![':'] + json_text(fields@[0].1)
        } else {
            fields_text(v, (n - 1) as nat) + seq![','] + quoted(fields@[n - 1].0@) + seq![':']
                + json_text(fields@[n - 1].1)
        },
        _ => Seq::empty(),
    }
}

/// Appends the JSON escape of `c`.
fn write_escaped_char(out: &mut String, c: char)
    ensures
        final(out)@ == old(out)@ + escaped_char(c),
{
    let ghost o = out@;
    if c == '"' {
        push_char(out, '\\');
        push_char(out, '"');
    } else if c == '\\' {
        push_char(out, '\\');
        push_char(out, '\\');
    } else if c == '\x08' {
        push_char(out, '\\');
        push_char(out, 'b');
    } else if c == '\x0c' {
        push_char(out, '\\');
        push_char(out, 'f');
    } else if c == '\n' {
        push_char(out, '\\');
        push_char(out, 'n');
    } else if c == '\r' {
        push_char(out, '\\');
        push_char(out, 'r');
    } else if c == '\t' {
        push_char(out, '\\');
        push_char(out, 't');
    } else if (c as u32) < 0x20 {
        let code = c as u32;
        push_char(out, '\\');
        push_char(out, 'u');
        push_char(out, '0');
        push_char(out, '0');
        push_char(out, hex_digit_of((code / 16) as u8));
        push_char(out, hex_digit_of((code % 16) as u8));
    } else {
        push_char(out, c);
    }
    assert(out@ =~= o + escaped_char(c));
}

/// Appends `s` as a JSON string literal.
pub fn write_quoted(out: &mut String, s: &str)
    ensures
        final(out)@ == old(out)@ + quoted(s@),
{
    let ghost o = out@;
    let cs = chars_of(s);
    push_char(out, '"');
    let n = cs.len();
    let mut i: usize = 0;
    while i < n
        invariant
            n == cs@.len(),
            cs@ == s@,
            i <= n,
            out@ == o + seq!['"'] + escaped_text(cs@.subrange(0, i as int)),
        decreases n - i,
    {
        let ghost before = out@;
        write_escaped_char(out, cs[i]);
        proof {
            let pre = cs@.subrange(0, i + 1);
            assert(pre.drop_last() =~= cs@.subrange(0, i as int));
            assert(pre.last() == cs@[i as int]);
            assert(escaped_text(pre) == escaped_text(cs@.subrange(0, i as int)) + escaped_char(
                cs@[i as int],
            ));
            assert(out@ =~= o + seq!['"'] + escaped_text(pre));
        }
        i = i + 1;
    }
    push_char(out, '"');
    assert(cs@.subrange(0, n as int) =~= s@);
    assert(out@ =~= o + quoted(s@));
}

/// Appends the compact JSON text of `v`.
pub fn write_json(out: &mut String, v: &JsonValue)
    ensures
        final(out)@ == old(out)@ + json_text(*v),
    decreases v,
{
    let ghost o = out@;
    match v {
        JsonValue::Null => {
            push_str(out, "null");
        },
        JsonValue::Bool(b) => {
            if *b {
                push_str(out, "true");
            } else {
                push_str(out, "false");
            }
        },
        JsonValue::Number(n) => {
            push_str(out, n.text.as_str());
        },
        JsonValue::Str(s) => {
            write_quoted(out, s.as_str());
        },
        JsonValue::Array(items) => {
            push_char(out, '[');
            let n = items.len();
            let mut i: usize = 0;
            while i < n
                invariant
                    n == items@.len(),
                    i <= n,
                    *v == JsonValue::Array(*items),
                    out@ == o + seq!['['] + items_text(*v, i as nat),
                decreases n - i,
            {
                if i > 0 {
                    push_char(out, ',');
                }
                proof {
                    assert(*items == v->Array_0);
                    assert(decreases_to!(*v => v->Array_0));
                    assert(decreases_to!(v->Array_0 => v->Array_0@));
                    assert(decreases_to!(items@ => items@[i as int]));
                    assert(decreases_to!(*v => items@[i as int]));
                }
                write_json(out, &items[i]);
                proof {
                    if i == 0 {
                        assert(items_text(*v, 0) =~= Seq::<char>::empty());
                    }
                    assert(out@ =~= o + seq!['['] + items_text(*v, (i + 1) as nat));
                }
                i = i + 1;
            }
            push_char(out, ']');
            assert(out@ =~= o + json_text(*v));
        },
        JsonValue::Object(fields) => {
            push_char(out, '{');
            let n = fields.len();
            let mut i: usize = 0;
            while i < n
                invariant
                    n == fields@.len(),
                    i <= n,
                    *v == JsonValue::Object(*fields),
                    out@ == o + seq!['{'] + fields_text(*v, i as nat),
                decreases n - i,
            {
                if i > 0 {
                    push_char(out, ',');
                }
                write_quoted(out, fields[i].0.as_str());
                push_char(out, ':');
                proof {
                    assert(*fields == v->Object_0);
                    assert(decreases_to!(*v => v->Object_0));
                    assert(decreases_to!(v->Object_0 => v->Object_0@));
                    assert(decreases_to!(fields@ => fields@[i as int]));
                    assert(decreases_to!(fields@[i as int] => fields@[i as int].1));
                    assert(decreases_to!(*v => fields@[i as int].1));
                }
                write_json(out, &fields[i].1);
                proof {
                    if i == 0 {
                        assert(fields_text(*v, 0) =~= Seq::<char>::empty());
                    }
                    assert(out@ =~= o + seq!['{'] + fields_text(*v, (i + 1) as nat));
                }
                i = i + 1;
            }
            push_char(out, '}');
            assert(out@ =~= o + json_text(*v));
        },
    }
}

/// The compact JSON text of `v`.
pub fn to_json_string(v: &JsonValue) -> (s: String)
    ensures
        s@ == json_text(*v),
{
    let mut s = String::new();
    write_json(&mut s, v);
    assert(s@ =~= json_text(*v));
    s
}

/// The value of the field `key` of `v`, when `v` is an object that has one.
pub open spec fn field_of(v: JsonValue, key: Seq<char>) -> Option<JsonValue> {
    match v {
        JsonValue::Object(fields) => if has_key(fields@, key) {
            Some(value_of(fields@, key))
        } else {
            None
        },
        _ => None,
    }
}

/// Looks up the field `key` of `v` (nothing when `v` is not an object).
pub fn json_get<'a>(v: &'a JsonValue, key: &str) -> (r: Option<&'a JsonValue>)
    requires
        json_wf(*v),
    ensures
        match r {
            Some(x) => field_of(*v, key@) == Some(*x),
            None => field_of(*v, key@) is None,
        },
{
    match v {
        JsonValue::Object(fields) => {
            assert(keys_distinct(fields@));
            let k = key.to_owned();
            let n = fields.len();
            let mut i: usize = 0;
            while i < n
                invariant
                    n == fields@.len(),
                    i <= n,
                    k@ == key@,
                    keys_distinct(fields@),
                    *v == JsonValue::Object(*fields),
                    forall|j: int| 0 <= j < i ==> #[trigger] fields@[j].0@ != key@,
                decreases n - i,
            {
                if fields[i].0 == k {
                    proof {
                        lemma_entry_in_map(fields@, i as int);
                    }
                    return Some(&fields[i].1);
                }
                i = i + 1;
            }
            None
        },
        _ => None,
    }
}

/// A field of a well-formed value is well-formed.
pub proof fn lemma_field_wf(v: JsonValue, key: Seq<char>)
    requires
        json_wf(v),
        field_of(v, key) is Some,
    ensures
        json_wf(field_of(v, key)->0),
{
    match v {
        JsonValue::Object(fields) => {
            let j = choose|j: int| 0 <= j < fields@.len() && #[trigger] fields@[j].0@ == key;
            assert(json_wf(fields@[j].1));
        },
        _ => {},
    }
}

/// Takes the field `key` out of `v` (nothing when `v` is not an object or has no such field).
pub fn into_field(v: JsonValue, key: &str) -> (r: Option<JsonValue>)
    requires
        json_wf(v),
    ensures
        r == field_of(v, key@),
{
    let ghost v0 = v;
    match v {
        JsonValue::Object(mut fields) => {
            let ghost f0 = fields@;
            assert(keys_distinct(f0));
            assert(obj_fields(v0) == f0);
            let k = key.to_owned();
            let n = fields.len();
            let mut i: usize = 0;
            while i < n
                invariant
                    n == fields@.len(),
                    fields@ == f0,
                    keys_distinct(f0),
                    v == v0,
                    v0 is Object,
                    obj_fields(v0) == f0,
                    i <= n,
                    k@ == key@,
                    forall|j: int| 0 <= j < i ==> #[trigger] fields@[j].0@ != key@,
                decreases n - i,
            {
                if fields[i].0 == k {
                    proof {
                        lemma_entry_in_map(fields@, i as int);
                        assert(has_key(f0, key@));
                        assert(value_of(f0, key@) == entries_map(f0)[key@]);
                    }
                    let (_name, value) = fields.swap_remove(i);
                    assert(value == f0[i as int].1);
                    return Some(value);
                }
                i = i + 1;
            }
            None
        },
        _ => None,
    }
}

/// The text that a field `key` of `v` holds when it is a JSON string; empty otherwise.
pub open spec fn str_field(v: JsonValue, key: Seq<char>) -> Seq<char> {
    match field_of(v, key) {
        Some(JsonValue::Str(s)) => s@,
        _ => Seq::empty(),
    }
}

/// Returns the string held by the field `key` of `v`, or an empty string when the field is
/// missing or not a JSON string.
pub fn sv(v: &JsonValue, key: &str) -> (r: String)
    requires
        json_wf(*v),
    ensures
        r@ == str_field(*v, key@),
{
    match json_get(v, key) {
        Some(JsonValue::Str(s)) => s.clone(),
        _ => String::new(),
    }
}

/// The boolean held by the field `key` of `v`, or `false` when it is missing or not a boolean.
pub open spec fn bool_field(v: JsonValue, key: Seq<char>) -> bool {
    match field_of(v, key) {
        Some(JsonValue::Bool(b)) => b,
        _ => false,
    }
}

/// Returns the boolean held by the field `key` of `v`, or `false` when the field is missing or
/// not a boolean.
pub fn bool_field_of(v: &JsonValue, key: &str) -> (r: bool)
    requires
        json_wf(*v),
    ensures
        r == bool_field(*v, key@),
{
    match json_get(v, key) {
        Some(JsonValue::Bool(b)) => *b,
        _ => false,
    }
}

/// A JSON value rendered as plain text: a string without its quotes, `null` as the empty string,
/// and anything else as its compact JSON text.
pub open spec fn value_text(v: JsonValue) -> Seq<char> {
    match v {
        JsonValue::Str(s) => s@,
        JsonValue::Null => Seq::empty(),
        _ => json_text(v),
    }
}

/// Renders a JSON value as plain text (strings unquoted; numbers, booleans, arrays and objects as
/// their JSON text; `null` as the empty string).
pub fn value_to_string(v: &JsonValue) -> (r: String)
    ensures
        r@ == value_text(*v),
{
    match v {
        JsonValue::Str(s) => s.clone(),
        JsonValue::Null => String::new(),
        _ => to_json_string(v),
    }
}

/// A JSON value read as an `i64`: an integer number directly, any other number truncated, a
/// string holding an `i64` parsed, and 0 for everything else.
pub open spec fn value_int(v: JsonValue) -> i64 {
    match v {
        JsonValue::Number(n) => match n.int_value {
            Some(i) => i,
            None => n.truncated,
        },
        JsonValue::Str(s) => match parse_i64_spec(s@) {
            Some(i) => i,
            None => 0,
        },
        _ => 0,
    }
}

/// Reads a JSON value as an `i64` (numbers directly; numeric strings parsed; 0 otherwise).
pub fn value_to_i64(v: &JsonValue) -> (r: i64)
    ensures
        r == value_int(*v),
{
    match v {
        JsonValue::Number(n) => match n.int_value {
            Some(i) => i,
            None => n.truncated,
        },
        JsonValue::Str(s) => match parse_i64(s.as_str()) {
            Some(i) => i,
            None => 0,
        },
        _ => 0,
    }
}

} // verus!
