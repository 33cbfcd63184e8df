//! Normalization of cross-references and property maps as real-world files
//! write them: a negative index means "no reference", and a `null` value
//! means "not given".
use vstd::prelude::*;
use crate::json::{Json, JsonView, Number, get, field, lookup, entries_view, lemma_entries_view};
use crate::codec::{
    Codec, DecodeError, StringMap, opt_encoding, opt_wf, entry_encodings, map_keys, object_keys,
    find_entry, lemma_lookup_unique, lemma_lookup_extend,
};

verus! {

/// `j` is `null`, or an integer that fits a signed 64-bit integer and, when it
/// is not negative, a glTF index.
pub open spec fn index_accepts(j: JsonView) -> bool {
    ||| j is Null
    ||| j matches JsonView::Number(n) && n.int_value() matches Some(v) && i64::MIN <= v <= u32::MAX
}

/// `x` is the reference that `j` stands for: none for `null` or a negative
/// integer, else the index that it holds.
pub open spec fn index_denotes(j: JsonView, x: Option<u32>) -> bool {
    match j {
        JsonView::Null => x is None,
        JsonView::Number(n) => n.int_value() matches Some(v) && if v < 0 {
            x is None
        } else {
            x == Some(v as u32)
        },
        _ => false,
    }
}

/// `j` stands for a present reference.
pub open spec fn is_reference(j: JsonView) -> bool {
    j matches JsonView::Number(n) && n.int_value() matches Some(v) && v >= 0
}

/// Reads a cross-reference that may be written as `null` or as a negative
/// integer to mean that there is none.
pub fn deserialize_option_index(j: &Json) -> (r: Result<Option<u32>, DecodeError>)
    ensures
        r is Ok <==> index_accepts(j@),
        r matches Ok(x) ==> index_denotes(j@, x),
        j@ is Null ==> r == Ok::<Option<u32>, DecodeError>(None),
{
    match j {
        Json::Null => Ok(None),
        Json::Number(n) => match n.as_i64() {
            Some(i) => {
                if i < 0 {
                    Ok(None)
                } else if i <= u32::MAX as i64 {
                    Ok(Some(i as u32))
                } else {
                    Err(DecodeError)
                }
            },
            None => Err(DecodeError),
        },
        _ => Err(DecodeError),
    }
}

/// The optional cross-reference field `v` decodes.
pub open spec fn index_field_ok(v: Option<JsonView>) -> bool {
    match v {
        None => true,
        Some(j) => index_accepts(j),
    }
}

/// `x` is the reference of the optional cross-reference field `v`.
pub open spec fn index_field_is(v: Option<JsonView>, x: Option<u32>) -> bool {
    match v {
        None => x is None,
        Some(j) => index_denotes(j, x),
    }
}

/// Decodes the optional cross-reference field `k` of `j`.
pub fn index_field(j: &Json, k: &str) -> (r: Result<Option<u32>, DecodeError>)
    ensures
        r is Ok <==> index_field_ok(get(j@, k@)),
        r matches Ok(x) ==> index_field_is(get(j@, k@), x),
{
    match field(j, k) {
        None => Ok(None),
        Some(v) => deserialize_option_index(v),
    }
}

pub proof fn lemma_index_field(x: Option<u32>)
    ensures
        index_field_ok(opt_encoding(x)),
        index_field_is(opt_encoding(x), x),
{
}

/// `j` is `null`, or an object whose every value is accepted as a reference.
pub open spec fn index_map_accepts(j: JsonView) -> bool {
    match j {
        JsonView::Null => true,
        JsonView::Object(m) => forall|i: int| 0 <= i < m.len() ==> index_accepts(#[trigger] m[i].1),
        _ => false,
    }
}

/// `x` is the map that `j` stands for: none for `null`; else the keys whose
/// last entry is a present reference, each with its index.
pub open spec fn index_map_denotes(j: JsonView, x: Option<StringMap<u32>>) -> bool {
    match j {
        JsonView::Null => x is None,
        JsonView::Object(m) => x matches Some(y) && {
            &&& forall|i: int|
                0 <= i < m.len() ==> (lookup(m, #[trigger] m[i].0) matches Some(v) && is_reference(v))
                    ==> map_keys(y.entries@).contains(m[i].0)
            &&& forall|i: int|
                0 <= i < y.entries@.len() ==> (lookup(m, #[trigger] y.entries@[i].0@) matches Some(v)
                    && index_denotes(v, Some(y.entries@[i].1)))
        },
        _ => false,
    }
}

/// `j` is `null`, or an object whose every value is a number or `null`.
pub open spec fn number_map_accepts(j: JsonView) -> bool {
    match j {
        JsonView::Null => true,
        JsonView::Object(m) => forall|i: int|
            0 <= i < m.len() ==> (#[trigger] m[i].1 is Null || m[i].1 is Number),
        _ => false,
    }
}

/// `x` is the map that `j` stands for: none for `null`; else the keys whose
/// last entry is a number, each with that number.
pub open spec fn number_map_denotes(j: JsonView, x: Option<StringMap<Number>>) -> bool {
    match j {
        JsonView::Null => x is None,
        JsonView::Object(m) => x matches Some(y) && {
            &&& forall|i: int|
                0 <= i < m.len() ==> (lookup(m, #[trigger] m[i].0) matches Some(v) && v is Number)
                    ==> map_keys(y.entries@).contains(m[i].0)
            &&& forall|i: int|
                0 <= i < y.entries@.len() ==> lookup(m, #[trigger] y.entries@[i].0@) == Some(
                    JsonView::Number(y.entries@[i].1),
                )
        },
        _ => false,
    }
}

/// After `out` lost its entry at `idx`, every key that it held at another
/// position is still there.
proof fn lemma_keys_after_remove<V>(before: Seq<(String, V)>, idx: int, k: Seq<char>)
    requires
        0 <= idx < before.len(),
        map_keys(before).contains(k),
        map_keys(before)[idx] != k,
    ensures
        map_keys(before.remove(idx)).contains(k),
{
    let w = choose|w: int| 0 <= w < map_keys(before).len() && map_keys(before)[w] == k;
    let after = before.remove(idx);
    if w < idx {
        assert(map_keys(after)[w] == k);
    } else {
        assert(map_keys(after)[w - 1] == k);
    }
}

/// Removing an entry keeps the keys unique.
proof fn lemma_unique_after_remove<V>(before: Seq<(String, V)>, idx: int)
    requires
        0 <= idx < before.len(),
        map_keys(before).no_duplicates(),
    ensures
        map_keys(before.remove(idx)).no_duplicates(),
        forall|t: int|
            0 <= t < before.len() - 1 ==> #[trigger] before.remove(idx)[t] == if t < idx {
                before[t]
            } else {
                before[t + 1]
            },
{
    let after = before.remove(idx);
    assert forall|a: int, b: int|
        0 <= a < map_keys(after).len() && 0 <= b < map_keys(after).len() && a != b implies map_keys(
        after,
    )[a] != map_keys(after)[b] by {
        let a2 = if a < idx { a } else { a + 1 };
        let b2 = if b < idx { b } else { b + 1 };
        assert(map_keys(after)[a] == map_keys(before)[a2]);
        assert(map_keys(after)[b] == map_keys(before)[b2]);
    }
}

/// Reads a map of cross-references. `null` is no map. Of the entries that
/// share a key the last one counts, and a key whose reference is absent
/// (negative or `null`) is left out.
pub fn deserialize_option_map_index(j: &Json) -> (r: Result<Option<StringMap<u32>>, DecodeError>)
    ensures
        r is Ok <==> index_map_accepts(j@),
        r matches Ok(x) ==> index_map_denotes(j@, x) && opt_wf(x),
        j@ is Null ==> r matches Ok(None),
{
    match j {
        Json::Null => Ok(None),
        Json::Object(m) => {
            proof {
                lemma_entries_view(m@);
            }
            let ghost e = entries_view(m@);
            let mut out: Vec<(String, u32)> = Vec::new();
            let mut i: usize = 0;
            while i < m.len()
                invariant
                    0 <= i <= m.len(),
                    j@ == JsonView::Object(e),
                    e == entries_view(m@),
                    e.len() == m@.len(),
                    forall|t: int| 0 <= t < m@.len() ==> #[trigger] e[t] == (m@[t].0@, m@[t].1@),
                    forall|t: int| 0 <= t < i ==> index_accepts(#[trigger] e[t].1),
                    map_keys(out@).no_duplicates(),
                    forall|t: int|
                        0 <= t < i ==> (lookup(e.subrange(0, i as int), #[trigger] e[t].0) matches Some(v)
                            && is_reference(v)) ==> map_keys(out@).contains(e[t].0),
                    forall|t: int|
                        0 <= t < out@.len() ==> (lookup(e.subrange(0, i as int), #[trigger] out@[t].0@) matches Some(
                            v,
                        ) && index_denotes(v, Some(out@[t].1))),
                decreases m.len() - i,
            {
                let x = match deserialize_option_index(&m[i].1) {
                    Ok(x) => x,
                    Err(err) => {
                        assert(j@->Object_0 == e);
                        assert(!index_accepts(e[i as int].1));
                        return Err(err);
                    },
                };
                proof {
                    lemma_lookup_extend(e, i as int);
                }
                assert(e[i as int].0 == m@[i as int].0@);
                assert(e[i as int].1 == m@[i as int].1@);
                let ghost before = out@;
                let found = find_entry(&out, &m[i].0);
                match (found, x) {
                    (Some(idx), Some(x)) => {
                        out.set(idx, (m[i].0.clone(), x));
                        assert(map_keys(out@) =~= map_keys(before));
                        assert(map_keys(before)[idx as int] == before[idx as int].0@);
                            assert forall|t: int|
                                0 <= t < i + 1 && (lookup(e.subrange(0, i + 1), #[trigger] e[t].0) matches Some(v)
                                    && is_reference(v)) implies map_keys(out@).contains(e[t].0) by {
                                if e[t].0 == e[i as int].0 {
                                    assert(map_keys(out@)[idx as int] == e[i as int].0);
                                } else {
                                    let w = choose|w: int| 0 <= w < before.len() && map_keys(before)[w] == e[t].0;
                                    assert(map_keys(out@)[w] == e[t].0);
                                }
                            }
                            assert forall|t: int| 0 <= t < out@.len() implies (lookup(e.subrange(0, i + 1), #[trigger] out@[t].0@) matches Some(v)
                                && index_denotes(v, Some(out@[t].1))) by {
                                if t != idx as int {
                                    assert(map_keys(before)[t] == before[t].0@);
                                    assert(out@[t] == before[t]);
                                }
                            }
                    },
                    (None, Some(x)) => {
                        out.push((m[i].0.clone(), x));
                        assert(map_keys(out@) =~= map_keys(before).push(e[i as int].0));
                        assert(map_keys(out@)[before.len() as int] == e[i as int].0);
                            assert forall|t: int|
                                0 <= t < i + 1 && (lookup(e.subrange(0, i + 1), #[trigger] e[t].0) matches Some(v)
                                    && is_reference(v)) implies map_keys(out@).contains(e[t].0) by {
                                if e[t].0 == e[i as int].0 {
                                    assert(map_keys(out@)[before.len() as int] == e[i as int].0);
                                } else {
                                    let w = choose|w: int| 0 <= w < before.len() && map_keys(before)[w] == e[t].0;
                                    assert(map_keys(out@)[w] == e[t].0);
                                }
                            }
                            assert forall|t: int| 0 <= t < out@.len() implies (lookup(e.subrange(0, i + 1), #[trigger] out@[t].0@) matches Some(v)
                                && index_denotes(v, Some(out@[t].1))) by {
                                if t < before.len() {
                                    assert(map_keys(before)[t] == before[t].0@);
                                    assert(out@[t] == before[t]);
                                }
                            }
                    },
                    (Some(idx), None) => {
                        out.remove(idx);
                        proof {
                            lemma_unique_after_remove(before, idx as int);
                            assert forall|t: int|
                                0 <= t < i && (lookup(e.subrange(0, i + 1), e[t].0) matches Some(v)
                                    && is_reference(v)) implies map_keys(out@).contains(#[trigger] e[t].0) by {
                                assert(e[t].0 != e[i as int].0);
                                assert(map_keys(before)[idx as int] == e[i as int].0);
                                lemma_keys_after_remove(before, idx as int, e[t].0);
                            }
                            assert forall|t: int| 0 <= t < out@.len() implies (lookup(e.subrange(0, i + 1), #[trigger] out@[t].0@) matches Some(v)
                                && index_denotes(v, Some(out@[t].1))) by {
                                let t2 = if t < idx { t } else { t + 1 };
                                assert(out@[t] == before[t2]);
                                assert(map_keys(before)[t2] == out@[t].0@);
                                assert(map_keys(before)[idx as int] == e[i as int].0);
                                assert(out@[t].0@ != e[i as int].0);
                            }
                        }
                    },
                    (None, None) => {
                        proof {
                            assert forall|t: int| 0 <= t < out@.len() implies (lookup(e.subrange(0, i + 1), #[trigger] out@[t].0@) matches Some(v)
                                && index_denotes(v, Some(out@[t].1))) by {
                                assert(map_keys(out@)[t] == out@[t].0@);
                            }
                            assert forall|t: int|
                                0 <= t < i + 1 && (lookup(e.subrange(0, i + 1), #[trigger] e[t].0) matches Some(v)
                                    && is_reference(v)) implies map_keys(out@).contains(e[t].0) by {
                            }
                        }
                    },
                }
                i = i + 1;
            }
            assert(e.subrange(0, m@.len() as int) =~= e);
            assert(j@->Object_0 == e);
            Ok(Some(StringMap { entries: out }))
        },
        _ => Err(DecodeError),
    }
}

/// Reads a map of numbers. `null` is no map. Of the entries that share a key
/// the last one counts, and a key whose value is `null` is left out.
pub fn deserialize_option_map_and_skip_nullable(j: &Json) -> (r: Result<Option<StringMap<Number>>, DecodeError>)
    ensures
        r is Ok <==> number_map_accepts(j@),
        r matches Ok(x) ==> number_map_denotes(j@, x) && opt_wf(x),
        j@ is Null ==> r matches Ok(None),
{
    match j {
        Json::Null => Ok(None),
        Json::Object(m) => {
            proof {
                lemma_entries_view(m@);
            }
            let ghost e = entries_view(m@);
            let mut out: Vec<(String, Number)> = Vec::new();
            let mut i: usize = 0;
            while i < m.len()
                invariant
                    0 <= i <= m.len(),
                    j@ == JsonView::Object(e),
                    e == entries_view(m@),
                    e.len() == m@.len(),
                    forall|t: int| 0 <= t < m@.len() ==> #[trigger] e[t] == (m@[t].0@, m@[t].1@),
                    forall|t: int| 0 <= t < i ==> (#[trigger] e[t].1 is Null || e[t].1 is Number),
                    map_keys(out@).no_duplicates(),
                    forall|t: int|
                        0 <= t < i ==> (lookup(e.subrange(0, i as int), #[trigger] e[t].0) matches Some(v)
                            && v is Number) ==> map_keys(out@).contains(e[t].0),
                    forall|t: int|
                        0 <= t < out@.len() ==> lookup(e.subrange(0, i as int), #[trigger] out@[t].0@) == Some(
                            JsonView::Number(out@[t].1),
                        ),
                decreases m.len() - i,
            {
                let x: Option<Number> = match &m[i].1 {
                    Json::Number(n) => Some(*n),
                    Json::Null => None,
                    _ => {
                        assert(j@->Object_0 == e);
                        assert(!(e[i as int].1 is Null || e[i as int].1 is Number));
                        return Err(DecodeError);
                    },
                };
                proof {
                    lemma_lookup_extend(e, i as int);
                }
                assert(e[i as int].0 == m@[i as int].0@);
                assert(e[i as int].1 == m@[i as int].1@);
                let ghost before = out@;
                let found = find_entry(&out, &m[i].0);
                match (found, x) {
                    (Some(idx), Some(x)) => {
                        out.set(idx, (m[i].0.clone(), x));
                        assert(map_keys(out@) =~= map_keys(before));
                        assert(map_keys(before)[idx as int] == before[idx as int].0@);
                            assert forall|t: int|
                                0 <= t < i + 1 && (lookup(e.subrange(0, i + 1), #[trigger] e[t].0) matches Some(v)
                                    && v is Number) implies map_keys(out@).contains(e[t].0) by {
                                if e[t].0 == e[i as int].0 {
                                    assert(map_keys(out@)[idx as int] == e[i as int].0);
                                } else {
                                    let w = choose|w: int| 0 <= w < before.len() && map_keys(before)[w] == e[t].0;
                                    assert(map_keys(out@)[w] == e[t].0);
                                }
                            }
                            assert forall|t: int| 0 <= t < out@.len() implies lookup(e.subrange(0, i + 1), #[trigger] out@[t].0@) == Some(
                                JsonView::Number(out@[t].1)) by {
                                if t != idx as int {
                                    assert(map_keys(before)[t] == before[t].0@);
                                    assert(out@[t] == before[t]);
                                }
                            }
                    },
                    (None, Some(x)) => {
                        out.push((m[i].0.clone(), x));
                        assert(map_keys(out@) =~= map_keys(before).push(e[i as int].0));
                        assert(map_keys(out@)[before.len() as int] == e[i as int].0);
                            assert forall|t: int|
                                0 <= t < i + 1 && (lookup(e.subrange(0, i + 1), #[trigger] e[t].0) matches Some(v)
                                    && v is Number) implies map_keys(out@).contains(e[t].0) by {
                                if e[t].0 == e[i as int].0 {
                                    assert(map_keys(out@)[before.len() as int] == e[i as int].0);
                                } else {
                                    let w = choose|w: int| 0 <= w < before.len() && map_keys(before)[w] == e[t].0;
                                    assert(map_keys(out@)[w] == e[t].0);
                                }
                            }
                            assert forall|t: int| 0 <= t < out@.len() implies lookup(e.subrange(0, i + 1), #[trigger] out@[t].0@) == Some(
                                JsonView::Number(out@[t].1)) by {
                                if t < before.len() {
                                    assert(map_keys(before)[t] == before[t].0@);
                                    assert(out@[t] == before[t]);
                                }
                            }
                    },
                    (Some(idx), None) => {
                        out.remove(idx);
                        proof {
                            lemma_unique_after_remove(before, idx as int);
                            assert forall|t: int|
                                0 <= t < i && (lookup(e.subrange(0, i + 1), e[t].0) matches Some(v)
                                    && v is Number) implies map_keys(out@).contains(#[trigger] e[t].0) by {
                                assert(e[t].0 != e[i as int].0);
                                assert(map_keys(before)[idx as int] == e[i as int].0);
                                lemma_keys_after_remove(before, idx as int, e[t].0);
                            }
                            assert forall|t: int| 0 <= t < out@.len() implies lookup(e.subrange(0, i + 1), #[trigger] out@[t].0@) == Some(
                                JsonView::Number(out@[t].1)) by {
                                let t2 = if t < idx { t } else { t + 1 };
                                assert(out@[t] == before[t2]);
                                assert(map_keys(before)[t2] == out@[t].0@);
                                assert(map_keys(before)[idx as int] == e[i as int].0);
                                assert(out@[t].0@ != e[i as int].0);
                            }
                        }
                    },
                    (None, None) => {
                        proof {
                            assert forall|t: int| 0 <= t < out@.len() implies lookup(e.subrange(0, i + 1), #[trigger] out@[t].0@) == Some(
                                JsonView::Number(out@[t].1)) by {
                                assert(map_keys(out@)[t] == out@[t].0@);
                            }
                            assert forall|t: int|
                                0 <= t < i + 1 && (lookup(e.subrange(0, i + 1), #[trigger] e[t].0) matches Some(v)
                                    && v is Number) implies map_keys(out@).contains(e[t].0) by {
                            }
                        }
                    },
                }
                i = i + 1;
            }
            assert(e.subrange(0, m@.len() as int) =~= e);
            assert(j@->Object_0 == e);
            Ok(Some(StringMap { entries: out }))
        },
        _ => Err(DecodeError),
    }
}

/// The optional map-of-references field `v` decodes.
pub open spec fn index_map_field_ok(v: Option<JsonView>) -> bool {
    match v {
        None => true,
        Some(j) => index_map_accepts(j),
    }
}

/// `x` is the value of the optional map-of-references field `v`.
pub open spec fn index_map_field_is(v: Option<JsonView>, x: Option<StringMap<u32>>) -> bool {
    match v {
        None => x is None,
        Some(j) => index_map_denotes(j, x),
    }
}

/// The optional map-of-numbers field `v` decodes.
pub open spec fn number_map_field_ok(v: Option<JsonView>) -> bool {
    match v {
        None => true,
        Some(j) => number_map_accepts(j),
    }
}

/// `x` is the value of the optional map-of-numbers field `v`.
pub open spec fn number_map_field_is(v: Option<JsonView>, x: Option<StringMap<Number>>) -> bool {
    match v {
        None => x is None,
        Some(j) => number_map_denotes(j, x),
    }
}

/// Decodes the optional map-of-references field `k` of `j`.
pub fn index_map_field(j: &Json, k: &str) -> (r: Result<Option<StringMap<u32>>, DecodeError>)
    ensures
        r is Ok <==> index_map_field_ok(get(j@, k@)),
        r matches Ok(x) ==> index_map_field_is(get(j@, k@), x) && opt_wf(x),
{
    match field(j, k) {
        None => Ok(None),
        Some(v) => deserialize_option_map_index(v),
    }
}

/// Decodes the optional map-of-numbers field `k` of `j`.
pub fn number_map_field(j: &Json, k: &str) -> (r: Result<Option<StringMap<Number>>, DecodeError>)
    ensures
        r is Ok <==> number_map_field_ok(get(j@, k@)),
        r matches Ok(x) ==> number_map_field_is(get(j@, k@), x) && opt_wf(x),
{
    match field(j, k) {
        None => Ok(None),
        Some(v) => deserialize_option_map_and_skip_nullable(v),
    }
}

/// A map of references read back from its encoding is the map written.
pub proof fn lemma_index_map_field(x: Option<StringMap<u32>>)
    requires
        opt_wf(x),
    ensures
        index_map_field_ok(opt_encoding(x)),
        index_map_field_is(opt_encoding(x), x),
{
    if let Some(y) = x {
        let s = y.entries@;
        let m = entry_encodings(s);
        assert(object_keys(m) =~= map_keys(s));
        assert forall|i: int| 0 <= i < m.len() implies map_keys(s).contains(#[trigger] m[i].0) by {
            assert(map_keys(s)[i] == m[i].0);
        }
        assert forall|i: int| 0 <= i < s.len() implies (lookup(m, #[trigger] s[i].0@) matches Some(v)
            && index_denotes(v, Some(s[i].1))) by {
            lemma_lookup_unique(m, i);
        }
    }
}

/// A map of numbers read back from its encoding is the map written.
pub proof fn lemma_number_map_field(x: Option<StringMap<Number>>)
    requires
        opt_wf(x),
    ensures
        number_map_field_ok(opt_encoding(x)),
        number_map_field_is(opt_encoding(x), x),
{
    if let Some(y) = x {
        let s = y.entries@;
        let m = entry_encodings(s);
        assert(object_keys(m) =~= map_keys(s));
        assert forall|i: int| 0 <= i < m.len() implies map_keys(s).contains(#[trigger] m[i].0) by {
            assert(map_keys(s)[i] == m[i].0);
        }
        assert forall|i: int| 0 <= i < s.len() implies lookup(m, #[trigger] s[i].0@) == Some(
            JsonView::Number(s[i].1),
        ) by {
            lemma_lookup_unique(m, i);
        }
    }
}

} // verus!
