//! Decoding typed values from JSON and encoding them back.
//!
//! Each typed value states, over the mathematical value of a JSON value, when
//! it can be decoded from it (`accepts`), which typed values a JSON value
//! stands for (`denotes`), and the JSON value that it is written as
//! (`encoding`). Decoding the encoding of a value gives that value back.
use vstd::prelude::*;
use crate::json::{Json, JsonView, Number, get, given, lookup, field, lemma_items_view, lemma_entries_view, items_view, entries_view};

verus! {

/// The JSON value does not have the shape that the typed value requires.
#[derive(Clone, Copy, Debug, PartialEq, Eq, Structural)]
pub struct DecodeError;

pub trait Codec: Sized {
    /// Decoding `j` succeeds.
    spec fn accepts(j: JsonView) -> bool;

    /// `x` is the value that `j` decodes to.
    spec fn denotes(j: JsonView, x: Self) -> bool;

    /// The JSON value that `x` is written as.
    spec fn encoding(x: Self) -> JsonView;

    /// `x` is well formed: the keys of each of its maps are unique, and so on.
    spec fn wf(x: Self) -> bool;

    /// Decoding the encoding of a well-formed `x` gives `x` back.
    proof fn lemma_round_trip(x: Self)
        requires
            Self::wf(x),
        ensures
            Self::accepts(Self::encoding(x)),
            Self::denotes(Self::encoding(x), x),
    ;

    fn decode(j: &Json) -> (r: Result<Self, DecodeError>)
        ensures
            r is Ok <==> Self::accepts(j@),
            r matches Ok(x) ==> Self::denotes(j@, x) && Self::wf(x),
    ;

    fn encode(&self) -> (j: Json)
        ensures
            j@ == Self::encoding(*self),
    ;
}

impl Codec for String {
    open spec fn accepts(j: JsonView) -> bool {
        j is String
    }

    open spec fn denotes(j: JsonView, x: String) -> bool {
        j == JsonView::String(x@)
    }

    open spec fn encoding(x: String) -> JsonView {
        JsonView::String(x@)
    }

    open spec fn wf(x: String) -> bool {
        true
    }

    proof fn lemma_round_trip(x: String) {
    }

    fn decode(j: &Json) -> (r: Result<String, DecodeError>) {
        match j {
            Json::String(s) => Ok(s.clone()),
            _ => Err(DecodeError),
        }
    }

    fn encode(&self) -> (j: Json) {
        Json::String(self.clone())
    }
}

impl Codec for bool {
    open spec fn accepts(j: JsonView) -> bool {
        j is Bool
    }

    open spec fn denotes(j: JsonView, x: bool) -> bool {
        j == JsonView::Bool(x)
    }

    open spec fn encoding(x: bool) -> JsonView {
        JsonView::Bool(x)
    }

    open spec fn wf(x: bool) -> bool {
        true
    }

    proof fn lemma_round_trip(x: bool) {
    }

    fn decode(j: &Json) -> (r: Result<bool, DecodeError>) {
        match j {
            Json::Bool(b) => Ok(*b),
            _ => Err(DecodeError),
        }
    }

    fn encode(&self) -> (j: Json) {
        Json::Bool(*self)
    }
}

/// A number field: any JSON number, kept as written.
impl Codec for Number {
    open spec fn accepts(j: JsonView) -> bool {
        j is Number
    }

    open spec fn denotes(j: JsonView, x: Number) -> bool {
        j == JsonView::Number(x)
    }

    open spec fn encoding(x: Number) -> JsonView {
        JsonView::Number(x)
    }

    open spec fn wf(x: Number) -> bool {
        true
    }

    proof fn lemma_round_trip(x: Number) {
    }

    fn decode(j: &Json) -> (r: Result<Number, DecodeError>) {
        match j {
            Json::Number(n) => Ok(*n),
            _ => Err(DecodeError),
        }
    }

    fn encode(&self) -> (j: Json) {
        Json::Number(*self)
    }
}

impl Codec for i64 {
    open spec fn accepts(j: JsonView) -> bool {
        j matches JsonView::Number(n) && n.int_value() matches Some(v) && i64::MIN <= v
            <= i64::MAX
    }

    open spec fn denotes(j: JsonView, x: i64) -> bool {
        j matches JsonView::Number(n) && n.int_value() == Some(x as int)
    }

    open spec fn encoding(x: i64) -> JsonView {
        JsonView::Number(Number::of_i64(x))
    }

    open spec fn wf(x: i64) -> bool {
        true
    }

    proof fn lemma_round_trip(x: i64) {
    }

    fn decode(j: &Json) -> (r: Result<i64, DecodeError>) {
        match j {
            Json::Number(n) => match n.as_i64() {
                Some(i) => Ok(i),
                None => Err(DecodeError),
            },
            _ => Err(DecodeError),
        }
    }

    fn encode(&self) -> (j: Json) {
        Json::Number(Number::from_i64(*self))
    }
}

impl Codec for usize {
    open spec fn accepts(j: JsonView) -> bool {
        j matches JsonView::Number(n) && n.int_value() matches Some(v) && 0 <= v <= usize::MAX
    }

    open spec fn denotes(j: JsonView, x: usize) -> bool {
        j matches JsonView::Number(n) && n.int_value() == Some(x as int)
    }

    open spec fn encoding(x: usize) -> JsonView {
        JsonView::Number(Number::PosInt(x as u64))
    }

    open spec fn wf(x: usize) -> bool {
        true
    }

    proof fn lemma_round_trip(x: usize) {
    }

    fn decode(j: &Json) -> (r: Result<usize, DecodeError>) {
        match j {
            Json::Number(n) => match n.as_usize() {
                Some(u) => Ok(u),
                None => Err(DecodeError),
            },
            _ => Err(DecodeError),
        }
    }

    fn encode(&self) -> (j: Json) {
        Json::Number(Number::PosInt(*self as u64))
    }
}

/// The encoding of each element of `s`.
pub open spec fn encodings<T: Codec>(s: Seq<T>) -> Seq<JsonView> {
    s.map_values(|v: T| T::encoding(v))
}

impl Codec for u32 {
    open spec fn accepts(j: JsonView) -> bool {
        j matches JsonView::Number(n) && n.int_value() matches Some(v) && 0 <= v <= u32::MAX
    }

    open spec fn denotes(j: JsonView, x: u32) -> bool {
        j matches JsonView::Number(n) && n.int_value() == Some(x as int)
    }

    open spec fn encoding(x: u32) -> JsonView {
        JsonView::Number(Number::PosInt(x as u64))
    }

    open spec fn wf(x: u32) -> bool {
        true
    }

    proof fn lemma_round_trip(x: u32) {
    }

    fn decode(j: &Json) -> (r: Result<u32, DecodeError>) {
        match j {
            Json::Number(n) => match n.as_i64() {
                Some(i) => {
                    if 0 <= i && i <= u32::MAX as i64 {
                        Ok(i as u32)
                    } else {
                        Err(DecodeError)
                    }
                },
                None => Err(DecodeError),
            },
            _ => Err(DecodeError),
        }
    }

    fn encode(&self) -> (j: Json) {
        Json::Number(Number::PosInt(*self as u64))
    }
}

impl<T: Codec> Codec for Vec<T> {
    open spec fn accepts(j: JsonView) -> bool {
        match j {
            JsonView::Array(s) => forall|i: int| 0 <= i < s.len() ==> T::accepts(#[trigger] s[i]),
            _ => false,
        }
    }

    open spec fn denotes(j: JsonView, x: Vec<T>) -> bool {
        match j {
            JsonView::Array(s) => s.len() == x@.len() && forall|i: int|
                0 <= i < s.len() ==> T::denotes(#[trigger] s[i], x@[i]),
            _ => false,
        }
    }

    open spec fn encoding(x: Vec<T>) -> JsonView {
        JsonView::Array(encodings(x@))
    }

    open spec fn wf(x: Vec<T>) -> bool {
        forall|i: int| 0 <= i < x@.len() ==> T::wf(#[trigger] x@[i])
    }

    proof fn lemma_round_trip(x: Vec<T>) {
        assert forall|i: int| 0 <= i < x@.len() implies T::accepts(encodings(x@)[i]) && T::denotes(
            encodings(x@)[i],
            #[trigger] x@[i],
        ) by {
            T::lemma_round_trip(x@[i]);
        }
    }

    fn decode(j: &Json) -> (r: Result<Vec<T>, DecodeError>) {
        match j {
            Json::Array(a) => {
                proof {
                    lemma_items_view(a@);
                }
                let mut out: Vec<T> = Vec::new();
                let mut i: usize = 0;
                while i < a.len()
                    invariant
                        0 <= i <= a.len(),
                        out@.len() == i,
                        j@ == JsonView::Array(items_view(a@)),
                        items_view(a@).len() == a@.len(),
                        forall|t: int| 0 <= t < a@.len() ==> #[trigger] items_view(a@)[t] == a@[t]@,
                        forall|t: int| 0 <= t < i ==> T::accepts(#[trigger] items_view(a@)[t]),
                        forall|t: int| 0 <= t < i ==> T::denotes(#[trigger] items_view(a@)[t], out@[t]),
                        forall|t: int| 0 <= t < i ==> T::wf(#[trigger] out@[t]),
                    decreases a.len() - i,
                {
                    match T::decode(&a[i]) {
                        Ok(x) => {
                            out.push(x);
                        },
                        Err(e) => {
                            assert(!T::accepts(items_view(a@)[i as int]));
                            assert(j@->Array_0 == items_view(a@));
                            return Err(e);
                        },
                    }
                    i = i + 1;
                }
                Ok(out)
            },
            _ => Err(DecodeError),
        }
    }

    fn encode(&self) -> (j: Json) {
        let mut out: Vec<Json> = Vec::new();
        let mut i: usize = 0;
        while i < self.len()
            invariant
                0 <= i <= self.len(),
                items_view(out@) == encodings(self@.subrange(0, i as int)),
            decreases self.len() - i,
        {
            let e = self[i].encode();
            proof {
                assert(out@.push(e).subrange(0, out@.len() as int) =~= out@);
                assert(encodings(self@.subrange(0, i + 1)) =~= encodings(
                    self@.subrange(0, i as int),
                ).push(T::encoding(self@[i as int])));
            }
            out.push(e);
            i = i + 1;
        }
        assert(self@.subrange(0, self@.len() as int) =~= self@);
        Json::Array(out)
    }
}

/// The `extensions` of an entity: for each extension name, its object.
pub type Extensions = StringMap<StringMap<Json>>;

/// A JSON object read as a map from names to values. A well-formed map has
/// unique keys; decoding keeps, for each key, the value of its last entry.
#[derive(Clone, Debug)]
pub struct StringMap<V> {
    pub entries: Vec<(String, V)>,
}

/// The encoding of each entry of `s`.
pub open spec fn entry_encodings<V: Codec>(s: Seq<(String, V)>) -> Seq<(Seq<char>, JsonView)> {
    s.map_values(|e: (String, V)| (e.0@, V::encoding(e.1)))
}

/// The keys of the entries of a map.
pub open spec fn map_keys<V>(s: Seq<(String, V)>) -> Seq<Seq<char>> {
    s.map_values(|e: (String, V)| e.0@)
}

/// The keys of the entries of an object.
pub open spec fn object_keys(m: Seq<(Seq<char>, JsonView)>) -> Seq<Seq<char>> {
    m.map_values(|e: (Seq<char>, JsonView)| e.0)
}

/// In an object whose keys are unique, each key finds its own entry.
pub proof fn lemma_lookup_unique(m: Seq<(Seq<char>, JsonView)>, i: int)
    requires
        object_keys(m).no_duplicates(),
        0 <= i < m.len(),
    ensures
        lookup(m, m[i].0) == Some(m[i].1),
    decreases m.len(),
{
    if i != m.len() - 1 {
        assert(object_keys(m)[i] == m[i].0);
        assert(object_keys(m)[m.len() - 1] == m.last().0);
        assert(object_keys(m.drop_last()) =~= object_keys(m).drop_last());
        lemma_lookup_unique(m.drop_last(), i);
    }
}

/// The lookups in an object after one more entry.
pub proof fn lemma_lookup_extend(e: Seq<(Seq<char>, JsonView)>, i: int)
    requires
        0 <= i < e.len(),
    ensures
        forall|k: Seq<char>| #[trigger] lookup(e.subrange(0, i + 1), k) == if e[i].0 == k {
            Some(e[i].1)
        } else {
            lookup(e.subrange(0, i), k)
        },
        object_keys(e.subrange(0, i + 1)) == object_keys(e.subrange(0, i)).push(e[i].0),
{
    assert(e.subrange(0, i + 1) =~= e.subrange(0, i) + seq![e[i]]);
    assert forall|k: Seq<char>| #[trigger] lookup(e.subrange(0, i + 1), k) == if e[i].0 == k {
        Some(e[i].1)
    } else {
        lookup(e.subrange(0, i), k)
    } by {
        lemma_lookup_push(e.subrange(0, i), e[i].0, e[i].1, k);
    }
    assert(object_keys(e.subrange(0, i + 1)) =~= object_keys(e.subrange(0, i)).push(e[i].0));
}

/// The position of the entry with key `k`, if there is one.
pub fn find_entry<V>(out: &Vec<(String, V)>, k: &String) -> (r: Option<usize>)
    ensures
        r matches Some(i) ==> i < out@.len() && out@[i as int].0@ == k@,
        r is None ==> !map_keys(out@).contains(k@),
{
    let mut i: usize = 0;
    while i < out.len()
        invariant
            0 <= i <= out@.len(),
            forall|t: int| 0 <= t < i ==> out@[t].0@ != k@,
        decreases out.len() - i,
    {
        if out[i].0 == *k {
            return Some(i);
        }
        i = i + 1;
    }
    assert forall|t: int| 0 <= t < out@.len() implies map_keys(out@)[t] != k@ by {
        assert(map_keys(out@)[t] == out@[t].0@);
    }
    None
}

impl<V: Codec> Codec for StringMap<V> {
    open spec fn accepts(j: JsonView) -> bool {
        match j {
            JsonView::Object(m) => forall|i: int| 0 <= i < m.len() ==> V::accepts(#[trigger] m[i].1),
            _ => false,
        }
    }

    /// Each key of the object is a key of the map, whose value is what the
    /// last entry with that key denotes.
    open spec fn denotes(j: JsonView, x: StringMap<V>) -> bool {
        match j {
            JsonView::Object(m) => {
                &&& forall|i: int| 0 <= i < m.len() ==> map_keys(x.entries@).contains(#[trigger] m[i].0)
                &&& forall|i: int|
                    0 <= i < x.entries@.len() ==> (lookup(m, #[trigger] x.entries@[i].0@) matches Some(
                        v,
                    ) && V::denotes(v, x.entries@[i].1))
            },
            _ => false,
        }
    }

    open spec fn encoding(x: StringMap<V>) -> JsonView {
        JsonView::Object(entry_encodings(x.entries@))
    }

    open spec fn wf(x: StringMap<V>) -> bool {
        &&& map_keys(x.entries@).no_duplicates()
        &&& forall|i: int| 0 <= i < x.entries@.len() ==> V::wf(#[trigger] x.entries@[i].1)
    }

    proof fn lemma_round_trip(x: StringMap<V>) {
        let s = x.entries@;
        let m = entry_encodings(s);
        assert(object_keys(m) =~= map_keys(s));
        assert forall|i: int| 0 <= i < m.len() implies V::accepts(#[trigger] m[i].1) by {
            V::lemma_round_trip(s[i].1);
        }
        assert forall|i: int| 0 <= i < m.len() implies map_keys(s).contains(#[trigger] m[i].0) by {
            assert(map_keys(s)[i] == m[i].0);
        }
        assert forall|i: int| 0 <= i < s.len() implies (lookup(m, #[trigger] s[i].0@) matches Some(v)
            && V::denotes(v, s[i].1)) by {
            lemma_lookup_unique(m, i);
            V::lemma_round_trip(s[i].1);
        }
    }

    fn decode(j: &Json) -> (r: Result<StringMap<V>, DecodeError>) {
        match j {
            Json::Object(m) => {
                proof {
                    lemma_entries_view(m@);
                }
                let ghost e = entries_view(m@);
                let mut out: Vec<(String, V)> = Vec::new();
                let mut i: usize = 0;
                while i < m.len()
                    invariant
                        0 <= i <= m.len(),
                        j@ == JsonView::Object(e),
                        e == entries_view(m@),
                        e.len() == m@.len(),
                        forall|t: int| 0 <= t < m@.len() ==> #[trigger] e[t] == (m@[t].0@, m@[t].1@),
                        forall|t: int| 0 <= t < i ==> V::accepts(#[trigger] e[t].1),
                        map_keys(out@).no_duplicates(),
                        forall|t: int| 0 <= t < i ==> map_keys(out@).contains(#[trigger] e[t].0),
                        forall|t: int|
                            0 <= t < out@.len() ==> (lookup(e.subrange(0, i as int), #[trigger] out@[t].0@) matches Some(
                                v,
                            ) && V::denotes(v, out@[t].1)),
                        forall|t: int| 0 <= t < out@.len() ==> V::wf(#[trigger] out@[t].1),
                    decreases m.len() - i,
                {
                    let x = match V::decode(&m[i].1) {
                        Ok(x) => x,
                        Err(err) => {
                            assert(!V::accepts(e[i as int].1));
                            assert(j@->Object_0 == e);
                            return Err(err);
                        },
                    };
                    proof {
                        lemma_lookup_extend(e, i as int);
                    }
                    assert(e[i as int].0 == m@[i as int].0@);
                    assert(e[i as int].1 == m@[i as int].1@);
                    let ghost before = out@;
                    let key = m[i].0.clone();
                    match find_entry(&out, &m[i].0) {
                        Some(idx) => {
                            out.set(idx, (key, x));
                            assert(map_keys(out@) =~= map_keys(before));
                            assert(map_keys(out@)[idx as int] == e[i as int].0);
                            assert forall|t: int| 0 <= t < out@.len() implies (lookup(
                                e.subrange(0, i + 1),
                                #[trigger] out@[t].0@,
                            ) matches Some(v) && V::denotes(v, out@[t].1)) by {
                                if t != idx {
                                    assert(map_keys(before)[t] == before[t].0@);
                                    assert(out@[t] == before[t]);
                                }
                            }
                        },
                        None => {
                            out.push((key, x));
                            assert(map_keys(out@) =~= map_keys(before).push(e[i as int].0));
                            assert(map_keys(out@)[before.len() as int] == e[i as int].0);
                            assert forall|t: int| 0 <= t < out@.len() implies (lookup(
                                e.subrange(0, i + 1),
                                #[trigger] out@[t].0@,
                            ) matches Some(v) && V::denotes(v, out@[t].1)) by {
                                if t < before.len() {
                                    assert(map_keys(before)[t] == before[t].0@);
                                    assert(out@[t] == before[t]);
                                }
                            }
                        },
                    }
                    assert forall|t: int| 0 <= t < i + 1 implies map_keys(out@).contains(
                        #[trigger] e[t].0,
                    ) by {
                        if t < i {
                            let w = choose|w: int| 0 <= w < before.len() && map_keys(before)[w] == e[t].0;
                            assert(map_keys(out@)[w] == e[t].0);
                        }
                    }
                    i = i + 1;
                }
                assert(e.subrange(0, m@.len() as int) =~= e);
                assert(j@->Object_0 == e);
                Ok(StringMap { entries: out })
            },
            _ => Err(DecodeError),
        }
    }

    fn encode(&self) -> (j: Json) {
        let mut out: Vec<(String, Json)> = Vec::new();
        let mut i: usize = 0;
        while i < self.entries.len()
            invariant
                0 <= i <= self.entries.len(),
                entries_view(out@) == entry_encodings(self.entries@.subrange(0, i as int)),
            decreases self.entries.len() - i,
        {
            let e = (self.entries[i].0.clone(), self.entries[i].1.encode());
            proof {
                assert(out@.push(e).subrange(0, out@.len() as int) =~= out@);
                assert(entry_encodings(self.entries@.subrange(0, i + 1)) =~= entry_encodings(
                    self.entries@.subrange(0, i as int),
                ).push((self.entries@[i as int].0@, V::encoding(self.entries@[i as int].1))));
            }
            out.push(e);
            i = i + 1;
        }
        assert(self.entries@.subrange(0, self.entries@.len() as int) =~= self.entries@);
        Json::Object(out)
    }
}

/// A free-form value, carried as it is.
impl Codec for Json {
    open spec fn accepts(j: JsonView) -> bool {
        true
    }

    open spec fn denotes(j: JsonView, x: Json) -> bool {
        x@ == j
    }

    open spec fn encoding(x: Json) -> JsonView {
        x@
    }

    open spec fn wf(x: Json) -> bool {
        true
    }

    proof fn lemma_round_trip(x: Json) {
    }

    fn decode(j: &Json) -> (r: Result<Json, DecodeError>) {
        Ok(j.deep_copy())
    }

    fn encode(&self) -> (j: Json) {
        self.deep_copy()
    }
}

/// A fixed triple of numbers, written as a JSON array of exactly three.
impl Codec for [Number; 3] {
    open spec fn accepts(j: JsonView) -> bool {
        match j {
            JsonView::Array(s) => s.len() == 3 && s[0] is Number && s[1] is Number && s[2] is Number,
            _ => false,
        }
    }

    open spec fn denotes(j: JsonView, x: [Number; 3]) -> bool {
        j == JsonView::Array(
            seq![JsonView::Number(x@[0]), JsonView::Number(x@[1]), JsonView::Number(x@[2])],
        )
    }

    open spec fn encoding(x: [Number; 3]) -> JsonView {
        JsonView::Array(
            seq![JsonView::Number(x@[0]), JsonView::Number(x@[1]), JsonView::Number(x@[2])],
        )
    }

    open spec fn wf(x: [Number; 3]) -> bool {
        true
    }

    proof fn lemma_round_trip(x: [Number; 3]) {
    }

    fn decode(j: &Json) -> (r: Result<[Number; 3], DecodeError>) {
        match j {
            Json::Array(a) => {
                proof {
                    lemma_items_view(a@);
                }
                if a.len() != 3 {
                    return Err(DecodeError);
                }
                match (&a[0], &a[1], &a[2]) {
                    (Json::Number(x), Json::Number(y), Json::Number(z)) => {
                        let r = [*x, *y, *z];
                        assert(items_view(a@) =~= seq![
                            JsonView::Number(r@[0]),
                            JsonView::Number(r@[1]),
                            JsonView::Number(r@[2]),
                        ]);
                        Ok(r)
                    },
                    _ => Err(DecodeError),
                }
            },
            _ => Err(DecodeError),
        }
    }

    fn encode(&self) -> (j: Json) {
        let mut out: Vec<Json> = Vec::new();
        out.push(Json::Number(self[0]));
        out.push(Json::Number(self[1]));
        out.push(Json::Number(self[2]));
        proof {
            lemma_items_view(out@);
        }
        assert(items_view(out@) =~= seq![
            JsonView::Number(self@[0]),
            JsonView::Number(self@[1]),
            JsonView::Number(self@[2]),
        ]);
        Json::Array(out)
    }
}

/// The encoding of an optional value, if it is there.
pub open spec fn opt_encoding<T: Codec>(x: Option<T>) -> Option<JsonView> {
    match x {
        Some(v) => Some(T::encoding(v)),
        None => None,
    }
}

/// An optional field `v` decodes: it is not given, or its value is accepted.
pub open spec fn opt_ok<T: Codec>(v: Option<JsonView>) -> bool {
    match given(v) {
        None => true,
        Some(j) => T::accepts(j),
    }
}

/// `x` is the value of the optional field `v`.
pub open spec fn opt_is<T: Codec>(v: Option<JsonView>, x: Option<T>) -> bool {
    match given(v) {
        None => x is None,
        Some(j) => x matches Some(y) && T::denotes(j, y),
    }
}

/// An optional value is well formed if it is absent or well formed.
pub open spec fn opt_wf<T: Codec>(x: Option<T>) -> bool {
    match x {
        Some(v) => T::wf(v),
        None => true,
    }
}

/// A required field `v` decodes: it is given and its value is accepted.
pub open spec fn req_ok<T: Codec>(v: Option<JsonView>) -> bool {
    match given(v) {
        None => false,
        Some(j) => T::accepts(j),
    }
}

/// `x` is the value of the required field `v`.
pub open spec fn req_is<T: Codec>(v: Option<JsonView>, x: T) -> bool {
    match given(v) {
        None => false,
        Some(j) => T::denotes(j, x),
    }
}

/// `x` is the free-form value of the field `v`; `null` when it is not given.
pub open spec fn extras_is(v: Option<JsonView>, x: Json) -> bool {
    match given(v) {
        None => x@ == JsonView::Null,
        Some(j) => x@ == j,
    }
}

/// The entry that an optional field is written as: none when it is absent.
pub open spec fn opt_entry<T: Codec>(k: Seq<char>, x: Option<T>) -> Seq<(Seq<char>, JsonView)> {
    match x {
        Some(v) => seq![(k, T::encoding(v))],
        None => Seq::empty(),
    }
}

/// The entry that a required field is written as.
pub open spec fn req_entry<T: Codec>(k: Seq<char>, x: T) -> Seq<(Seq<char>, JsonView)> {
    seq![(k, T::encoding(x))]
}

/// The entry that a free-form field is written as: none when it is `null`.
pub open spec fn extras_entry(k: Seq<char>, x: Json) -> Seq<(Seq<char>, JsonView)> {
    if x@ == JsonView::Null {
        Seq::empty()
    } else {
        seq![(k, x@)]
    }
}

pub proof fn lemma_lookup_single(k2: Seq<char>, v: JsonView, k: Seq<char>)
    ensures
        lookup(seq![(k2, v)], k) == if k2 == k {
            Some(v)
        } else {
            None
        },
{
    let s = seq![(k2, v)];
    assert(s.last() == (k2, v));
    if k2 != k {
        assert(s.drop_last() =~= Seq::<(Seq<char>, JsonView)>::empty());
        assert(lookup(s.drop_last(), k) is None);
    }
}

pub proof fn lemma_lookup_push(a: Seq<(Seq<char>, JsonView)>, k2: Seq<char>, v: JsonView, k: Seq<char>)
    ensures
        lookup(a + seq![(k2, v)], k) == if k2 == k {
            Some(v)
        } else {
            lookup(a, k)
        },
{
    let s = a + seq![(k2, v)];
    assert(s.last() == (k2, v));
    assert(s.drop_last() =~= a);
}

pub broadcast proof fn lemma_lookup_opt_entry<T: Codec>(k2: Seq<char>, x: Option<T>, k: Seq<char>)
    ensures
        #[trigger] lookup(opt_entry::<T>(k2, x), k) == if k2 == k {
            opt_encoding(x)
        } else {
            None
        },
{
    if let Some(v) = x {
        lemma_lookup_single(k2, T::encoding(v), k);
    }
}

pub broadcast proof fn lemma_lookup_req_entry<T: Codec>(k2: Seq<char>, x: T, k: Seq<char>)
    ensures
        #[trigger] lookup(req_entry::<T>(k2, x), k) == if k2 == k {
            Some(T::encoding(x))
        } else {
            None
        },
{
    lemma_lookup_single(k2, T::encoding(x), k);
}

pub broadcast proof fn lemma_lookup_extras_entry(k2: Seq<char>, x: Json, k: Seq<char>)
    ensures
        #[trigger] lookup(extras_entry(k2, x), k) == if k2 == k && x@ != JsonView::Null {
            Some(x@)
        } else {
            None
        },
{
    if x@ != JsonView::Null {
        lemma_lookup_single(k2, x@, k);
    }
}

pub broadcast proof fn lemma_lookup_then_opt_entry<T: Codec>(
    a: Seq<(Seq<char>, JsonView)>,
    k2: Seq<char>,
    x: Option<T>,
    k: Seq<char>,
)
    ensures
        #[trigger] lookup(a + opt_entry::<T>(k2, x), k) == if k2 == k && x is Some {
            opt_encoding(x)
        } else {
            lookup(a, k)
        },
{
    match x {
        Some(v) => lemma_lookup_push(a, k2, T::encoding(v), k),
        None => assert(a + opt_entry::<T>(k2, x) =~= a),
    }
}

pub broadcast proof fn lemma_lookup_then_req_entry<T: Codec>(
    a: Seq<(Seq<char>, JsonView)>,
    k2: Seq<char>,
    x: T,
    k: Seq<char>,
)
    ensures
        #[trigger] lookup(a + req_entry::<T>(k2, x), k) == if k2 == k {
            Some(T::encoding(x))
        } else {
            lookup(a, k)
        },
{
    lemma_lookup_push(a, k2, T::encoding(x), k);
}

pub broadcast proof fn lemma_lookup_then_extras_entry(
    a: Seq<(Seq<char>, JsonView)>,
    k2: Seq<char>,
    x: Json,
    k: Seq<char>,
)
    ensures
        #[trigger] lookup(a + extras_entry(k2, x), k) == if k2 == k && x@ != JsonView::Null {
            Some(x@)
        } else {
            lookup(a, k)
        },
{
    if x@ != JsonView::Null {
        lemma_lookup_push(a, k2, x@, k);
    } else {
        assert(a + extras_entry(k2, x) =~= a);
    }
}

pub broadcast group group_lookup {
    lemma_lookup_opt_entry,
    lemma_lookup_req_entry,
    lemma_lookup_extras_entry,
    lemma_lookup_then_opt_entry,
    lemma_lookup_then_req_entry,
    lemma_lookup_then_extras_entry,
}

/// An optional field read back from its entry is the value written.
pub proof fn lemma_opt_field<T: Codec>(x: Option<T>)
    requires
        x matches Some(v) ==> T::encoding(v) != JsonView::Null,
        opt_wf(x),
    ensures
        opt_ok::<T>(opt_encoding(x)),
        opt_is::<T>(opt_encoding(x), x),
{
    if let Some(v) = x {
        T::lemma_round_trip(v);
    }
}

/// A required field read back from its entry is the value written.
pub proof fn lemma_req_field<T: Codec>(x: T)
    requires
        T::encoding(x) != JsonView::Null,
        T::wf(x),
    ensures
        req_ok::<T>(Some(T::encoding(x))),
        req_is::<T>(Some(T::encoding(x)), x),
{
    T::lemma_round_trip(x);
}

/// Decodes the optional field `k` of `j`.
pub fn opt_field<T: Codec>(j: &Json, k: &str) -> (r: Result<Option<T>, DecodeError>)
    ensures
        r is Ok <==> opt_ok::<T>(get(j@, k@)),
        r matches Ok(x) ==> opt_is::<T>(get(j@, k@), x) && opt_wf(x),
{
    match field(j, k) {
        None => Ok(None),
        Some(Json::Null) => Ok(None),
        Some(v) => match T::decode(v) {
            Ok(x) => Ok(Some(x)),
            Err(e) => Err(e),
        },
    }
}

/// Decodes the required field `k` of `j`.
pub fn req_field<T: Codec>(j: &Json, k: &str) -> (r: Result<T, DecodeError>)
    ensures
        r is Ok <==> req_ok::<T>(get(j@, k@)),
        r matches Ok(x) ==> req_is::<T>(get(j@, k@), x) && T::wf(x),
{
    match field(j, k) {
        None => Err(DecodeError),
        Some(Json::Null) => Err(DecodeError),
        Some(v) => T::decode(v),
    }
}

/// The free-form field `k` of `j`, carried as it is; `null` when not given.
pub fn extras_field(j: &Json, k: &str) -> (r: Json)
    ensures
        extras_is(get(j@, k@), r),
{
    match field(j, k) {
        None => Json::Null,
        Some(v) => v.deep_copy(),
    }
}

/// Writes the optional field `k`, if it is there.
pub fn put_opt<T: Codec>(m: &mut Vec<(String, Json)>, k: &str, x: &Option<T>)
    ensures
        entries_view(final(m)@) == entries_view(old(m)@) + opt_entry::<T>(k@, *x),
{
    match x {
        Some(v) => {
            let e = (k.to_owned(), v.encode());
            m.push(e);
            assert(final(m)@.subrange(0, old(m)@.len() as int) =~= old(m)@);
        },
        None => {
            assert(entries_view(old(m)@) + opt_entry::<T>(k@, *x) =~= entries_view(old(m)@));
        },
    }
}

/// Writes the required field `k`.
pub fn put_req<T: Codec>(m: &mut Vec<(String, Json)>, k: &str, x: &T)
    ensures
        entries_view(final(m)@) == entries_view(old(m)@) + req_entry::<T>(k@, *x),
{
    let e = (k.to_owned(), x.encode());
    m.push(e);
    assert(final(m)@.subrange(0, old(m)@.len() as int) =~= old(m)@);
}

/// Writes the free-form field `k`, unless it is `null`.
pub fn put_extras(m: &mut Vec<(String, Json)>, k: &str, x: &Json)
    ensures
        entries_view(final(m)@) == entries_view(old(m)@) + extras_entry(k@, *x),
{
    match x {
        Json::Null => {
            assert(entries_view(old(m)@) + extras_entry(k@, *x) =~= entries_view(old(m)@));
        },
        _ => {
            let e = (k.to_owned(), x.deep_copy());
            m.push(e);
            assert(final(m)@.subrange(0, old(m)@.len() as int) =~= old(m)@);
        },
    }
}

/// A closed vocabulary of names, each written as one JSON string.
pub trait Name: Sized {
    /// The string that the value is written as.
    spec fn name(self) -> Seq<char>;

    /// `s` is the name of some value.
    spec fn is_name(s: Seq<char>) -> bool;

    proof fn lemma_name_is_name(x: Self)
        ensures
            Self::is_name(x.name()),
    ;

    fn from_name(s: &String) -> (r: Option<Self>)
        ensures
            r is Some <==> Self::is_name(s@),
            r matches Some(x) ==> x.name() == s@,
    ;

    fn to_name(&self) -> (r: String)
        ensures
            r@ == self.name(),
    ;
}

/// Whether `a` holds the characters of `b`.
pub fn eq_str(a: &String, b: &str) -> (r: bool)
    ensures
        r == (a@ == b@),
{
    *a == b.to_owned()
}

/// A JSON object whose keys are names of a closed vocabulary. A well-formed
/// map has unique keys; decoding keeps, for each key, the value of its last
/// entry.
#[derive(Clone, Debug)]
pub struct NameMap<K, V> {
    pub entries: Vec<(K, V)>,
}

/// The names of the keys of the entries of a name-keyed map.
pub open spec fn name_keys<K: Name, V>(s: Seq<(K, V)>) -> Seq<Seq<char>> {
    s.map_values(|e: (K, V)| e.0.name())
}

/// The position of the entry whose key has the name `k`, if there is one.
pub fn find_name<K: Name, V>(out: &Vec<(K, V)>, k: &String) -> (r: Option<usize>)
    ensures
        r matches Some(i) ==> i < out@.len() && out@[i as int].0.name() == k@,
        r is None ==> !name_keys(out@).contains(k@),
{
    let mut i: usize = 0;
    while i < out.len()
        invariant
            0 <= i <= out@.len(),
            forall|t: int| 0 <= t < i ==> out@[t].0.name() != k@,
        decreases out.len() - i,
    {
        if out[i].0.to_name() == *k {
            return Some(i);
        }
        i = i + 1;
    }
    assert forall|t: int| 0 <= t < out@.len() implies name_keys(out@)[t] != k@ by {
        assert(name_keys(out@)[t] == out@[t].0.name());
    }
    None
}

impl<K: Name, V: Codec> Codec for NameMap<K, V> {
    open spec fn accepts(j: JsonView) -> bool {
        match j {
            JsonView::Object(m) => forall|i: int|
                0 <= i < m.len() ==> K::is_name(#[trigger] m[i].0) && V::accepts(m[i].1),
            _ => false,
        }
    }

    /// Each key of the object names a key of the map, whose value is what the
    /// last entry with that key denotes.
    open spec fn denotes(j: JsonView, x: NameMap<K, V>) -> bool {
        match j {
            JsonView::Object(m) => {
                &&& forall|i: int| 0 <= i < m.len() ==> name_keys(x.entries@).contains(#[trigger] m[i].0)
                &&& forall|i: int|
                    0 <= i < x.entries@.len() ==> (lookup(m, #[trigger] x.entries@[i].0.name()) matches Some(
                        v,
                    ) && V::denotes(v, x.entries@[i].1))
            },
            _ => false,
        }
    }

    open spec fn encoding(x: NameMap<K, V>) -> JsonView {
        JsonView::Object(x.entries@.map_values(|e: (K, V)| (e.0.name(), V::encoding(e.1))))
    }

    open spec fn wf(x: NameMap<K, V>) -> bool {
        &&& name_keys(x.entries@).no_duplicates()
        &&& forall|i: int| 0 <= i < x.entries@.len() ==> V::wf(#[trigger] x.entries@[i].1)
    }

    proof fn lemma_round_trip(x: NameMap<K, V>) {
        let s = x.entries@;
        let m = s.map_values(|e: (K, V)| (e.0.name(), V::encoding(e.1)));
        assert(object_keys(m) =~= name_keys(s));
        assert forall|i: int| 0 <= i < m.len() implies K::is_name(#[trigger] m[i].0) && V::accepts(
            m[i].1,
        ) by {
            K::lemma_name_is_name(s[i].0);
            V::lemma_round_trip(s[i].1);
        }
        assert forall|i: int| 0 <= i < m.len() implies name_keys(s).contains(#[trigger] m[i].0) by {
            assert(name_keys(s)[i] == m[i].0);
        }
        assert forall|i: int| 0 <= i < s.len() implies (lookup(m, #[trigger] s[i].0.name()) matches Some(
            v,
        ) && V::denotes(v, s[i].1)) by {
            lemma_lookup_unique(m, i);
            V::lemma_round_trip(s[i].1);
        }
    }

    fn decode(j: &Json) -> (r: Result<NameMap<K, V>, DecodeError>) {
        match j {
            Json::Object(m) => {
                proof {
                    lemma_entries_view(m@);
                }
                let ghost e = entries_view(m@);
                let mut out: Vec<(K, V)> = Vec::new();
                let mut i: usize = 0;
                while i < m.len()
                    invariant
                        0 <= i <= m.len(),
                        j@ == JsonView::Object(e),
                        e == entries_view(m@),
                        e.len() == m@.len(),
                        forall|t: int| 0 <= t < m@.len() ==> #[trigger] e[t] == (m@[t].0@, m@[t].1@),
                        forall|t: int|
                            0 <= t < i ==> K::is_name(#[trigger] e[t].0) && V::accepts(e[t].1),
                        name_keys(out@).no_duplicates(),
                        forall|t: int| 0 <= t < i ==> name_keys(out@).contains(#[trigger] e[t].0),
                        forall|t: int|
                            0 <= t < out@.len() ==> (lookup(e.subrange(0, i as int), #[trigger] out@[t].0.name()) matches Some(
                                v,
                            ) && V::denotes(v, out@[t].1)),
                        forall|t: int| 0 <= t < out@.len() ==> V::wf(#[trigger] out@[t].1),
                    decreases m.len() - i,
                {
                    let k = match K::from_name(&m[i].0) {
                        Some(k) => k,
                        None => {
                            assert(!K::is_name(e[i as int].0));
                            assert(j@->Object_0 == e);
                            return Err(DecodeError);
                        },
                    };
                    let x = match V::decode(&m[i].1) {
                        Ok(x) => x,
                        Err(err) => {
                            assert(!V::accepts(e[i as int].1));
                            assert(e[i as int].0 == m@[i as int].0@);
                            assert(j@->Object_0 == e);
                            return Err(err);
                        },
                    };
                    proof {
                        lemma_lookup_extend(e, i as int);
                    }
                    assert(e[i as int].0 == m@[i as int].0@);
                    assert(e[i as int].1 == m@[i as int].1@);
                    assert(K::is_name(e[i as int].0) && V::accepts(e[i as int].1));
                    assert forall|t: int| 0 <= t < i + 1 implies K::is_name(#[trigger] e[t].0) && V::accepts(
                        e[t].1,
                    ) by {
                        if t == i {
                            assert(K::is_name(e[i as int].0) && V::accepts(e[i as int].1));
                        }
                    }
                    let ghost before = out@;
                    match find_name(&out, &m[i].0) {
                        Some(idx) => {
                            out.set(idx, (k, x));
                            assert(name_keys(out@) =~= name_keys(before));
                            assert(name_keys(out@)[idx as int] == e[i as int].0);
                            assert forall|t: int| 0 <= t < out@.len() implies (lookup(
                                e.subrange(0, i + 1),
                                #[trigger] out@[t].0.name(),
                            ) matches Some(v) && V::denotes(v, out@[t].1)) by {
                                if t != idx {
                                    assert(name_keys(before)[t] == before[t].0.name());
                                    assert(out@[t] == before[t]);
                                }
                            }
                        },
                        None => {
                            out.push((k, x));
                            assert(name_keys(out@) =~= name_keys(before).push(e[i as int].0));
                            assert(name_keys(out@)[before.len() as int] == e[i as int].0);
                            assert forall|t: int| 0 <= t < out@.len() implies (lookup(
                                e.subrange(0, i + 1),
                                #[trigger] out@[t].0.name(),
                            ) matches Some(v) && V::denotes(v, out@[t].1)) by {
                                if t < before.len() {
                                    assert(name_keys(before)[t] == before[t].0.name());
                                    assert(out@[t] == before[t]);
                                }
                            }
                        },
                    }
                    assert forall|t: int| 0 <= t < i + 1 implies name_keys(out@).contains(
                        #[trigger] e[t].0,
                    ) by {
                        if t < i {
                            let w = choose|w: int| 0 <= w < before.len() && name_keys(before)[w] == e[t].0;
                            assert(name_keys(out@)[w] == e[t].0);
                        }
                    }
                    i = i + 1;
                }
                assert(e.subrange(0, m@.len() as int) =~= e);
                assert(j@->Object_0 == e);
                Ok(NameMap { entries: out })
            },
            _ => Err(DecodeError),
        }
    }

    fn encode(&self) -> (j: Json) {
        let mut out: Vec<(String, Json)> = Vec::new();
        let mut i: usize = 0;
        while i < self.entries.len()
            invariant
                0 <= i <= self.entries.len(),
                entries_view(out@) == self.entries@.subrange(0, i as int).map_values(
                    |e: (K, V)| (e.0.name(), V::encoding(e.1)),
                ),
            decreases self.entries.len() - i,
        {
            let e = (self.entries[i].0.to_name(), self.entries[i].1.encode());
            proof {
                assert(out@.push(e).subrange(0, out@.len() as int) =~= out@);
                assert(self.entries@.subrange(0, i + 1).map_values(
                    |e: (K, V)| (e.0.name(), V::encoding(e.1)),
                ) =~= self.entries@.subrange(0, i as int).map_values(
                    |e: (K, V)| (e.0.name(), V::encoding(e.1)),
                ).push((self.entries@[i as int].0.name(), V::encoding(self.entries@[i as int].1))));
            }
            out.push(e);
            i = i + 1;
        }
        assert(self.entries@.subrange(0, self.entries@.len() as int) =~= self.entries@);
        Json::Object(out)
    }
}

} // verus!
