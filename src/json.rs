//! A plain JSON value, the input of every decoder and the output of every encoder.
use vstd::prelude::*;

verus! {

/// A JSON number, kept exactly as it was written.
///
/// Integers are held as integers; any other number is held as the IEEE-754 bit
/// pattern of the `f64` it denotes, which this library carries without reading.
#[derive(Clone, Copy, Debug, PartialEq, Eq, Structural)]
pub enum Number {
    PosInt(u64),
    NegInt(i64),
    Float(u64),
}

impl Number {
    /// The integer that the number denotes, if it is written as an integer.
    pub open spec fn int_value(self) -> Option<int> {
        match self {
            Number::PosInt(u) => Some(u as int),
            Number::NegInt(i) => Some(i as int),
            Number::Float(_) => None,
        }
    }

    /// The number of a signed integer, as a JSON writer gives it.
    pub open spec fn of_i64(i: i64) -> Number {
        if i >= 0 {
            Number::PosInt(i as u64)
        } else {
            Number::NegInt(i)
        }
    }

    pub fn from_i64(i: i64) -> (r: Number)
        ensures
            r == Number::of_i64(i),
            r.int_value() == Some(i as int),
    {
        if i >= 0 {
            Number::PosInt(i as u64)
        } else {
            Number::NegInt(i)
        }
    }

    /// Reads the number as a signed 64-bit integer.
    pub fn as_i64(&self) -> (r: Option<i64>)
        ensures
            r matches Some(i) ==> self.int_value() == Some(i as int),
            r is None ==> !(self.int_value() matches Some(v) && i64::MIN <= v <= i64::MAX),
    {
        match self {
            Number::PosInt(u) => {
                if *u <= i64::MAX as u64 {
                    Some(*u as i64)
                } else {
                    None
                }
            },
            Number::NegInt(i) => Some(*i),
            Number::Float(_) => None,
        }
    }

    /// Reads the number as an unsigned machine-size integer.
    pub fn as_usize(&self) -> (r: Option<usize>)
        ensures
            r matches Some(u) ==> self.int_value() == Some(u as int),
            r is None ==> !(self.int_value() matches Some(v) && 0 <= v <= usize::MAX),
    {
        match self {
            Number::PosInt(u) => {
                if *u <= usize::MAX as u64 {
                    Some(*u as usize)
                } else {
                    None
                }
            },
            Number::NegInt(i) => {
                if *i >= 0 && (*i as u64) <= usize::MAX as u64 {
                    Some(*i as usize)
                } else {
                    None
                }
            },
            Number::Float(_) => None,
        }
    }
}

/// A JSON value. An object is the list of its entries, in the order written.
#[derive(Debug)]
pub enum Json {
    Null,
    Bool(bool),
    Number(Number),
    String(String),
    Array(Vec<Json>),
    Object(Vec<(String, Json)>),
}

/// The mathematical value of a [`Json`]: strings as sequences of characters.
pub enum JsonView {
    Null,
    Bool(bool),
    Number(Number),
    String(Seq<char>),
    Array(Seq<JsonView>),
    Object(Seq<(Seq<char>, JsonView)>),
}

/// The value of each element of `s`.
pub open spec fn items_view(s: Seq<Json>) -> Seq<JsonView>
    decreases s,
{
    if s.len() == 0 {
        Seq::empty()
    } else {
        items_view(s.subrange(0, s.len() - 1)).push(json_view(s[s.len() - 1]))
    }
}

/// The value of each entry of `s`.
pub open spec fn entries_view(s: Seq<(String, Json)>) -> Seq<(Seq<char>, JsonView)>
    decreases s,
{
    if s.len() == 0 {
        Seq::empty()
    } else {
        entries_view(s.subrange(0, s.len() - 1)).push(
            (s[s.len() - 1].0@, json_view(s[s.len() - 1].1)),
        )
    }
}

/// The value of a JSON value.
pub open spec fn json_view(j: Json) -> JsonView
    decreases j,
{
    match j {
        Json::Null => JsonView::Null,
        Json::Bool(b) => JsonView::Bool(b),
        Json::Number(n) => JsonView::Number(n),
        Json::String(s) => JsonView::String(s@),
        Json::Array(v) => JsonView::Array(items_view(v@)),
        Json::Object(m) => JsonView::Object(entries_view(m@)),
    }
}

impl View for Json {
    type V = JsonView;

    open spec fn view(&self) -> JsonView {
        json_view(*self)
    }
}

pub proof fn lemma_items_view(s: Seq<Json>)
    ensures
        items_view(s).len() == s.len(),
        forall|i: int| 0 <= i < s.len() ==> #[trigger] items_view(s)[i] == s[i]@,
    decreases s.len(),
{
    if s.len() > 0 {
        lemma_items_view(s.subrange(0, s.len() - 1));
    }
}

pub proof fn lemma_entries_view(s: Seq<(String, Json)>)
    ensures
        entries_view(s).len() == s.len(),
        forall|i: int|
            0 <= i < s.len() ==> #[trigger] entries_view(s)[i] == (s[i].0@, s[i].1@),
    decreases s.len(),
{
    if s.len() > 0 {
        lemma_entries_view(s.subrange(0, s.len() - 1));
    }
}

/// The value of the last entry with key `k`: a later entry overrides an
/// earlier one.
pub open spec fn lookup(m: Seq<(Seq<char>, JsonView)>, k: Seq<char>) -> Option<JsonView>
    decreases m.len(),
{
    if m.len() == 0 {
        None
    } else if m.last().0 == k {
        Some(m.last().1)
    } else {
        lookup(m.drop_last(), k)
    }
}

/// The value under key `k` when `j` is an object that has one.
pub open spec fn get(j: JsonView, k: Seq<char>) -> Option<JsonView> {
    match j {
        JsonView::Object(m) => lookup(m, k),
        _ => None,
    }
}

/// A field as a decoder sees it: absent and `null` both mean "not given".
pub open spec fn given(v: Option<JsonView>) -> Option<JsonView> {
    match v {
        Some(JsonView::Null) => None,
        _ => v,
    }
}

/// The value under key `k` in the object entries `m`.
pub fn get_field<'a>(m: &'a Vec<(String, Json)>, k: &str) -> (r: Option<&'a Json>)
    ensures
        r matches Some(v) ==> lookup(entries_view(m@), k@) == Some(v@),
        r is None ==> lookup(entries_view(m@), k@) is None,
{
    proof {
        lemma_entries_view(m@);
    }
    let key = k.to_owned();
    let mut i: usize = m.len();
    assert(entries_view(m@).subrange(0, m@.len() as int) =~= entries_view(m@));
    while i > 0
        invariant
            0 <= i <= m.len(),
            key@ == k@,
            entries_view(m@).len() == m@.len(),
            forall|t: int|
                0 <= t < m@.len() ==> #[trigger] entries_view(m@)[t] == (m@[t].0@, m@[t].1@),
            lookup(entries_view(m@), k@) == lookup(entries_view(m@).subrange(0, i as int), k@),
        decreases i,
    {
        let ghost prefix = entries_view(m@).subrange(0, i as int);
        assert(prefix.last() == entries_view(m@)[i - 1]);
        if m[i - 1].0 == key {
            return Some(&m[i - 1].1);
        }
        assert(prefix.drop_last() =~= entries_view(m@).subrange(0, i - 1));
        i = i - 1;
    }
    None
}

/// Looks a field up in `j`; `None` unless `j` is an object that has it.
pub fn field<'a>(j: &'a Json, k: &str) -> (r: Option<&'a Json>)
    ensures
        r matches Some(v) ==> get(j@, k@) == Some(v@),
        r is None ==> get(j@, k@) is None,
{
    match j {
        Json::Object(m) => get_field(m, k),
        _ => None,
    }
}

impl Json {
    pub fn is_object(&self) -> (r: bool)
        ensures
            r == (self@ is Object),
    {
        match self {
            Json::Object(_) => true,
            _ => false,
        }
    }

    /// A copy of the value.
    pub fn deep_copy(&self) -> (r: Json)
        ensures
            r@ == self@,
        decreases self,
    {
        match self {
            Json::Null => Json::Null,
            Json::Bool(b) => Json::Bool(*b),
            Json::Number(n) => Json::Number(*n),
            Json::String(s) => Json::String(s.clone()),
            Json::Array(v) => {
                let mut out: Vec<Json> = Vec::new();
                let mut i: usize = 0;
                while i < v.len()
                    invariant
                        0 <= i <= v.len(),
                        items_view(out@) == items_view(v@.subrange(0, i as int)),
                        *self == Json::Array(*v),
                    decreases v.len() - i,
                {
                    proof {
                        assert(decreases_to!(*self => (*self)->Array_0));
                        assert(decreases_to!(v => v[i as int]));
                    }
                    let c = v[i].deep_copy();
                    proof {
                        assert(out@.push(c).subrange(0, out@.len() as int) =~= out@);
                        assert(v@.subrange(0, i + 1).subrange(0, i as int) =~= v@.subrange(0, i as int));
                    }
                    out.push(c);
                    i = i + 1;
                }
                assert(v@.subrange(0, v@.len() as int) =~= v@);
                Json::Array(out)
            },
            Json::Object(m) => {
                let mut out: Vec<(String, Json)> = Vec::new();
                let mut i: usize = 0;
                while i < m.len()
                    invariant
                        0 <= i <= m.len(),
                        entries_view(out@) == entries_view(m@.subrange(0, i as int)),
                        *self == Json::Object(*m),
                    decreases m.len() - i,
                {
                    proof {
                        assert(decreases_to!(*self => (*self)->Object_0));
                        assert(decreases_to!(m => m[i as int]));
                        assert(decreases_to!(m[i as int] => m[i as int].1));
                    }
                    let c = (m[i].0.clone(), m[i].1.deep_copy());
                    proof {
                        assert(out@.push(c).subrange(0, out@.len() as int) =~= out@);
                        assert(m@.subrange(0, i + 1).subrange(0, i as int) =~= m@.subrange(0, i as int));
                    }
                    out.push(c);
                    i = i + 1;
                }
                assert(m@.subrange(0, m@.len() as int) =~= m@);
                Json::Object(out)
            },
        }
    }
}

impl Clone for Json {
    fn clone(&self) -> Json {
        self.deep_copy()
    }
}

} // verus!
