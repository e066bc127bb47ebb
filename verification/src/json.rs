//! JSON values as the library reads and builds them.
//!
//! The gateway's logic inspects and produces JSON-RPC / OpenAI payloads. It
//! works on [`Json`], a plain tree of values whose view is [`JsonV`]; the
//! program around the library converts to and from its serializer's values.

use vstd::prelude::*;
use crate::text::{str_eq, to_string};

verus! {

broadcast use vstd::string::group_string_axioms;

/// A JSON value. Integers are exact; any other number is kept as its text.
/// An object keeps its members in order; reading a key finds its first member.
#[derive(Debug)]
pub enum Json {
    Null,
    Bool(bool),
    Number(i128),
    Float(String),
    Str(String),
    Array(Vec<Json>),
    Object(Vec<(String, Json)>),
}

/// The mathematical value of a [`Json`].
#[verifier::ext_equal]
pub enum JsonV {
    Null,
    Bool(bool),
    Number(int),
    Float(Seq<char>),
    Str(Seq<char>),
    Array(Seq<JsonV>),
    Object(Seq<(Seq<char>, JsonV)>),
}

impl Json {
    /// The value of this JSON tree.
    pub open spec fn value(self) -> JsonV
        decreases self,
    {
        match self {
            Json::Null => JsonV::Null,
            Json::Bool(b) => JsonV::Bool(b),
            Json::Number(n) => JsonV::Number(n as int),
            Json::Float(t) => JsonV::Float(t@),
            Json::Str(s) => JsonV::Str(s@),
            Json::Array(v) => JsonV::Array(Json::values(v@)),
            Json::Object(m) => JsonV::Object(Json::members(m@)),
        }
    }

    /// The values of a sequence of JSON trees.
    pub open spec fn values(s: Seq<Json>) -> Seq<JsonV>
        decreases s,
    {
        if s.len() == 0 {
            Seq::empty()
        } else {
            Json::values(s.subrange(0, s.len() - 1)).push(s[s.len() - 1].value())
        }
    }

    /// The values of a sequence of object members.
    pub open spec fn members(s: Seq<(String, Json)>) -> Seq<(Seq<char>, JsonV)>
        decreases s,
    {
        if s.len() == 0 {
            Seq::empty()
        } else {
            Json::members(s.subrange(0, s.len() - 1)).push(
                (s[s.len() - 1].0@, s[s.len() - 1].1.value()),
            )
        }
    }
}

impl View for Json {
    type V = JsonV;

    open spec fn view(&self) -> JsonV {
        self.value()
    }
}

/// The value a JSON-RPC peer reads for member `key` of `v`: the first member
/// with that key when `v` is an object, nothing otherwise.
pub open spec fn jget(v: JsonV, key: Seq<char>) -> Option<JsonV> {
    match v {
        JsonV::Object(fields) => field_lookup(fields, key),
        _ => None,
    }
}

/// The value of the first member named `key`.
pub open spec fn field_lookup(fields: Seq<(Seq<char>, JsonV)>, key: Seq<char>) -> Option<JsonV>
    decreases fields.len(),
{
    if fields.len() == 0 {
        None
    } else if fields[0].0 == key {
        Some(fields[0].1)
    } else {
        field_lookup(fields.drop_first(), key)
    }
}

/// The text of `v` when it is a JSON string.
pub open spec fn jstr(v: Option<JsonV>) -> Option<Seq<char>> {
    match v {
        Some(JsonV::Str(s)) => Some(s),
        _ => None,
    }
}

/// The elements of `v` when it is a JSON array.
pub open spec fn jarray(v: Option<JsonV>) -> Option<Seq<JsonV>> {
    match v {
        Some(JsonV::Array(a)) => Some(a),
        _ => None,
    }
}

pub proof fn lemma_values_len(s: Seq<Json>)
    ensures
        Json::values(s).len() == s.len(),
    decreases s.len(),
{
    if s.len() > 0 {
        lemma_values_len(s.subrange(0, s.len() - 1));
    }
}

pub proof fn lemma_values_index(s: Seq<Json>, i: int)
    requires
        0 <= i < s.len(),
    ensures
        Json::values(s)[i] == s[i].value(),
        Json::values(s).len() == s.len(),
    decreases s.len(),
{
    lemma_values_len(s);
    if i < s.len() - 1 {
        lemma_values_index(s.subrange(0, s.len() - 1), i);
    }
}

pub proof fn lemma_values_push(s: Seq<Json>, j: Json)
    ensures
        Json::values(s.push(j)) == Json::values(s).push(j.value()),
{
    assert(s.push(j).subrange(0, s.len() as int) =~= s);
}

pub proof fn lemma_members_len(s: Seq<(String, Json)>)
    ensures
        Json::members(s).len() == s.len(),
    decreases s.len(),
{
    if s.len() > 0 {
        lemma_members_len(s.subrange(0, s.len() - 1));
    }
}

pub proof fn lemma_members_index(s: Seq<(String, Json)>, i: int)
    requires
        0 <= i < s.len(),
    ensures
        Json::members(s)[i] == (s[i].0@, s[i].1.value()),
        Json::members(s).len() == s.len(),
    decreases s.len(),
{
    lemma_members_len(s);
    if i < s.len() - 1 {
        lemma_members_index(s.subrange(0, s.len() - 1), i);
    }
}

pub proof fn lemma_members_push(s: Seq<(String, Json)>, m: (String, Json))
    ensures
        Json::members(s.push(m)) == Json::members(s).push((m.0@, m.1.value())),
{
    assert(s.push(m).subrange(0, s.len() as int) =~= s);
}

/// `field_lookup` stops at the first member with the key.
pub proof fn lemma_field_lookup_first(fields: Seq<(Seq<char>, JsonV)>, key: Seq<char>, i: int)
    requires
        0 <= i < fields.len(),
        fields[i].0 == key,
        forall|j: int| 0 <= j < i ==> fields[j].0 != key,
    ensures
        field_lookup(fields, key) == Some(fields[i].1),
    decreases i,
{
    if i > 0 {
        lemma_field_lookup_first(fields.drop_first(), key, i - 1);
    }
}

/// `field_lookup` finds nothing when no member has the key.
pub proof fn lemma_field_lookup_none(fields: Seq<(Seq<char>, JsonV)>, key: Seq<char>)
    requires
        forall|j: int| 0 <= j < fields.len() ==> fields[j].0 != key,
    ensures
        field_lookup(fields, key) is None,
    decreases fields.len(),
{
    if fields.len() > 0 {
        lemma_field_lookup_none(fields.drop_first(), key);
    }
}

impl Json {
    /// The member `key` of this value (`Value::get` with a string key).
    #[verifier::loop_isolation(false)]
    pub fn get(&self, key: &str) -> (r: Option<&Json>)
        ensures
            match r {
                Some(j) => jget(self@, key@) == Some(j@),
                None => jget(self@, key@) is None,
            },
    {
        match self {
            Json::Object(fields) => {
                let mut i: usize = 0;
                while i < fields.len()
                    invariant
                        i <= fields.len(),
                        forall|j: int| 0 <= j < i ==> fields@[j].0@ != key@,
                    decreases fields.len() - i,
                {
                    if str_eq(fields[i].0.as_str(), key) {
                        proof {
                            assert(self@ == JsonV::Object(Json::members(fields@)));
                            lemma_members_len(fields@);
                            assert forall|j: int| 0 <= j < i implies Json::members(fields@)[j].0
                                != key@ by {
                                lemma_members_index(fields@, j);
                            }
                            lemma_members_index(fields@, i as int);
                            lemma_field_lookup_first(Json::members(fields@), key@, i as int);
                        }
                        return Some(&fields[i].1);
                    }
                    i += 1;
                }
                proof {
                    assert(self@ == JsonV::Object(Json::members(fields@)));
                    lemma_members_len(fields@);
                    assert forall|j: int| 0 <= j < Json::members(fields@).len() implies Json::members(
                        fields@,
                    )[j].0 != key@ by {
                        lemma_members_index(fields@, j);
                    }
                    lemma_field_lookup_none(Json::members(fields@), key@);
                }
                None
            },
            _ => None,
        }
    }

    /// The text of this value when it is a string (`Value::as_str`).
    pub fn as_str(&self) -> (r: Option<&String>)
        ensures
            match r {
                Some(s) => self@ == JsonV::Str(s@),
                None => !(self@ is Str),
            },
    {
        match self {
            Json::Str(s) => Some(s),
            _ => None,
        }
    }

    /// The elements of this value when it is an array (`Value::as_array`).
    pub fn as_array(&self) -> (r: Option<&Vec<Json>>)
        ensures
            match r {
                Some(a) => self@ == JsonV::Array(Json::values(a@)),
                None => !(self@ is Array),
            },
    {
        match self {
            Json::Array(a) => Some(a),
            _ => None,
        }
    }

    /// A copy of this value.
    #[verifier::loop_isolation(false)]
    pub fn deep_clone(&self) -> (r: Json)
        ensures
            r@ == self@,
        decreases self,
    {
        match self {
            Json::Null => Json::Null,
            Json::Bool(b) => Json::Bool(*b),
            Json::Number(n) => Json::Number(*n),
            Json::Float(t) => Json::Float(t.clone()),
            Json::Str(s) => Json::Str(s.clone()),
            Json::Array(v) => {
                let mut out: Vec<Json> = Vec::new();
                let mut i: usize = 0;
                while i < v.len()
                    invariant
                        i <= v.len(),
                        Json::values(out@) == Json::values(v@.subrange(0, i as int)),
                    decreases v.len() - i,
                {
                    proof {
                        assert(decreases_to!(*self => *v));
                        assert(decreases_to!(*v => v@));
                        assert(decreases_to!(v@ => v@[i as int]));
                    }
                    let c = v[i].deep_clone();
                    proof {
                        lemma_values_push(out@, c);
                        assert(v@.subrange(0, i + 1).subrange(0, i as int) =~= v@.subrange(0, i as int));
                    }
                    out.push(c);
                    i += 1;
                }
                assert(v@.subrange(0, v.len() as int) =~= v@);
                Json::Array(out)
            },
            Json::Object(m) => {
                let mut out: Vec<(String, Json)> = Vec::new();
                let mut i: usize = 0;
                while i < m.len()
                    invariant
                        i <= m.len(),
                        Json::members(out@) == Json::members(m@.subrange(0, i as int)),
                    decreases m.len() - i,
                {
                    let k = m[i].0.clone();
                    proof {
                        assert(decreases_to!(*self => *m));
                        assert(decreases_to!(*m => m@));
                        assert(decreases_to!(m@ => m@[i as int]));
                        assert(decreases_to!(m@[i as int] => m@[i as int].1));
                    }
                    let c = m[i].1.deep_clone();
                    proof {
                        lemma_members_push(out@, (k, c));
                        assert(m@.subrange(0, i + 1).subrange(0, i as int) =~= m@.subrange(0, i as int));
                    }
                    out.push((k, c));
                    i += 1;
                }
                assert(m@.subrange(0, m.len() as int) =~= m@);
                Json::Object(out)
            },
        }
    }
}

/// A JSON string holding `s`.
pub fn jstring(s: &str) -> (r: Json)
    ensures
        r@ == JsonV::Str(s@),
{
    Json::Str(to_string(s))
}

/// A member `key: value` for building an object.
pub fn member(key: &str, value: Json) -> (r: (String, Json))
    ensures
        r.0@ == key@,
        r.1 == value,
{
    (to_string(key), value)
}

/// The JSON object with the given members, in order.
pub fn object(members: Vec<(String, Json)>) -> (r: Json)
    ensures
        r@ == JsonV::Object(Json::members(members@)),
{
    Json::Object(members)
}

/// Appends the member `key: value` to an object under construction.
pub fn push_member(m: &mut Vec<(String, Json)>, key: &str, value: Json)
    ensures
        Json::members(final(m)@) == Json::members(old(m)@).push((key@, value@)),
{
    let e = member(key, value);
    proof {
        lemma_members_push(m@, e);
    }
    m.push(e);
}

/// A JSON array of the given elements, in order.
pub fn array(elems: Vec<Json>) -> (r: Json)
    ensures
        r@ == JsonV::Array(Json::values(elems@)),
{
    Json::Array(elems)
}

/// A JSON integer.
pub fn number(n: u64) -> (r: Json)
    ensures
        r@ == JsonV::Number(n as int),
{
    Json::Number(n as i128)
}

/// An object of one member.
pub fn object1(k0: &str, v0: Json) -> (r: Json)
    ensures
        r@ == JsonV::Object(seq![(k0@, v0@)]),
{
    let mut m: Vec<(String, Json)> = Vec::new();
    m.push(member(k0, v0));
    proof {
        lemma_members_push(Seq::empty(), m@[0]);
        assert(Seq::<(String, Json)>::empty().push(m@[0]) =~= m@);
    }
    Json::Object(m)
}

/// An object of two members.
pub fn object2(k0: &str, v0: Json, k1: &str, v1: Json) -> (r: Json)
    ensures
        r@ == JsonV::Object(seq![(k0@, v0@), (k1@, v1@)]),
{
    let mut m: Vec<(String, Json)> = Vec::new();
    m.push(member(k0, v0));
    let ghost m0 = m@;
    m.push(member(k1, v1));
    proof {
        lemma_members_push(Seq::empty(), m@[0]);
        assert(Seq::<(String, Json)>::empty().push(m@[0]) =~= m0);
        assert(Json::members(m0) =~= seq![(k0@, v0@)]);
        lemma_members_push(m0, m@[1]);
        assert(m0.push(m@[1]) =~= m@);
        assert(Json::members(m@) =~= seq![(k0@, v0@), (k1@, v1@)]);
    }
    Json::Object(m)
}

} // verus!
