//! The JSON value that the flattening engine reads, and its mathematical model.
use vstd::prelude::*;

verus! {

/// Declares serde_json's number type, which values carry through unread.
#[verifier::external_type_specification]
#[verifier::external_body]
pub struct ExNumber(serde_json::Number);

/// Relies on the derived `Clone` of `serde_json::Number`: the copy equals the number it was made from.
pub assume_specification[ <serde_json::Number as Clone>::clone ](n: &serde_json::Number) -> (r: serde_json::Number)
    ensures
        r == *n,
;

/// A parsed JSON value. Objects keep their fields in document order.
#[derive(Debug, PartialEq)]
pub enum JsonValue {
    Null,
    Bool(bool),
    Number(serde_json::Number),
    Str(String),
    Array(Vec<JsonValue>),
    Object(Vec<(String, JsonValue)>),
}

/// The mathematical model of a JSON value.
pub enum Json {
    Null,
    Bool(bool),
    Number(serde_json::Number),
    Str(Seq<char>),
    Array(Seq<Json>),
    Object(Seq<(Seq<char>, Json)>),
}

pub open spec fn json_of(v: JsonValue) -> Json
    decreases v, 1nat,
{
    match v {
        JsonValue::Null => Json::Null,
        JsonValue::Bool(b) => Json::Bool(b),
        JsonValue::Number(n) => Json::Number(n),
        JsonValue::Str(s) => Json::Str(s@),
        JsonValue::Array(items) => Json::Array(jsons_of(items@)),
        JsonValue::Object(fields) => Json::Object(fields_of(fields@)),
    }
}

pub open spec fn jsons_of(s: Seq<JsonValue>) -> Seq<Json>
    decreases s, 0nat,
{
    if s.len() == 0 {
        Seq::empty()
    } else {
        jsons_of(s.subrange(0, s.len() - 1)).push(json_of(s[s.len() - 1]))
    }
}

pub open spec fn fields_of(s: Seq<(String, JsonValue)>) -> Seq<(Seq<char>, Json)>
    decreases s, 0nat,
{
    if s.len() == 0 {
        Seq::empty()
    } else {
        fields_of(s.subrange(0, s.len() - 1)).push((s[s.len() - 1].0@, json_of(s[s.len() - 1].1)))
    }
}

impl View for JsonValue {
    type V = Json;

    open spec fn view(&self) -> Json {
        json_of(*self)
    }
}

pub proof fn lemma_jsons_of(s: Seq<JsonValue>)
    ensures
        jsons_of(s).len() == s.len(),
        forall|i: int| 0 <= i < s.len() ==> #[trigger] jsons_of(s)[i] == json_of(s[i]),
    decreases s.len(),
{
    if s.len() > 0 {
        lemma_jsons_of(s.subrange(0, s.len() - 1));
    }
}

pub proof fn lemma_fields_of(s: Seq<(String, JsonValue)>)
    ensures
        fields_of(s).len() == s.len(),
        forall|i: int| 0 <= i < s.len() ==> #[trigger] fields_of(s)[i] == (s[i].0@, json_of(s[i].1)),
    decreases s.len(),
{
    if s.len() > 0 {
        lemma_fields_of(s.subrange(0, s.len() - 1));
    }
}

/// A copy of a list of values that shares nothing with it.
pub fn copy_items(items: &Vec<JsonValue>) -> (r: Vec<JsonValue>)
    ensures
        jsons_of(r@) == jsons_of(items@),
{
    let mut out: Vec<JsonValue> = Vec::new();
    let mut i: usize = 0;
    while i < items.len()
        invariant
            i <= items.len(),
            out@.len() == i,
            forall|j: int| 0 <= j < i ==> json_of(#[trigger] out@[j]) == json_of(items@[j]),
        decreases items.len() - i,
    {
        out.push(items[i].deep_copy());
        i += 1;
    }
    proof {
        lemma_jsons_of(out@);
        lemma_jsons_of(items@);
        assert(jsons_of(out@) =~= jsons_of(items@));
    }
    out
}

impl JsonValue {
    /// A copy of the value that shares nothing with it.
    pub fn deep_copy(&self) -> (r: JsonValue)
        ensures
            r@ == self@,
        decreases self,
    {
        match self {
            JsonValue::Null => JsonValue::Null,
            JsonValue::Bool(b) => JsonValue::Bool(*b),
            JsonValue::Number(n) => JsonValue::Number(n.clone()),
            JsonValue::Str(s) => JsonValue::Str(s.clone()),
            JsonValue::Array(items) => {
                let mut out: Vec<JsonValue> = Vec::new();
                let mut i: usize = 0;
                while i < items.len()
                    invariant
                        i <= items.len(),
                        *self == JsonValue::Array(*items),
                        out@.len() == i,
                        forall|j: int| 0 <= j < i ==> json_of(#[trigger] out@[j]) == json_of(items@[j]),
                    decreases items.len() - i,
                {
                    assert(decreases_to!(items@ => items@[i as int]));
                    assert(decreases_to!(*items => items@));
                    assert(decreases_to!(*self => (*self)->Array_0));
                    assert(decreases_to!(*self => items@[i as int]));
                    out.push(items[i].deep_copy());
                    i += 1;
                }
                proof {
                    lemma_jsons_of(out@);
                    lemma_jsons_of(items@);
                    assert(jsons_of(out@) =~= jsons_of(items@));
                }
                JsonValue::Array(out)
            },
            JsonValue::Object(fields) => {
                let mut out: Vec<(String, JsonValue)> = Vec::new();
                let mut i: usize = 0;
                while i < fields.len()
                    invariant
                        i <= fields.len(),
                        *self == JsonValue::Object(*fields),
                        out@.len() == i,
                        forall|j: int|
                            0 <= j < i ==> (#[trigger] out@[j]).0@ == fields@[j].0@ && json_of(
                                out@[j].1,
                            ) == json_of(fields@[j].1),
                    decreases fields.len() - i,
                {
                    assert(decreases_to!(fields@ => fields@[i as int]));
                    assert(decreases_to!(*fields => fields@));
                    assert(decreases_to!(*self => (*self)->Object_0));
                    assert(decreases_to!(*self => fields@[i as int].1));
                    let v = fields[i].1.deep_copy();
                    out.push((fields[i].0.clone(), v));
                    i += 1;
                }
                proof {
                    lemma_fields_of(out@);
                    lemma_fields_of(fields@);
                    assert(fields_of(out@) =~= fields_of(fields@));
                }
                JsonValue::Object(out)
            },
        }
    }
}

} // verus!
