//! A plain-value model of parsed JSON, as far as the configuration reads it.
//!
//! The configuration grammar only ever looks at objects, arrays and
//! strings; every other JSON value (null, booleans, numbers) is a scalar it
//! rejects, so the model collapses those into one variant. The outside
//! parser produces the model; field lookup over it is verified here.

use vstd::prelude::*;

verus! {

#[verifier::external_type_specification]
#[verifier::external_body]
pub struct ExValue(serde_json::Value);

/// A parsed JSON value, holding as plain values exactly what the
/// configuration logic reads.
pub enum JsonVal {
    /// A null, boolean or number: nothing the configuration reads.
    Scalar,
    /// A JSON string.
    Text(String),
    /// A JSON array, its elements in document order.
    Array(Vec<JsonVal>),
    /// A JSON object: its members, each key held once (serde_json keeps
    /// the last value of a repeated key), in the parser's fixed order.
    Object(Vec<(String, JsonVal)>),
}

/// The JSON model that a text denotes, if it is parseable JSON: a function
/// of the text alone.
pub uninterp spec fn json_model_of(s: Seq<char>) -> Option<JsonVal>;

/// Relies on serde_json's Value: converts it variant by variant into the
/// model, arrays and objects element by element. serde_json's object map
/// holds each key once and iterates deterministically (sorted by key), so
/// the model too is a function of the parsed value alone.
#[verifier::external_body]
fn to_json_val(v: serde_json::Value) -> (r: JsonVal) {
    match v {
        serde_json::Value::Null => JsonVal::Scalar,
        serde_json::Value::Bool(_) => JsonVal::Scalar,
        serde_json::Value::Number(_) => JsonVal::Scalar,
        serde_json::Value::String(s) => JsonVal::Text(s),
        serde_json::Value::Array(a) => JsonVal::Array(a.into_iter().map(to_json_val).collect()),
        serde_json::Value::Object(m) => JsonVal::Object(
            m.into_iter().map(|(k, w)| (k, to_json_val(w))).collect(),
        ),
    }
}

/// Relies on serde_json::from_str: it parses exactly the parseable JSON
/// texts, deciding by the text alone, and returns an error on the rest;
/// the result is converted to the model by [`to_json_val`].
#[verifier::external_body]
pub(crate) fn parse_json_model(s: &str) -> (r: Option<JsonVal>)
    ensures
        r == json_model_of(s@),
{
    match serde_json::from_str::<serde_json::Value>(s) {
        Ok(v) => Some(to_json_val(v)),
        Err(_) => None,
    }
}

/// The member a list of object fields holds under `key`: the first pair
/// with that key, if any (keys are unique in a parsed object).
pub open spec fn spec_object_field(fields: Seq<(String, JsonVal)>, key: Seq<char>) -> Option<
    JsonVal,
>
    decreases fields.len(),
{
    if fields.len() == 0 {
        None
    } else if fields[0].0@ == key {
        Some(fields[0].1)
    } else {
        spec_object_field(fields.drop_first(), key)
    }
}

/// The member `v` holds under `key`: `None` when `v` is no object or its
/// object lacks the key.
pub open spec fn spec_field(v: JsonVal, key: Seq<char>) -> Option<JsonVal> {
    match v {
        JsonVal::Object(fields) => spec_object_field(fields@, key),
        _ => None,
    }
}

impl JsonVal {
    /// Looks up the member this value holds under `key`, or `None` when
    /// the value is no object or lacks the key.
    pub fn field<'a>(&'a self, key: &String) -> (r: Option<&'a JsonVal>)
        ensures
            match r {
                Some(f) => spec_field(*self, key@) == Some(*f),
                None => spec_field(*self, key@) is None,
            },
    {
        match self {
            JsonVal::Object(fields) => {
                let n = fields.len();
                let mut i: usize = 0;
                proof {
                    assert(fields@.skip(0) =~= fields@);
                }
                while i < n
                    invariant
                        n == fields@.len(),
                        i <= n,
                        spec_field(*self, key@) == spec_object_field(
                            fields@.skip(i as int),
                            key@,
                        ),
                    decreases n - i,
                {
                    proof {
                        assert(fields@.skip(i as int)[0] == fields@[i as int]);
                    }
                    if fields[i].0.eq(key) {
                        return Some(&fields[i].1);
                    }
                    proof {
                        assert(fields@.skip(i as int).drop_first() =~= fields@.skip(i as int + 1));
                    }
                    i = i + 1;
                }
                proof {
                    assert(fields@.skip(n as int) =~= Seq::<(String, JsonVal)>::empty());
                }
                None
            },
            _ => None,
        }
    }

    /// The string this value holds under `key`, copied out: `None` when
    /// there is no such member or it is no string.
    pub fn text_field(&self, key: &String) -> (r: Option<String>)
        ensures
            r == spec_text_field(*self, key@),
    {
        match self.field(key) {
            Some(JsonVal::Text(s)) => Some(s.clone()),
            _ => None,
        }
    }
}

/// The string `v` holds under `key`, if `v` is an object with such a
/// member and the member is a string.
pub open spec fn spec_text_field(v: JsonVal, key: Seq<char>) -> Option<String> {
    match spec_field(v, key) {
        Some(JsonVal::Text(s)) => Some(s),
        _ => None,
    }
}

} // verus!
