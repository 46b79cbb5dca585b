//! A plain model of parsed JSON text, and the trusted bridge to the outside
//! parser.
//!
//! The library never inspects the parser's own value type; parsing converts it
//! one-for-one into [`Json`], and every decoding step from there on is
//! verified against spec functions over `Json`.

use vstd::prelude::*;

use crate::error::Error;

verus! {

/// A parsed JSON document.
///
/// Numbers keep only what the wire vocabulary needs: an unsigned integer fits
/// in `UInt`, and any other number (negative or fractional) becomes
/// `OtherNum`, which no decoder accepts. Object keys are unique: the parser
/// resolves duplicate keys before the value reaches this type.
#[derive(Debug)]
pub enum Json {
    Null,
    Bool(bool),
    UInt(u64),
    OtherNum,
    Str(String),
    Arr(Vec<Json>),
    Obj(Vec<(String, Json)>),
}

#[verifier::external_type_specification]
#[verifier::external_body]
pub struct ExValue(serde_json::Value);

/// The result of parsing a text as JSON: `None` when the text is not valid
/// JSON, otherwise the parsed document. Parsing depends on the text alone.
pub uninterp spec fn json_of(s: Seq<char>) -> Option<Json>;

/// Relies on serde_json::Value: a parsed value is exactly one of null, a
/// boolean, a number, a string, an array or an object, and
/// serde_json::Number::as_u64 returns the number precisely when it is an
/// unsigned integer. Converts each variant one-for-one into [`Json`].
#[verifier::external_body]
fn json_of_value(v: &serde_json::Value) -> Json {
    match v {
        serde_json::Value::Null => Json::Null,
        serde_json::Value::Bool(b) => Json::Bool(*b),
        serde_json::Value::Number(n) => match n.as_u64() {
            Some(u) => Json::UInt(u),
            None => Json::OtherNum,
        },
        serde_json::Value::String(s) => Json::Str(s.clone()),
        serde_json::Value::Array(a) => Json::Arr(a.iter().map(json_of_value).collect()),
        serde_json::Value::Object(o) => Json::Obj(
            o.iter().map(|(k, x)| (k.clone(), json_of_value(x))).collect(),
        ),
    }
}

/// Relies on serde_json::from_str: whether a text parses, and what it parses
/// to, is a function of the text alone.
#[verifier::external_body]
pub(crate) fn parse_json(body: &str) -> (r: Result<Json, Error>)
    ensures
        match r {
            Ok(j) => json_of(body@) == Some(j),
            Err(e) => json_of(body@) is None && e == Error::DeserializeError,
        },
{
    match serde_json::from_str::<serde_json::Value>(body) {
        Ok(v) => Ok(json_of_value(&v)),
        Err(_) => Err(Error::DeserializeError),
    }
}

/// The value stored under `key`, looking from the front of the field list.
pub open spec fn spec_obj_get(fields: Seq<(String, Json)>, key: Seq<char>) -> Option<Json>
    decreases fields.len(),
{
    if fields.len() == 0 {
        None
    } else if fields[0].0@ == key {
        Some(fields[0].1)
    } else {
        spec_obj_get(fields.drop_first(), key)
    }
}

proof fn lemma_obj_get_skip(fields: Seq<(String, Json)>, key: Seq<char>, n: int)
    requires
        0 <= n <= fields.len(),
        forall|k: int| 0 <= k < n ==> fields[k].0@ != key,
    ensures
        spec_obj_get(fields, key) == spec_obj_get(fields.skip(n), key),
    decreases n,
{
    if n == 0 {
        assert(fields.skip(0) =~= fields);
    } else {
        lemma_obj_get_skip(fields, key, n - 1);
        assert(fields.skip(n - 1).len() > 0);
        assert(fields.skip(n - 1)[0] == fields[n - 1]);
        assert(fields.skip(n - 1).drop_first() =~= fields.skip(n));
        assert(spec_obj_get(fields.skip(n - 1), key) == spec_obj_get(
            fields.skip(n - 1).drop_first(),
            key,
        ));
    }
}

/// Looks up `key` in the fields of a JSON object.
pub fn json_obj_get<'a>(fields: &'a Vec<(String, Json)>, key: &str) -> (r: Option<&'a Json>)
    ensures
        match r {
            Some(v) => spec_obj_get(fields@, key@) == Some(*v),
            None => spec_obj_get(fields@, key@) is None,
        },
{
    let mut i: usize = 0;
    let n = fields.len();
    while i < n
        invariant
            i <= n,
            n == fields@.len(),
            forall|k: int| 0 <= k < i ==> fields@[k].0@ != key@,
        decreases n - i,
    {
        if crate::strutil::str_eq(fields[i].0.as_str(), key) {
            proof {
                lemma_obj_get_skip(fields@, key@, i as int);
                assert(fields@.skip(i as int)[0] == fields@[i as int]);
            }
            return Some(&fields[i].1);
        }
        i += 1;
    }
    proof {
        lemma_obj_get_skip(fields@, key@, n as int);
        assert(fields@.skip(n as int).len() == 0);
    }
    None
}

} // verus!
