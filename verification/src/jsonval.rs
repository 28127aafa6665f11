//! A plain-value model of JSON documents, with verified navigation.
//!
//! Parsing itself is done by the `json` crate behind a trusted wrapper; the
//! fixed-path navigation that the extractors perform is verified against the
//! spec functions here.
use vstd::prelude::*;

verus! {

/// A JSON value, held entirely as plain values so that contracts can speak
/// about its contents. Object entries keep the order in which the parser
/// produced them; lookups take the first entry with a matching key.
pub enum Json {
    Null,
    Bool(bool),
    /// A JSON number, as a 64-bit signed integer. The fields this client
    /// reads as numbers are compound identifiers, which are integers.
    Num(i64),
    Str(String),
    Arr(Vec<Json>),
    Obj(Vec<(String, Json)>),
}

/// The value of the first entry with the given key, if any.
pub open spec fn spec_assoc(entries: Seq<(String, Json)>, key: Seq<char>) -> Option<Json>
    decreases entries.len(),
{
    if entries.len() == 0 {
        None
    } else if entries.first().0@ == key {
        Some(entries.first().1)
    } else {
        spec_assoc(entries.drop_first(), key)
    }
}

/// Object member lookup: `None` on anything but an object with that key.
pub open spec fn spec_get(j: Json, key: Seq<char>) -> Option<Json> {
    match j {
        Json::Obj(entries) => spec_assoc(entries@, key),
        _ => None,
    }
}

/// Array element lookup: `None` on anything but an array long enough.
pub open spec fn spec_at(j: Json, i: int) -> Option<Json> {
    match j {
        Json::Arr(a) => if 0 <= i < a@.len() {
            Some(a@[i])
        } else {
            None
        },
        _ => None,
    }
}

/// The character sequence of a string value, `None` on any other value.
pub open spec fn spec_str_of(j: Json) -> Option<Seq<char>> {
    match j {
        Json::Str(s) => Some(s@),
        _ => None,
    }
}

/// The integer of a number value, `None` on any other value.
pub open spec fn spec_num_of(j: Json) -> Option<i64> {
    match j {
        Json::Num(n) => Some(n),
        _ => None,
    }
}

fn assoc<'a>(entries: &'a Vec<(String, Json)>, key: &String) -> (r: Option<&'a Json>)
    ensures
        match r {
            Some(v) => spec_assoc(entries@, key@) == Some(*v),
            None => spec_assoc(entries@, key@) is None,
        },
{
    let n = entries.len();
    let mut i: usize = 0;
    proof {
        assert(entries@.skip(0) =~= entries@);
    }
    while i < n
        invariant
            n == entries@.len(),
            i <= n,
            spec_assoc(entries@, key@) == spec_assoc(entries@.skip(i as int), key@),
        decreases n - i,
    {
        let e = &entries[i];
        proof {
            assert(entries@.skip(i as int).first() == entries@[i as int]);
        }
        if e.0 == *key {
            return Some(&e.1);
        }
        proof {
            assert(entries@.skip(i as int).drop_first() =~= entries@.skip(i as int + 1));
        }
        i += 1;
    }
    None
}

/// Object member lookup, against `spec_get`.
pub fn get<'a>(j: &'a Json, key: &String) -> (r: Option<&'a Json>)
    ensures
        match r {
            Some(v) => spec_get(*j, key@) == Some(*v),
            None => spec_get(*j, key@) is None,
        },
{
    match j {
        Json::Obj(entries) => assoc(entries, key),
        _ => None,
    }
}

/// Array element lookup, against `spec_at`.
pub fn at<'a>(j: &'a Json, i: usize) -> (r: Option<&'a Json>)
    ensures
        match r {
            Some(v) => spec_at(*j, i as int) == Some(*v),
            None => spec_at(*j, i as int) is None,
        },
{
    match j {
        Json::Arr(a) => if i < a.len() {
            Some(&a[i])
        } else {
            None
        },
        _ => None,
    }
}

/// The string held by a string value, against `spec_str_of`.
pub fn str_of<'a>(j: &'a Json) -> (r: Option<&'a String>)
    ensures
        match r {
            Some(s) => spec_str_of(*j) == Some(s@),
            None => spec_str_of(*j) is None,
        },
{
    match j {
        Json::Str(s) => Some(s),
        _ => None,
    }
}

/// The integer held by a number value, against `spec_num_of`.
pub fn num_of(j: &Json) -> (r: Option<i64>)
    ensures
        r == spec_num_of(*j),
{
    match j {
        Json::Num(n) => Some(*n),
        _ => None,
    }
}

/// The JSON value a text denotes under this model, `None` where the text is
/// not well-formed JSON. Defined only through `parse_json`.
pub uninterp spec fn json_of(s: Seq<char>) -> Option<Json>;

#[verifier::external_type_specification]
#[verifier::external_body]
pub struct ExJsonValue(json::JsonValue);

#[verifier::external_type_specification]
#[verifier::external_body]
pub struct ExNumber(json::number::Number);

/// Relies on json's `Number::as_parts` and `is_nan`: sign, decimal mantissa
/// and decimal exponent. A number parsed with exponent zero whose value fits
/// `i64` becomes `Json::Num`; anything else (a non-zero exponent, a
/// magnitude out of range, not a number at all) becomes `Json::Null`. No
/// field this client reads as a number is such.
#[verifier::external_body]
fn num_to_json(n: json::number::Number) -> Json {
    match n.as_parts() {
        (true, m, 0) if m <= i64::MAX as u64 => Json::Num(m as i64),
        (false, m, 0) if !n.is_nan() && m <= i64::MAX as u64 => Json::Num(-(m as i64)),
        (false, m, 0) if !n.is_nan() && m == 1u64 << 63 => Json::Num(i64::MIN),
        _ => Json::Null,
    }
}

/// Relies on json's `JsonValue`: maps each of its variants to the form this
/// model holds, moving the fields; numbers go through `num_to_json`.
#[verifier::external_body]
fn from_json_value(v: json::JsonValue) -> Json {
    match v {
        json::JsonValue::Null => Json::Null,
        json::JsonValue::Boolean(b) => Json::Bool(b),
        json::JsonValue::Number(n) => num_to_json(n),
        json::JsonValue::Short(s) => Json::Str(s.as_str().to_owned()),
        json::JsonValue::String(s) => Json::Str(s),
        json::JsonValue::Object(o) => Json::Obj(
            o.iter().map(|(k, x)| (k.to_owned(), from_json_value(x.clone()))).collect(),
        ),
        json::JsonValue::Array(a) => Json::Arr(a.into_iter().map(from_json_value).collect()),
    }
}

/// Relies on json::parse: whether a text is well-formed JSON, and which value
/// it denotes, depend on the text alone.
#[verifier::external_body]
pub(crate) fn parse_json(s: &str) -> (r: Option<Json>)
    ensures
        r == json_of(s@),
{
    match json::parse(s) {
        Ok(v) => Some(from_json_value(v)),
        Err(_) => None,
    }
}

} // verus!
