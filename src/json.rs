//! A JSON tree owned by this library, and the boundary to JSON text.
use vstd::prelude::*;

verus! {

/// A JSON number as the parser classifies it: a non-negative integer, a
/// negative integer, or a float, which is kept in serde_json's own form.
pub enum JsonNumber {
    PosInt(u64),
    NegInt(i64),
    Float(serde_json::Number),
}

/// A JSON value. An object keeps its members in document order.
pub enum JsonValue {
    Null,
    Bool(bool),
    Number(JsonNumber),
    Str(String),
    Array(Vec<JsonValue>),
    Object(Vec<(String, JsonValue)>),
}

/// The value of the first member of `o` whose key is `key`.
pub open spec fn lookup(o: Seq<(String, JsonValue)>, key: Seq<char>) -> Option<JsonValue>
    decreases o.len(),
{
    if o.len() == 0 {
        None
    } else if o[0].0@ == key {
        Some(o[0].1)
    } else {
        lookup(o.drop_first(), key)
    }
}

/// The member named `key` of `j`, when `j` is an object that has one.
pub open spec fn member(j: JsonValue, key: Seq<char>) -> Option<JsonValue> {
    match j {
        JsonValue::Object(o) => lookup(o@, key),
        _ => None,
    }
}

/// Finds the first member of `o` named `key`.
pub fn find_member<'a>(o: &'a Vec<(String, JsonValue)>, key: &str) -> (r: Option<&'a JsonValue>)
    ensures
        match r {
            Some(v) => lookup(o@, key@) == Some(*v),
            None => lookup(o@, key@) is None,
        },
{
    let k = key.to_owned();
    let n = o.len();
    let mut i: usize = 0;
    assert(o@.subrange(0, n as int) =~= o@);
    while i < n
        invariant
            n == o@.len(),
            i <= n,
            k@ == key@,
            lookup(o@, key@) == lookup(o@.subrange(i as int, n as int), key@),
        decreases n - i,
    {
        let ghost rest = o@.subrange(i as int, n as int);
        assert(rest[0] == o@[i as int]);
        if o[i].0 == k {
            return Some(&o[i].1);
        }
        assert(rest.drop_first() =~= o@.subrange(i + 1, n as int));
        i = i + 1;
    }
    None
}

/// What serde_json makes of a JSON text: `None` where it refuses the text.
pub uninterp spec fn parsed_text(s: Seq<char>) -> Option<JsonValue>;

/// The JSON text that serde_json writes for a tree.
pub uninterp spec fn rendered_text(v: JsonValue) -> Seq<char>;

/// The float that serde_json gives for an unsigned integer read as a float.
pub uninterp spec fn float_of_u64(u: u64) -> serde_json::Number;

/// The float that serde_json gives for a signed integer read as a float.
pub uninterp spec fn float_of_i64(i: i64) -> serde_json::Number;

#[verifier::external_type_specification]
#[verifier::external_body]
pub struct ExJsonError(serde_json::Error);

#[verifier::external_type_specification]
#[verifier::external_body]
pub struct ExJsonNumber(serde_json::Number);

#[verifier::external_type_specification]
#[verifier::external_body]
pub struct ExJsonTree(serde_json::Value);

/// Relies on serde_json::Number's derived `Clone`, which copies the number.
pub assume_specification[ <serde_json::Number as Clone>::clone ](n: &serde_json::Number) -> (r: serde_json::Number)
    ensures
        r == *n,
;

/// Relies on serde_json::Number's `as_u64` and `as_i64`, which tell its
/// three representations apart.
#[verifier::external_body]
fn number_from_serde(n: serde_json::Number) -> (r: JsonNumber) {
    match (n.as_u64(), n.as_i64()) {
        (Some(u), _) => JsonNumber::PosInt(u),
        (None, Some(i)) => JsonNumber::NegInt(i),
        _ => JsonNumber::Float(n),
    }
}

/// Converts serde_json's tree into this library's tree, one node for one node.
#[verifier::external_body]
fn tree_from_serde(v: serde_json::Value) -> (r: JsonValue) {
    match v {
        serde_json::Value::Null => JsonValue::Null,
        serde_json::Value::Bool(b) => JsonValue::Bool(b),
        serde_json::Value::Number(n) => JsonValue::Number(number_from_serde(n)),
        serde_json::Value::String(s) => JsonValue::Str(s),
        serde_json::Value::Array(a) => JsonValue::Array(a.into_iter().map(tree_from_serde).collect()),
        serde_json::Value::Object(m) => JsonValue::Object(m.into_iter().map(|(k, x)| (k, tree_from_serde(x))).collect()),
    }
}

/// Relies on serde_json::Number's `From<u64>` and `From<i64>`.
#[verifier::external_body]
fn number_to_serde(n: &JsonNumber) -> (r: serde_json::Number) {
    match n {
        JsonNumber::PosInt(u) => serde_json::Number::from(*u),
        JsonNumber::NegInt(i) => serde_json::Number::from(*i),
        JsonNumber::Float(x) => x.clone(),
    }
}

/// Converts this library's tree into serde_json's tree, one node for one node.
#[verifier::external_body]
fn tree_to_serde(v: &JsonValue) -> (r: serde_json::Value) {
    match v {
        JsonValue::Null => serde_json::Value::Null,
        JsonValue::Bool(b) => serde_json::Value::Bool(*b),
        JsonValue::Number(n) => serde_json::Value::Number(number_to_serde(n)),
        JsonValue::Str(s) => serde_json::Value::String(s.clone()),
        JsonValue::Array(a) => serde_json::Value::Array(a.iter().map(tree_to_serde).collect()),
        JsonValue::Object(o) => serde_json::Value::Object(o.iter().map(|(k, x)| (k.clone(), tree_to_serde(x))).collect()),
    }
}

/// Relies on serde_json::from_str: the tree of a JSON text depends on the text alone.
#[verifier::external_body]
pub(crate) fn parse_json_text(s: &str) -> (r: Result<JsonValue, serde_json::Error>)
    ensures
        match r {
            Ok(v) => parsed_text(s@) == Some(v),
            Err(_) => parsed_text(s@) is None,
        },
{
    serde_json::from_str::<serde_json::Value>(s).map(tree_from_serde)
}

/// Relies on serde_json::to_string: the text written for a tree depends on the
/// tree alone, and it fails only where a `Serialize` impl fails or a map has
/// keys that are not strings, which `Value`'s impl never does.
#[verifier::external_body]
pub(crate) fn render_json_text(v: &JsonValue) -> (r: Result<String, serde_json::Error>)
    ensures
        r is Ok,
        r matches Ok(s) ==> s@ == rendered_text(*v),
{
    serde_json::to_string(&tree_to_serde(v))
}

/// Relies on serde_json::Number's `as_f64` conversion of an integer and on
/// `Number::from_f64`, which accepts every finite float.
#[verifier::external_body]
pub(crate) fn float_from_u64(u: u64) -> (r: serde_json::Number)
    ensures
        r == float_of_u64(u),
{
    serde_json::Number::from(u).as_f64().and_then(serde_json::Number::from_f64).unwrap_or(serde_json::Number::from(u))
}

/// Relies on serde_json::Number's `as_f64` conversion of an integer and on
/// `Number::from_f64`, which accepts every finite float.
#[verifier::external_body]
pub(crate) fn float_from_i64(i: i64) -> (r: serde_json::Number)
    ensures
        r == float_of_i64(i),
{
    serde_json::Number::from(i).as_f64().and_then(serde_json::Number::from_f64).unwrap_or(serde_json::Number::from(i))
}

} // verus!
