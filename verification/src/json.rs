//! JSON values, as `serde_json` holds them, and what the library relies on of
//! that crate.
use serde_json::Value;
use vstd::prelude::*;

verus! {

/// A JSON number: an integer, or a finite floating-point number given by the
/// bits of its IEEE 754 double representation.
pub enum JsonNumber {
    Integer(int),
    Float(u64),
}

/// What a JSON value holds.
pub enum JsonView {
    Null,
    Bool(bool),
    Number(JsonNumber),
    Text(Seq<char>),
    Array(Seq<JsonView>),
    Object(Map<Seq<char>, JsonView>),
}

/// The bits of the two floating-point zeros, which compare equal.
pub open spec fn is_float_zero(bits: u64) -> bool {
    bits == 0 || bits == 0x8000_0000_0000_0000
}

pub open spec fn same_number(a: JsonNumber, b: JsonNumber) -> bool {
    match (a, b) {
        (JsonNumber::Float(x), JsonNumber::Float(y)) => x == y || (is_float_zero(x)
            && is_float_zero(y)),
        _ => a == b,
    }
}

/// Equality of JSON values: the same shape, and at each place the same content,
/// where the two floating-point zeros count as one.
pub open spec fn same_json(a: JsonView, b: JsonView) -> bool
    decreases a,
{
    match (a, b) {
        (JsonView::Number(x), JsonView::Number(y)) => same_number(x, y),
        (JsonView::Array(x), JsonView::Array(y)) => {
            &&& x.len() == y.len()
            &&& forall|i: int| #![trigger x[i]] 0 <= i < x.len() ==> same_json(x[i], y[i])
        },
        (JsonView::Object(x), JsonView::Object(y)) => {
            &&& x.dom() == y.dom()
            &&& forall|k: Seq<char>| #![trigger x[k]] x.dom().contains(k) ==> same_json(x[k], y[k])
        },
        _ => a == b,
    }
}

/// Arrays and objects stand at most `depth` deep inside one another.
pub open spec fn nested_within(value: JsonView, depth: nat) -> bool
    decreases depth,
{
    match value {
        JsonView::Array(items) => depth > 0 && forall|i: int|
            #![trigger items[i]]
            0 <= i < items.len() ==> nested_within(items[i], (depth - 1) as nat),
        JsonView::Object(members) => depth > 0 && forall|k: Seq<char>|
            #![trigger members[k]]
            members.dom().contains(k) ==> nested_within(members[k], (depth - 1) as nat),
        _ => true,
    }
}

/// Every floating-point number inside the value is read back from its own text
/// as the same number. The parser reads floating-point text to best-effort
/// precision, so this fails of some.
pub open spec fn floats_read_back(value: JsonView) -> bool
    decreases value,
{
    match value {
        JsonView::Number(JsonNumber::Float(_)) => json_parse(json_text(value)) == Some(value),
        JsonView::Array(items) => forall|i: int|
            #![trigger items[i]]
            0 <= i < items.len() ==> floats_read_back(items[i]),
        JsonView::Object(members) => forall|k: Seq<char>|
            #![trigger members[k]]
            members.dom().contains(k) ==> floats_read_back(members[k]),
        _ => true,
    }
}

/// The deepest nesting that the parser reads.
pub const MAX_JSON_DEPTH: u8 = 127;

/// The values that the parser reads back from their text unchanged.
pub open spec fn reads_back(value: JsonView) -> bool {
    nested_within(value, MAX_JSON_DEPTH as nat) && floats_read_back(value)
}

/// `serde_json::Value`. What a value holds is `json_content`.
#[verifier::external_type_specification]
#[verifier::external_body]
pub struct ExValue(serde_json::Value);

/// `serde_json::Error`, which says why a text is no JSON.
#[verifier::external_type_specification]
#[verifier::external_body]
pub struct ExJsonError(serde_json::Error);

/// What a `serde_json::Value` holds.
pub uninterp spec fn json_content(value: Value) -> JsonView;

/// The compact text that `serde_json::to_vec` writes of a value. The members of an
/// object are written in the order of their keys, since the map that holds them is
/// sorted: with serde_json's feature `preserve_order`, which this crate leaves off,
/// the text would depend on the order in which they were put in.
pub uninterp spec fn json_text(value: JsonView) -> Seq<u8>;

/// The value that `serde_json::from_slice` reads, `None` where the bytes are not
/// one JSON text.
pub uninterp spec fn json_parse(bytes: Seq<u8>) -> Option<JsonView>;

/// The clone of a `serde_json::Value` is the same value.
pub assume_specification[ <serde_json::Value as Clone>::clone ](
    value: &serde_json::Value,
) -> (result: serde_json::Value)
    ensures
        result == *value,
;

/// The variant `serde_json::Value::Null` holds a JSON null.
#[verifier::external_body]
fn null_variant() -> (value: Value)
    ensures
        json_content(value) == JsonView::Null,
{
    Value::Null
}

/// `serde_json::Value::is_null` is true of a JSON null and of nothing else.
#[verifier::external_body]
fn is_null_variant(value: &Value) -> (result: bool)
    ensures
        result == (json_content(*value) == JsonView::Null),
{
    value.is_null()
}

/// `==` on `serde_json::Value` compares two values member by member. Integers are
/// equal to equal integers only, floating-point numbers by value.
#[verifier::external_body]
pub(crate) fn json_equal(a: &Value, b: &Value) -> (result: bool)
    ensures
        result == same_json(json_content(*a), json_content(*b)),
{
    a == b
}

/// `serde_json::to_vec` on a `serde_json::Value` writes the value's compact text
/// and never fails: the keys of its objects are strings, its numbers are finite,
/// and the text goes to memory. The text is read back as the same value where the
/// value is not nested too deep for the parser and its floating-point numbers are
/// read back.
#[verifier::external_body]
pub(crate) fn json_to_vec(value: &Value) -> (result: Result<Vec<u8>, serde_json::Error>)
    ensures
        result is Ok,
        result->Ok_0@ == json_text(json_content(*value)),
        reads_back(json_content(*value)) ==> json_parse(result->Ok_0@) == Some(
            json_content(*value),
        ),
{
    serde_json::to_vec(value)
}

/// `serde_json::from_slice`, asked for a `serde_json::Value`, is a function of the
/// bytes: it fails where they are not one JSON text, or nested too deep.
#[verifier::external_body]
pub(crate) fn json_from_slice(bytes: &[u8]) -> (result: Result<Value, serde_json::Error>)
    ensures
        match result {
            Ok(value) => json_parse(bytes@) == Some(json_content(value)),
            Err(_) => json_parse(bytes@) is None,
        },
{
    serde_json::from_slice(bytes)
}

/// The value that an entry has where its record holds none.
pub fn default_null() -> (value: Value)
    ensures
        json_content(value) == JsonView::Null,
{
    null_variant()
}

/// Whether an entry's value is left out of its record.
pub fn is_null(value: &Value) -> (result: bool)
    ensures
        result == (json_content(*value) == JsonView::Null),
{
    is_null_variant(value)
}

} // verus!
