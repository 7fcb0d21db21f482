//! JSON values as the library sees them.
//!
//! Frames and payloads are held as `serde_json::Value`. Verus cannot look
//! inside such a value, so this module gives its contents a mathematical
//! model, `JsonValue`, and states over that model what each `serde_json`
//! operation used by the library does. What is stated of `serde_json` is
//! believed, not proved; the rest of the library, the object builders at
//! the end of this module included, is proved against it.

use vstd::prelude::*;
use vstd::string::*;

verus! {

/// The mathematical content of a JSON value.
pub enum JsonValue {
    Null,
    Bool(bool),
    /// A number that is a non-negative integer below 2^64.
    Unsigned(u64),
    /// Any other number, by its literal.
    Number(Seq<char>),
    Text(Seq<char>),
    Array(Seq<JsonValue>),
    Object(Map<Seq<char>, JsonValue>),
}

/// `serde_json::Value`: any JSON value. Its contents are known through
/// `value_json` alone.
#[verifier::external_type_specification]
#[verifier::external_body]
pub struct ExValue(serde_json::Value);

/// `serde_json::Error`: why `serde_json` could not read or write. The
/// library never looks into it.
#[verifier::external_type_specification]
#[verifier::external_body]
pub struct ExJsonError(serde_json::Error);

/// What a `serde_json::Value` holds.
pub uninterp spec fn value_json(v: serde_json::Value) -> JsonValue;

/// The value that `serde_json::from_str` reads from a text, `None` where it
/// reports an error.
pub uninterp spec fn json_of_text(text: Seq<char>) -> Option<JsonValue>;

/// The compact text that `serde_json::to_string` writes for a value, `None`
/// where it reports an error.
pub uninterp spec fn text_of_json(j: JsonValue) -> Option<Seq<char>>;

/// The contents of each value of a sequence.
pub open spec fn values_json(items: Seq<serde_json::Value>) -> Seq<JsonValue> {
    Seq::new(items.len(), |i: int| value_json(items[i]))
}

/// The object that holds the given members; of two members with one name
/// the later one stays.
pub open spec fn members_json(members: Seq<(String, serde_json::Value)>) -> Map<
    Seq<char>,
    JsonValue,
>
    decreases members.len(),
{
    if members.len() == 0 {
        Map::empty()
    } else {
        members_json(members.drop_last()).insert(
            members.last().0@,
            value_json(members.last().1),
        )
    }
}

/// No two members have the same name.
pub open spec fn distinct_names(members: Seq<(String, serde_json::Value)>) -> bool {
    forall|i: int, j: int|
        0 <= i < j < members.len() ==> (#[trigger] members[i]).0@ != (#[trigger] members[j]).0@
}

/// `serde_json::from_str` at `Value`: reads one JSON value from `text`.
/// The contract names what was read and says that an error comes exactly
/// where nothing can be read.
#[verifier::external_body]
pub(crate) fn parse_value(text: &str) -> (r: Result<serde_json::Value, serde_json::Error>)
    ensures
        r matches Ok(v) ==> json_of_text(text@) == Some(value_json(v)),
        r is Err ==> json_of_text(text@) is None,
{
    serde_json::from_str::<serde_json::Value>(text)
}

/// `serde_json::to_string` at `Value`: writes the value as compact JSON
/// text. The contract names what comes back, the text or the report of an
/// error; it does not promise success.
#[verifier::external_body]
pub(crate) fn value_text(v: &serde_json::Value) -> (r: Result<String, serde_json::Error>)
    ensures
        r matches Ok(s) ==> text_of_json(value_json(*v)) == Some(s@),
        r is Err ==> text_of_json(value_json(*v)) is None,
{
    serde_json::to_string(v)
}

/// `Value::as_array`: the elements of an array, `None` for any other value.
pub assume_specification[ serde_json::Value::as_array ](v: &serde_json::Value) -> (r: Option<
    &Vec<serde_json::Value>,
>)
    ensures
        r matches Some(items) ==> value_json(*v) == JsonValue::Array(values_json(items@)),
        r is None ==> !(value_json(*v) is Array),
;

/// `Value::as_u64`: the number where the value is a non-negative integer
/// that fits in 64 bits, `None` for any other value.
pub assume_specification[ serde_json::Value::as_u64 ](v: &serde_json::Value) -> (r: Option<u64>)
    ensures
        r matches Some(n) ==> value_json(*v) == JsonValue::Unsigned(n),
        r is None ==> !(value_json(*v) is Unsigned),
;

/// `Value::as_str`: the text of a string, `None` for any other value.
pub assume_specification<'a>[ serde_json::Value::as_str ](v: &'a serde_json::Value) -> (r: Option<
    &'a str,
>)
    ensures
        r matches Some(s) ==> value_json(*v) == JsonValue::Text(s@),
        r is None ==> !(value_json(*v) is Text),
;

/// `Value::is_object`: whether the value is an object.
pub assume_specification[ serde_json::Value::is_object ](v: &serde_json::Value) -> (r: bool)
    ensures
        r == (value_json(*v) is Object),
;

/// `Value::clone`: a copy with the same contents.
pub assume_specification[ <serde_json::Value as Clone>::clone ](v: &serde_json::Value) -> (r:
    serde_json::Value)
    ensures
        value_json(r) == value_json(*v),
;

/// `Value::from` at `u64`: the number `n`.
#[verifier::external_body]
pub(crate) fn unsigned_value(n: u64) -> (r: serde_json::Value)
    ensures
        value_json(r) == JsonValue::Unsigned(n),
{
    serde_json::Value::from(n)
}

/// `Value::String`: the string with the given text.
#[verifier::external_body]
pub(crate) fn text_value(s: String) -> (r: serde_json::Value)
    ensures
        value_json(r) == JsonValue::Text(s@),
{
    serde_json::Value::String(s)
}

/// `Value::Array`: the array of the given elements, in their order.
#[verifier::external_body]
pub(crate) fn array_value(items: Vec<serde_json::Value>) -> (r: serde_json::Value)
    ensures
        value_json(r) == JsonValue::Array(values_json(items@)),
{
    serde_json::Value::Array(items)
}

/// `Value::Object` over a `serde_json::Map` collected from the members.
/// Names must differ: which of two equal names would stay is left open by
/// the collection's documentation.
#[verifier::external_body]
pub(crate) fn object_value(members: Vec<(String, serde_json::Value)>) -> (r: serde_json::Value)
    requires
        distinct_names(members@),
    ensures
        value_json(r) == JsonValue::Object(members_json(members@)),
{
    serde_json::Value::Object(members.into_iter().collect())
}

/// The JSON object with one member.
pub open spec fn object1(name: Seq<char>, value: JsonValue) -> JsonValue {
    JsonValue::Object(Map::<Seq<char>, JsonValue>::empty().insert(name, value))
}

/// The JSON object with two members.
pub open spec fn object2(
    name1: Seq<char>,
    value1: JsonValue,
    name2: Seq<char>,
    value2: JsonValue,
) -> JsonValue {
    JsonValue::Object(
        Map::<Seq<char>, JsonValue>::empty().insert(name1, value1).insert(name2, value2),
    )
}

/// The JSON object without members.
pub(crate) fn empty_object() -> (r: serde_json::Value)
    ensures
        value_json(r) == JsonValue::Object(Map::<Seq<char>, JsonValue>::empty()),
{
    let members: Vec<(String, serde_json::Value)> = Vec::new();
    object_value(members)
}

/// The JSON object with one member.
pub(crate) fn single_member(name: &str, value: serde_json::Value) -> (r: serde_json::Value)
    ensures
        value_json(r) == object1(name@, value_json(value)),
{
    let mut members: Vec<(String, serde_json::Value)> = Vec::new();
    members.push((name.to_string(), value));
    proof {
        reveal_with_fuel(members_json, 2);
        assert(members@.drop_last() =~= Seq::<(String, serde_json::Value)>::empty());
    }
    object_value(members)
}

/// The JSON object with two members of different names.
pub(crate) fn two_members(
    name1: &str,
    value1: serde_json::Value,
    name2: &str,
    value2: serde_json::Value,
) -> (r: serde_json::Value)
    requires
        name1@ != name2@,
    ensures
        value_json(r) == object2(name1@, value_json(value1), name2@, value_json(value2)),
{
    let mut members: Vec<(String, serde_json::Value)> = Vec::new();
    members.push((name1.to_string(), value1));
    members.push((name2.to_string(), value2));
    proof {
        reveal_with_fuel(members_json, 3);
        let first = members@.drop_last();
        assert(first.drop_last() =~= Seq::<(String, serde_json::Value)>::empty());
        assert(first.last() == members@[0]);
    }
    object_value(members)
}

} // verus!
