//! JSON values of `serde_json`, read through a mathematical model.
//!
//! The items marked `external_body` are the only places where a
//! `serde_json::Value` is opened or built; everything else speaks of
//! [`json`], the content of a value.
use vstd::prelude::*;
use vstd::utf8::valid_utf8;

verus! {

/// Content of one JSON value. A float is kept by its IEEE bits.
pub enum Json {
    Null,
    Bool(bool),
    Integer(int),
    Float(u64),
    Text(Seq<char>),
    Array(Seq<Json>),
    Object(Map<Seq<char>, Json>),
}

#[verifier::external_type_specification]
#[verifier::external_body]
pub struct ExValue(serde_json::Value);

/// What a `serde_json::Value` holds.
pub uninterp spec fn json(value: serde_json::Value) -> Json;

/// What `serde_json::to_vec` writes for a value with this content.
pub uninterp spec fn json_text(value: Json) -> Seq<u8>;

/// The members of the object that `serde_json::from_slice` reads from some
/// bytes; nothing where the bytes are not the text of one object.
pub uninterp spec fn parsed_object(bytes: Seq<u8>) -> Option<Map<Seq<char>, Json>>;

/// Whether a value holds no float and nests at most so many arrays and objects.
pub open spec fn plain(value: Json, depth: nat) -> bool
    decreases depth,
{
    match value {
        Json::Float(_) => false,
        Json::Array(items) => depth > 0 && forall|k: int|
            0 <= k < items.len() ==> plain(#[trigger] items[k], (depth - 1) as nat),
        Json::Object(object) => depth > 0 && forall|name: Seq<char>| #[trigger]
            object.dom().contains(name) ==> plain(object[name], (depth - 1) as nat),
        _ => true,
    }
}

/// Content of an optional value.
pub open spec fn json_option(value: Option<serde_json::Value>) -> Option<Json> {
    match value {
        Some(inner) => Some(json(inner)),
        None => None,
    }
}

/// Content of an optional borrowed value.
pub open spec fn json_ref(value: Option<&serde_json::Value>) -> Option<Json> {
    match value {
        Some(inner) => Some(json(*inner)),
        None => None,
    }
}

/// The member of an object, where it is there.
pub open spec fn member(object: Map<Seq<char>, Json>, name: Seq<char>) -> Option<Json> {
    if object.dom().contains(name) {
        Some(object[name])
    } else {
        None
    }
}

/// Content of a list of values, in order.
pub open spec fn json_list(values: Seq<serde_json::Value>) -> Seq<Json> {
    values.map_values(|value: serde_json::Value| json(value))
}

/// `Value::Null`: the value whose content is null.
#[verifier::external_body]
pub(crate) fn null_value() -> (value: serde_json::Value)
    ensures
        json(value) == Json::Null,
{
    serde_json::Value::Null
}

/// `Value::Bool`: the value that holds this truth value.
#[verifier::external_body]
pub(crate) fn bool_value(flag: bool) -> (value: serde_json::Value)
    ensures
        json(value) == Json::Bool(flag),
{
    serde_json::Value::Bool(flag)
}

/// `Value::String`: the value that holds this text.
#[verifier::external_body]
pub(crate) fn text_value(text: &str) -> (value: serde_json::Value)
    ensures
        json(value) == Json::Text(text@),
{
    serde_json::Value::String(text.to_owned())
}

/// `Value::from(i64)`: the value that holds this integer.
#[verifier::external_body]
pub(crate) fn integer_value(number: i64) -> (value: serde_json::Value)
    ensures
        json(value) == Json::Integer(number as int),
{
    serde_json::Value::from(number)
}

/// `Value::from(u64)`: the value that holds this integer.
#[verifier::external_body]
pub(crate) fn unsigned_value(number: u64) -> (value: serde_json::Value)
    ensures
        json(value) == Json::Integer(number as int),
{
    serde_json::Value::from(number)
}

/// `Map::new` inside `Value::Object`: the object without fields.
#[verifier::external_body]
pub(crate) fn empty_object() -> (value: serde_json::Value)
    ensures
        json(value) == Json::Object(Map::empty()),
{
    serde_json::Value::Object(serde_json::Map::new())
}

/// `Map::insert`: binds the name in an object, in place of an earlier value
/// of the same name.
#[verifier::external_body]
pub(crate) fn set_field(object: &mut serde_json::Value, name: &str, value: serde_json::Value)
    requires
        json(*old(object)) is Object,
    ensures
        json(*final(object)) == Json::Object(
            json(*old(object))->Object_0.insert(name@, json(value)),
        ),
{
    if let serde_json::Value::Object(map) = object {
        map.insert(name.to_owned(), value);
    }
}

/// `Value::clone`: a value with the same content.
pub assume_specification[ <serde_json::Value as Clone>::clone ](
    value: &serde_json::Value,
) -> (copy: serde_json::Value)
    ensures
        json(copy) == json(*value),
;

/// `Value::is_null`.
#[verifier::external_body]
pub(crate) fn is_null(value: &serde_json::Value) -> (null: bool)
    ensures
        null == (json(*value) is Null),
{
    value.is_null()
}

/// `Value::as_str`: the text of a text value, nothing otherwise.
#[verifier::external_body]
pub(crate) fn as_text(value: &serde_json::Value) -> (text: Option<&str>)
    ensures
        text matches Some(held) ==> json(*value) == Json::Text(held@),
        text is None ==> !(json(*value) is Text),
{
    value.as_str()
}

/// `Value::as_i64`: the integer of a number that is an integer within the
/// range of `i64`, nothing otherwise.
#[verifier::external_body]
pub(crate) fn as_integer(value: &serde_json::Value) -> (number: Option<i64>)
    ensures
        number matches Some(held) ==> json(*value) == Json::Integer(held as int),
        number is None ==> (json(*value) matches Json::Integer(held) ==> held < i64::MIN || held
            > i64::MAX),
{
    value.as_i64()
}

/// `Value::as_u64`: the integer of a number that is an integer within the
/// range of `u64`, nothing otherwise.
#[verifier::external_body]
pub(crate) fn as_unsigned(value: &serde_json::Value) -> (number: Option<u64>)
    ensures
        number matches Some(held) ==> json(*value) == Json::Integer(held as int),
        number is None ==> (json(*value) matches Json::Integer(held) ==> held < 0 || held
            > u64::MAX),
{
    value.as_u64()
}

/// `Value::as_array`: the items of an array, nothing otherwise.
#[verifier::external_body]
pub(crate) fn as_items(value: &serde_json::Value) -> (items: Option<&Vec<serde_json::Value>>)
    ensures
        items matches Some(held) ==> json(*value) == Json::Array(json_list(held@)),
        items is None ==> !(json(*value) is Array),
{
    value.as_array()
}

/// `Value::get` with a name: the field of an object, nothing where the value
/// is no object or has no such field.
#[verifier::external_body]
pub(crate) fn field<'a>(value: &'a serde_json::Value, name: &str) -> (held: Option<&'a serde_json::Value>)
    ensures
        json_ref(held) == (match json(*value) {
            Json::Object(object) => member(object, name@),
            _ => None,
        }),
{
    value.get(name)
}

/// `Map::remove`: takes a member out of an object.
#[verifier::external_body]
pub(crate) fn take_field(object: &mut serde_json::Value, name: &str) -> (held: Option<
    serde_json::Value,
>)
    requires
        json(*old(object)) is Object,
    ensures
        json_option(held) == member(json(*old(object))->Object_0, name@),
        json(*final(object)) == Json::Object(json(*old(object))->Object_0.remove(name@)),
{
    match object {
        serde_json::Value::Object(map) => map.remove(name),
        _ => None,
    }
}

/// `serde_json::from_slice` into a `serde_json::Map`: the object that the bytes
/// are the text of, nothing where they are no JSON text, the text of anything
/// else, or nested deeper than the reader goes. Of members with the same name
/// the last one counts. What is read depends on the bytes alone.
#[verifier::external_body]
pub(crate) fn parse_object(bytes: &[u8]) -> (object: Option<serde_json::Value>)
    ensures
        match object {
            Some(value) => json(value) is Object && parsed_object(bytes@) == Some(
                json(value)->Object_0,
            ),
            None => parsed_object(bytes@) is None,
        },
{
    serde_json::from_slice::<serde_json::Map<String, serde_json::Value>>(bytes).ok().map(
        serde_json::Value::Object,
    )
}

/// `serde_json::to_vec` on a value. It succeeds on every `Value`: object keys
/// are strings, floats are finite and writing to memory does not fail.
///
/// The text is UTF-8. It is compact and control characters in strings are
/// escaped, so it holds no line feed. The text of an object stands in braces, and reads back
/// as the same object where it holds no float and is not nested deeper than
/// the reader goes, 127 arrays and objects. What a float reads back as is not
/// stated.
#[verifier::external_body]
pub(crate) fn to_bytes(value: &serde_json::Value) -> (bytes: Option<Vec<u8>>)
    ensures
        bytes is Some,
        bytes->Some_0@ == json_text(json(*value)),
        valid_utf8(bytes->Some_0@),
        forall|k: int| 0 <= k < bytes->Some_0@.len() ==> #[trigger] bytes->Some_0@[k] != 0x0a,
        json(*value) matches Json::Object(object) ==> {
            &&& bytes->Some_0@.len() >= 2
            &&& bytes->Some_0@.first() == 0x7b
            &&& bytes->Some_0@.last() == 0x7d
            &&& plain(json(*value), 127) ==> parsed_object(bytes->Some_0@) == Some(object)
        },
{
    serde_json::to_vec(value).ok()
}

} // verus!
