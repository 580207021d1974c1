//! JSON values, built and written out by `serde_json`.
//!
//! The library decides what goes into a value; `serde_json` holds it and
//! turns it into text. A value of `serde_json` is opaque here, so contracts
//! speak of what it holds: [`Json`]. The functions that call into
//! `serde_json` are thin, and what they say of it is taken on trust: each
//! says so in its first line. Numbers that the platform reports as doubles
//! are carried through as `serde_json` made them and are never read.

use vstd::prelude::*;

verus! {

#[verifier::external_type_specification]
#[verifier::external_body]
pub struct ExValue(serde_json::Value);

#[verifier::external_type_specification]
#[verifier::external_body]
#[verifier::reject_recursive_types(K)]
#[verifier::reject_recursive_types(V)]
pub struct ExMap<K, V>(serde_json::Map<K, V>);

#[verifier::external_type_specification]
#[verifier::external_body]
pub struct ExNumber(serde_json::Number);

#[verifier::external_type_specification]
#[verifier::external_body]
pub struct ExError(serde_json::Error);

/// What a JSON value holds.
pub enum Json {
    Null,
    Bool(bool),
    Number(serde_json::Number),
    Text(Seq<char>),
    List(Seq<Json>),
    Record(Map<Seq<char>, Json>),
}

/// A double on its way to the host: a finite number, or nothing where the
/// platform reported NaN or an infinity. The library carries it and never
/// reads it.
pub type Double = Option<serde_json::Number>;

/// The members of a JSON object under construction.
pub type JsonMembers = serde_json::Map<String, serde_json::Value>;

/// What `value` holds.
pub uninterp spec fn value_model(value: serde_json::Value) -> Json;

/// The members of `map`: each key with what its value holds.
pub uninterp spec fn map_model(members: JsonMembers) -> Map<Seq<char>, Json>;

/// The number that holds the double equal to the integer `value`.
pub uninterp spec fn whole_double(value: int) -> serde_json::Number;

/// The number that holds the integer `value`.
pub uninterp spec fn whole_integer(value: int) -> serde_json::Number;

/// The compact text that `serde_json::to_string` writes for a value that
/// holds `model`.
pub uninterp spec fn json_text(model: Json) -> Seq<char>;

/// An object without members.
pub open spec fn no_members() -> Map<Seq<char>, Json> {
    Map::empty()
}

/// What a carried double becomes in a message: itself, or `null`.
pub open spec fn double_json(double: Double) -> Json {
    match double {
        Some(number) => Json::Number(number),
        None => Json::Null,
    }
}

/// `serde_json::Value::Null`.
#[verifier::external_body]
pub(crate) fn json_null() -> (value: serde_json::Value)
    ensures
        value_model(value) == Json::Null,
{
    serde_json::Value::Null
}

/// `serde_json::Value::Bool`: the value holds the flag.
#[verifier::external_body]
pub(crate) fn json_bool(flag: bool) -> (value: serde_json::Value)
    ensures
        value_model(value) == Json::Bool(flag),
{
    serde_json::Value::Bool(flag)
}

/// `serde_json::Value::String`: the value holds a copy of the text.
#[verifier::external_body]
pub(crate) fn json_string(text: &str) -> (value: serde_json::Value)
    ensures
        value_model(value) == Json::Text(text@),
{
    serde_json::Value::String(text.to_owned())
}

/// `serde_json::Value::Number`: the value holds a copy of the number.
#[verifier::external_body]
pub(crate) fn json_number(number: &serde_json::Number) -> (value: serde_json::Value)
    ensures
        value_model(value) == Json::Number(*number),
{
    serde_json::Value::Number(number.clone())
}

/// `serde_json::Value::Array`: the value holds the items in their order.
#[verifier::external_body]
pub(crate) fn json_array(items: Vec<serde_json::Value>) -> (value: serde_json::Value)
    ensures
        value_model(value) == Json::List(items@.map_values(|item| value_model(item))),
{
    serde_json::Value::Array(items)
}

/// `serde_json::Value::Object`: the value holds the members of the map.
#[verifier::external_body]
pub(crate) fn json_object(members: JsonMembers) -> (value: serde_json::Value)
    ensures
        value_model(value) == Json::Record(map_model(members)),
{
    serde_json::Value::Object(members)
}

/// `serde_json::Map::new`: a map without members.
#[verifier::external_body]
pub(crate) fn map_new() -> (members: JsonMembers)
    ensures
        map_model(members) == no_members(),
{
    serde_json::Map::new()
}

/// `serde_json::Map::insert`: afterwards the key stands for the given value,
/// whether or not it was a member before; the other members are untouched.
#[verifier::external_body]
pub(crate) fn map_insert(members: &mut JsonMembers, key: &str, value: serde_json::Value)
    ensures
        map_model(*final(members)) == map_model(*old(members)).insert(key@, value_model(value)),
{
    members.insert(key.to_owned(), value);
}

/// `serde_json::Number::from_f64` on an unsigned pixel count. Every `u32` is
/// a finite double, and the conversion is exact, so a number always comes
/// back and it holds the double equal to the count.
#[verifier::external_body]
pub(crate) fn double_from_u32(count: u32) -> (number: Double)
    ensures
        number == Some(whole_double(count as int)),
{
    serde_json::Number::from_f64(count.into())
}

/// `serde_json::Number::from` on a signed integer: the number holds the
/// integer.
#[verifier::external_body]
pub(crate) fn integer_from_i32(value: i32) -> (number: serde_json::Number)
    ensures
        number == whole_integer(value as int),
{
    serde_json::Number::from(value)
}

/// `serde_json::Number::from` on an unsigned integer: the number holds the
/// integer.
#[verifier::external_body]
pub(crate) fn integer_from_u32(value: u32) -> (number: serde_json::Number)
    ensures
        number == whole_integer(value as int),
{
    serde_json::Number::from(value)
}

/// `serde_json::to_string` on a value: it succeeds, and the text is the
/// compact JSON of what the value holds. Writing a value can only fail where
/// the writer fails or a key is no text; here the writer is a vector of
/// bytes in memory, and the keys of an object are texts.
#[verifier::external_body]
pub(crate) fn to_text(value: &serde_json::Value) -> (text: Result<String, serde_json::Error>)
    ensures
        text is Ok,
        text matches Ok(written) ==> written@ == json_text(value_model(*value)),
{
    serde_json::to_string(value)
}

/// The text handed to the host: what was written, or an empty object where
/// writing failed.
pub fn finish_text(written: Result<String, serde_json::Error>) -> (text: String)
    ensures
        match written {
            Ok(done) => text@ == done@,
            Err(_) => text@ == "{}"@,
        },
{
    match written {
        Ok(done) => done,
        Err(_) => "{}".to_owned(),
    }
}

} // verus!
