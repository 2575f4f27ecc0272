//! JSON documents, as serde_json holds them.
//!
//! A document stays a `serde_json::Value`. What it holds is spoken of
//! through [`json_model`], a mathematical tree, and each operation on it
//! that the library needs is a call into serde_json whose effect on that
//! tree is stated here as serde_json's source has it.
//!
//! serde_json is used as it comes: numbers are `u64`, `i64` or `f64`, and an
//! object keeps its members sorted by name, so that the order in which they
//! were put in leaves no trace.

use vstd::prelude::*;

verus! {

/// The mathematical value of a JSON document.
pub enum JsonModel {
    Null,
    Bool(bool),
    /// A number held as a whole number: one between -2^63 and 2^64 - 1.
    Integer(int),
    /// A number held in binary floating point, by its bit pattern.
    Real(u64),
    Text(Seq<char>),
    Array(Seq<JsonModel>),
    /// An object: no name occurs twice, and the order of the members is of
    /// no account.
    Object(Map<Seq<char>, JsonModel>),
}

impl JsonModel {
    /// The object without members.
    pub open spec fn empty_object() -> JsonModel {
        JsonModel::Object(Map::empty())
    }

    /// The members of an object. Anything else has none.
    pub open spec fn members(self) -> Map<Seq<char>, JsonModel> {
        match self {
            JsonModel::Object(members) => members,
            _ => Map::empty(),
        }
    }

    /// The member of an object under the given name.
    pub open spec fn member(self, name: Seq<char>) -> Option<JsonModel> {
        if self.members().contains_key(name) {
            Some(self.members()[name])
        } else {
            None
        }
    }

    /// The characters of a string.
    pub open spec fn as_text(self) -> Option<Seq<char>> {
        match self {
            JsonModel::Text(text) => Some(text),
            _ => None,
        }
    }

    /// The value of a whole number that is not negative and fits in 64 bits.
    pub open spec fn as_count(self) -> Option<u64> {
        match self {
            JsonModel::Integer(n) if 0 <= n <= u64::MAX => Some(n as u64),
            _ => None,
        }
    }

    /// Whether a member can be assigned by name: the value is an object, or
    /// null, which then becomes an object.
    pub open spec fn takes_members(self) -> bool {
        self is Null || self is Object
    }

    /// The object that holds `value` under `name` and all other members as
    /// before.
    pub open spec fn with_member(self, name: Seq<char>, value: JsonModel) -> JsonModel {
        JsonModel::Object(self.members().insert(name, value))
    }
}

/// A JSON document of serde_json. What it holds is [`json_model`] of it.
#[verifier::external_type_specification]
#[verifier::external_body]
pub struct ExValue(serde_json::Value);

/// serde_json's account of why a text is no JSON. Nothing is read from it.
#[verifier::external_type_specification]
#[verifier::external_body]
pub struct ExError(serde_json::Error);

/// What a `serde_json::Value` holds.
pub uninterp spec fn json_model(value: serde_json::Value) -> JsonModel;

/// What `serde_json::from_str` makes of a text: the document that it
/// denotes, if it is JSON.
pub uninterp spec fn json_of_text(text: Seq<char>) -> Option<JsonModel>;

/// What `serde_json::Value::to_string` writes for a document.
pub uninterp spec fn text_of_json(document: JsonModel) -> Seq<char>;

/// `serde_json::from_str::<Value>`. Trusted: whether the text is read, and
/// the document that is read, are functions of the text alone, named
/// [`json_of_text`].
#[verifier::external_body]
pub(crate) fn json_parse(text: &str) -> (r: Result<serde_json::Value, serde_json::Error>)
    ensures
        r is Ok <==> json_of_text(text@) is Some,
        r matches Ok(value) ==> json_of_text(text@) == Some(json_model(value)),
{
    serde_json::from_str::<serde_json::Value>(text)
}

/// `serde_json::Value::get` with a name. Trusted: an object yields the
/// member of that name if it has one; anything else yields nothing.
#[verifier::external_body]
pub(crate) fn json_member<'a>(value: &'a serde_json::Value, name: &str) -> (r: Option<
    &'a serde_json::Value,
>)
    ensures
        r is Some <==> json_model(*value).member(name@) is Some,
        r matches Some(found) ==> json_model(*value).member(name@) == Some(json_model(*found)),
{
    value.get(name)
}

/// `serde_json::Value::as_str`. Trusted: a string yields its characters;
/// anything else yields nothing.
#[verifier::external_body]
pub(crate) fn json_text<'a>(value: &'a serde_json::Value) -> (r: Option<&'a str>)
    ensures
        r is Some <==> json_model(*value).as_text() is Some,
        r matches Some(text) ==> json_model(*value).as_text() == Some(text@),
{
    value.as_str()
}

/// `serde_json::Value::as_u64`. Trusted: a whole number from 0 to 2^64 - 1
/// yields its value; anything else yields nothing.
#[verifier::external_body]
pub(crate) fn json_count(value: &serde_json::Value) -> (r: Option<u64>)
    ensures
        r == json_model(*value).as_count(),
{
    value.as_u64()
}

/// `serde_json::Value::Object` over `serde_json::Map::new`. Trusted: it is
/// the object without members.
#[verifier::external_body]
pub(crate) fn json_object() -> (r: serde_json::Value)
    ensures
        json_model(r) == JsonModel::empty_object(),
{
    serde_json::Value::Object(serde_json::Map::new())
}

/// `serde_json::Value::from` on a text. Trusted: it is the string of those
/// characters.
#[verifier::external_body]
pub(crate) fn json_from_text(text: &str) -> (r: serde_json::Value)
    ensures
        json_model(r) == JsonModel::Text(text@),
{
    serde_json::Value::from(text)
}

/// `serde_json::Value::from` on a `u64`. Trusted: it is the whole number of
/// that value.
#[verifier::external_body]
pub(crate) fn json_from_count(count: u64) -> (r: serde_json::Value)
    ensures
        json_model(r) == JsonModel::Integer(count as int),
{
    serde_json::Value::from(count)
}

/// Assignment through `serde_json::Value::index_mut` with a name. Trusted:
/// null becomes an empty object first; the object then holds `member` under
/// `name`, in place of what it held there, and its other members as before.
/// Anything but null and an object is left out, since serde_json panics on
/// it.
#[verifier::external_body]
pub(crate) fn json_assign(target: &mut serde_json::Value, name: &str, member: serde_json::Value)
    requires
        json_model(*old(target)).takes_members(),
    ensures
        json_model(*final(target)) == json_model(*old(target)).with_member(
            name@,
            json_model(member),
        ),
{
    target[name] = member;
}

/// `serde_json::Value::to_string`. Trusted: the text is a function of the
/// document alone, named [`text_of_json`].
#[verifier::external_body]
pub(crate) fn json_render(value: &serde_json::Value) -> (r: String)
    ensures
        r@ == text_of_json(json_model(*value)),
{
    value.to_string()
}

} // verus!
