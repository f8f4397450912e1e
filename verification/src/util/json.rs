//! The top-level fields of a JSON object, as `serde_json` parses them.

use vstd::prelude::*;

verus! {

/// `serde_json`'s value type, carried opaquely.
#[verifier::external_type_specification]
#[verifier::external_body]
pub struct ExValue(serde_json::Value);

/// `serde_json`'s object type, carried opaquely.
#[verifier::external_type_specification]
#[verifier::external_body]
#[verifier::reject_recursive_types(K)]
#[verifier::reject_recursive_types(V)]
pub struct ExMap<K, V>(serde_json::Map<K, V>);

/// `serde_json`'s error type, carried opaquely.
#[verifier::external_type_specification]
#[verifier::external_body]
pub struct ExError(serde_json::Error);

/// What the library reads of one field of a JSON object.
///
/// A number is held by the three readings that `serde_json` offers of it: as
/// an unsigned integer, as a signed integer, and as the bit pattern of the
/// nearest IEEE 754 double. What an array or an object holds is not read.
#[derive(Debug)]
pub enum JsonField {
    Null,
    Bool(bool),
    Number { unsigned: Option<u64>, signed: Option<i64>, double_bits: Option<u64> },
    Text(String),
    Array,
    Object,
}

/// The fields that a parsed JSON object holds, by key.
pub uninterp spec fn object_fields(object: serde_json::Map<String, serde_json::Value>) -> Map<
    Seq<char>,
    JsonField,
>;

/// The fields of the JSON object that a text spells, as
/// `serde_json::from_str` reads it; `None` where the text is no JSON object.
pub uninterp spec fn parsed_object(text: Seq<char>) -> Option<Map<Seq<char>, JsonField>>;

/// Parses a text with `serde_json::from_str` as a JSON object.
///
/// Trusted: the call succeeds exactly on the texts that spell a JSON object,
/// and the object returned holds the fields that the text spells.
#[verifier::external_body]
fn parse_object(text: &str) -> (parsed: Result<
    serde_json::Map<String, serde_json::Value>,
    serde_json::Error,
>)
    ensures
        match parsed {
            Ok(object) => parsed_object(text@) == Some(object_fields(object)),
            Err(_) => parsed_object(text@) is None,
        },
{
    serde_json::from_str::<serde_json::Map<String, serde_json::Value>>(text)
}

/// Looks a key up with `serde_json::Map::get` and reads the value found: a
/// number by `serde_json::Number::as_u64`, `as_i64` and the bits of
/// `as_f64`, a text as a copy, an array or an object by its kind alone.
///
/// Trusted: the result is the field that the object holds under `key`, and
/// `None` where it holds none.
#[verifier::external_body]
fn object_get(object: &serde_json::Map<String, serde_json::Value>, key: &str) -> (field: Option<
    JsonField,
>)
    ensures
        field == field_of(object_fields(*object), key@),
{
    object.get(key).map(
        |value|
            match value {
                serde_json::Value::Null => JsonField::Null,
                serde_json::Value::Bool(flag) => JsonField::Bool(*flag),
                serde_json::Value::Number(number) => JsonField::Number {
                    unsigned: number.as_u64(),
                    signed: number.as_i64(),
                    double_bits: number.as_f64().map(|double| double.to_bits()),
                },
                serde_json::Value::String(text) => JsonField::Text(text.clone()),
                serde_json::Value::Array(_) => JsonField::Array,
                serde_json::Value::Object(_) => JsonField::Object,
            },
    )
}

/// A parsed JSON object.
#[derive(Debug)]
pub struct JsonObject {
    inner: serde_json::Map<String, serde_json::Value>,
}

impl JsonObject {
    /// The fields of the object, by key.
    pub closed spec fn fields(&self) -> Map<Seq<char>, JsonField> {
        object_fields(self.inner)
    }

    /// Parses a text as a JSON object.
    pub fn parse(text: &str) -> (parsed: Option<JsonObject>)
        ensures
            match parsed {
                Some(object) => parsed_object(text@) == Some(object.fields()),
                None => parsed_object(text@) is None,
            },
    {
        match parse_object(text) {
            Ok(inner) => Some(JsonObject { inner }),
            Err(_) => None,
        }
    }

    /// The field under `key`, if the object has one.
    pub fn get(&self, key: &str) -> (field: Option<JsonField>)
        ensures
            field == field_of(self.fields(), key@),
    {
        object_get(&self.inner, key)
    }

    /// The text under `key`; `None` where the object has no such field or
    /// the field is no text.
    pub fn get_text(&self, key: &str) -> (text: Option<String>)
        ensures
            text == text_field(self.fields(), key@),
    {
        match self.get(key) {
            Some(JsonField::Text(text)) => Some(text),
            _ => None,
        }
    }

    /// The text under `key` where one may be left out: `Some(None)` where
    /// the object has no such field or the field is null, and `None` where
    /// the field is anything but a text or null.
    pub fn get_optional_text(&self, key: &str) -> (text: Option<Option<String>>)
        ensures
            text == optional_text_field(self.fields(), key@),
    {
        match self.get(key) {
            None => Some(None),
            Some(JsonField::Null) => Some(None),
            Some(JsonField::Text(text)) => Some(Some(text)),
            Some(_) => None,
        }
    }

    /// The integer under `key`; `None` where the object has no such field or
    /// the field is no integer that fits in 64 bits with a sign.
    pub fn get_signed(&self, key: &str) -> (number: Option<i64>)
        ensures
            number == signed_field(self.fields(), key@),
    {
        match self.get(key) {
            Some(JsonField::Number { unsigned: _, signed, double_bits: _ }) => signed,
            _ => None,
        }
    }

    /// The bit pattern of the double nearest to the number under `key`;
    /// `None` where the object has no such field or the field is no number.
    pub fn get_double_bits(&self, key: &str) -> (bits: Option<u64>)
        ensures
            bits == double_field(self.fields(), key@),
    {
        match self.get(key) {
            Some(JsonField::Number { unsigned: _, signed: _, double_bits }) => double_bits,
            _ => None,
        }
    }
}

/// The field that an object holds under a key, if it holds one.
pub open spec fn field_of(fields: Map<Seq<char>, JsonField>, key: Seq<char>) -> Option<JsonField> {
    if fields.contains_key(key) {
        Some(fields[key])
    } else {
        None
    }
}

/// The text that an object holds under a key.
pub open spec fn text_field(fields: Map<Seq<char>, JsonField>, key: Seq<char>) -> Option<String> {
    match field_of(fields, key) {
        Some(JsonField::Text(text)) => Some(text),
        _ => None,
    }
}

/// The text that an object holds under a key that may be left out.
pub open spec fn optional_text_field(fields: Map<Seq<char>, JsonField>, key: Seq<char>) -> Option<
    Option<String>,
> {
    match field_of(fields, key) {
        None => Some(None),
        Some(JsonField::Null) => Some(None),
        Some(JsonField::Text(text)) => Some(Some(text)),
        Some(_) => None,
    }
}

/// The signed integer that an object holds under a key.
pub open spec fn signed_field(fields: Map<Seq<char>, JsonField>, key: Seq<char>) -> Option<i64> {
    match field_of(fields, key) {
        Some(JsonField::Number { unsigned: _, signed, double_bits: _ }) => signed,
        _ => None,
    }
}

/// The double that an object holds under a key, by its bit pattern.
pub open spec fn double_field(fields: Map<Seq<char>, JsonField>, key: Seq<char>) -> Option<u64> {
    match field_of(fields, key) {
        Some(JsonField::Number { unsigned: _, signed: _, double_bits }) => double_bits,
        _ => None,
    }
}

} // verus!
