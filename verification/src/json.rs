//! JSON configuration values: what they hold, and the operations on them that the backend uses.

use vstd::prelude::*;
use zenoh_backend_traits::config::{PrivacyGetResult, PrivacyTransparentGet};

verus! {

/// A JSON value, as far as a configuration tells values apart.
pub enum Json {
    /// A string.
    Text(Seq<char>),
    /// A boolean.
    Flag(bool),
    /// An object, by its entries.
    Object(Map<Seq<char>, Json>),
    /// A null, a number or an array, by its JSON text.
    Other(Seq<char>),
}

/// What a configuration says under one key.
pub enum Property {
    /// A string.
    Text(String),
    /// A boolean.
    Flag(bool),
    /// Anything else.
    Other,
}

impl Property {
    /// Whether this is what the JSON value `value` says.
    pub open spec fn reads(self, value: Json) -> bool {
        match value {
            Json::Text(text) => self matches Property::Text(s) && s@ == text,
            Json::Flag(flag) => self == Property::Flag(flag),
            _ => self is Other,
        }
    }
}

/// What a configuration with a section of private entries says under one key.
pub enum PrivateLookup<'a> {
    /// Nothing.
    NotFound,
    /// A value in the private section alone.
    Private(&'a serde_json::Value),
    /// A value outside the private section alone.
    Public(&'a serde_json::Value),
    /// A value in both places.
    Both { public: &'a serde_json::Value, private: &'a serde_json::Value },
}

/// A JSON value of the `serde_json` crate.
#[verifier::external_type_specification]
#[verifier::external_body]
pub struct ExValue(serde_json::Value);

/// A JSON object of the `serde_json` crate.
#[verifier::external_type_specification]
#[verifier::external_body]
#[verifier::reject_recursive_types(K)]
#[verifier::reject_recursive_types(V)]
pub struct ExMap<K, V>(serde_json::Map<K, V>);

/// What a `serde_json::Value` holds.
pub uninterp spec fn json_of(value: serde_json::Value) -> Json;

/// The entries of a `serde_json::Map`.
pub uninterp spec fn entries_of(map: serde_json::Map<String, serde_json::Value>) -> Map<
    Seq<char>,
    Json,
>;

/// The value that `entries` has under `key`.
pub open spec fn entry(entries: Map<Seq<char>, Json>, key: Seq<char>) -> Option<Json> {
    if entries.contains_key(key) {
        Some(entries[key])
    } else {
        None
    }
}

/// The value that the object under `private` has under `key`.
pub open spec fn private_entry(entries: Map<Seq<char>, Json>, key: Seq<char>) -> Option<Json> {
    match entry(entries, "private"@) {
        Some(Json::Object(section)) => entry(section, key),
        _ => None,
    }
}

/// The value that `value` has under `key`, where it is an object.
pub open spec fn member(value: Json, key: Seq<char>) -> Option<Json> {
    match value {
        Json::Object(entries) => entry(entries, key),
        _ => None,
    }
}

/// `entries` with the text `text` under `key`, unless there is a value under `key` already.
pub open spec fn with_default(
    entries: Map<Seq<char>, Json>,
    key: Seq<char>,
    text: Seq<char>,
) -> Map<Seq<char>, Json> {
    if entries.contains_key(key) {
        entries
    } else {
        entries.insert(key, Json::Text(text))
    }
}

/// Tells the variants of a `serde_json::Value` apart, keeping strings and booleans.
#[verifier::external_body]
pub(crate) fn property_of(value: &serde_json::Value) -> (res: Property)
    ensures
        res.reads(json_of(*value)),
{
    match value {
        serde_json::Value::String(text) => Property::Text(text.clone()),
        serde_json::Value::Bool(flag) => Property::Flag(*flag),
        serde_json::Value::Null => Property::Other,
        serde_json::Value::Number(_) => Property::Other,
        serde_json::Value::Array(_) => Property::Other,
        serde_json::Value::Object(_) => Property::Other,
    }
}

/// `serde_json::Map::get` returns the value stored under a key, if any.
#[verifier::external_body]
pub(crate) fn map_get<'a>(
    map: &'a serde_json::Map<String, serde_json::Value>,
    key: &str,
) -> (res: Option<&'a serde_json::Value>)
    ensures
        match res {
            Some(value) => entry(entries_of(*map), key@) == Some(json_of(*value)),
            None => entry(entries_of(*map), key@) is None,
        },
{
    map.get(key)
}

/// `serde_json::Map::insert` stores a value under a key, replacing what was there; here the value is
/// a string.
#[verifier::external_body]
pub(crate) fn map_insert(
    map: &mut serde_json::Map<String, serde_json::Value>,
    key: &str,
    text: String,
)
    ensures
        entries_of(*final(map)) == entries_of(*old(map)).insert(key@, Json::Text(text@)),
{
    map.insert(key.to_owned(), serde_json::Value::String(text));
}

/// `PrivacyTransparentGet::get_private` looks a key up in the object itself and in the object that
/// it holds under `private`.
#[verifier::external_body]
pub(crate) fn map_get_private<'a>(
    map: &'a serde_json::Map<String, serde_json::Value>,
    key: &str,
) -> (res: PrivateLookup<'a>)
    ensures
        match res {
            PrivateLookup::NotFound => {
                &&& entry(entries_of(*map), key@) is None
                &&& private_entry(entries_of(*map), key@) is None
            },
            PrivateLookup::Private(private) => {
                &&& entry(entries_of(*map), key@) is None
                &&& private_entry(entries_of(*map), key@) == Some(json_of(*private))
            },
            PrivateLookup::Public(public) => {
                &&& entry(entries_of(*map), key@) == Some(json_of(*public))
                &&& private_entry(entries_of(*map), key@) is None
            },
            PrivateLookup::Both { public, private } => {
                &&& entry(entries_of(*map), key@) == Some(json_of(*public))
                &&& private_entry(entries_of(*map), key@) == Some(json_of(*private))
            },
        },
{
    match map.get_private(key) {
        PrivacyGetResult::NotFound => PrivateLookup::NotFound,
        PrivacyGetResult::Private(private) => PrivateLookup::Private(private),
        PrivacyGetResult::Public(public) => PrivateLookup::Public(public),
        PrivacyGetResult::Both { public, private } => PrivateLookup::Both { public, private },
    }
}

/// `serde_json::Value::as_object` returns the object that a value is, if it is one.
#[verifier::external_body]
pub(crate) fn as_object(value: &serde_json::Value) -> (res: Option<
    &serde_json::Map<String, serde_json::Value>,
>)
    ensures
        match res {
            Some(map) => json_of(*value) == Json::Object(entries_of(*map)),
            None => !(json_of(*value) is Object),
        },
{
    value.as_object()
}

/// `serde_json::Value::get` returns the value that an object has under a key; a value that is no
/// object has none.
#[verifier::external_body]
pub(crate) fn value_get<'a>(value: &'a serde_json::Value, key: &str) -> (res: Option<
    &'a serde_json::Value,
>)
    ensures
        match res {
            Some(found) => member(json_of(*value), key@) == Some(json_of(*found)),
            None => member(json_of(*value), key@) is None,
        },
{
    value.get(key)
}

/// `serde_json::Map::entry` with `Entry::or_insert` stores a value under a key of an object where
/// there is none; here the value is a string.
#[verifier::external_body]
pub(crate) fn value_or_insert(value: &mut serde_json::Value, key: &str, text: String)
    requires
        json_of(*old(value)) is Object,
    ensures
        json_of(*final(value)) == Json::Object(
            with_default(json_of(*old(value))->Object_0, key@, text@),
        ),
{
    let map = value.as_object_mut().unwrap();
    map.entry(key).or_insert(serde_json::Value::String(text));
}

/// An entry is the value under its key, a private one is the value under its key in the object under
/// `private`, and a member of an object is an entry of it.
pub proof fn law_entries_are_found_by_key(
    entries: Map<Seq<char>, Json>,
    section: Map<Seq<char>, Json>,
    key: Seq<char>,
    value: Json,
)
    ensures
        entry(entries.insert(key, value), key) == Some(value),
        entry(entries.remove(key), key) is None,
        private_entry(entries.insert("private"@, Json::Object(section.insert(key, value))), key)
            == Some(value),
        private_entry(entries.insert("private"@, Json::Object(section.remove(key))), key) is None,
        private_entry(entries.remove("private"@), key) is None,
        !(value is Object) ==> private_entry(entries.insert("private"@, value), key) is None,
        member(Json::Object(entries.insert(key, value)), key) == Some(value),
        member(Json::Object(entries.remove(key)), key) is None,
        !(value is Object) ==> member(value, key) is None,
{
}

/// A default fills a gap and changes nothing else.
pub proof fn law_defaults_fill_gaps_only(
    entries: Map<Seq<char>, Json>,
    key: Seq<char>,
    text: Seq<char>,
    other: Seq<char>,
)
    ensures
        entry(with_default(entries, key, text), key) == match entry(entries, key) {
            Some(value) => Some(value),
            None => Some(Json::Text(text)),
        },
        other != key ==> entry(with_default(entries, key, text), other) == entry(entries, other),
{
}

}
