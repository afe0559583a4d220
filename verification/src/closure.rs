//! What a storage does with its database when it is closed.

use crate::config::PROP_STORAGE_ON_CLOSURE;
use crate::error::{Error, ErrorView};
use crate::json::{entries_of, entry, map_get, property_of, Json, Property};
use crate::text::same_text;
use vstd::prelude::*;

verus! {

/// What is done with the database of a storage when the storage is closed.
#[derive(Debug, Clone, Copy, PartialEq, Eq, Structural)]
pub enum OnClosure {
    /// The database is dropped.
    DropDb,
    /// All its points are deleted.
    DropSeries,
    /// Nothing.
    DoNothing,
}

/// A set of properties of the `zenoh` crate.
#[verifier::external_type_specification]
#[verifier::external_body]
pub struct ExProperties(zenoh::properties::Properties);

/// The entries of a `zenoh::properties::Properties`.
pub uninterp spec fn properties_of(properties: zenoh::properties::Properties) -> Map<
    Seq<char>,
    Seq<char>,
>;

/// `Properties` gives access to the hash map of its entries; `get` returns the value under a key.
#[verifier::external_body]
fn properties_get(properties: &zenoh::properties::Properties, key: &str) -> (res: Option<String>)
    ensures
        match res {
            Some(value) => {
                &&& properties_of(*properties).contains_key(key@)
                &&& properties_of(*properties)[key@] == value@
            },
            None => !properties_of(*properties).contains_key(key@),
        },
{
    properties.get(key).cloned()
}

/// The action that the configuration of a storage asks for: nothing where it asks for none, and no
/// action at all where it asks for something unknown.
pub open spec fn configured_closure(property: Option<Json>) -> Option<OnClosure> {
    match property {
        None => Some(OnClosure::DoNothing),
        Some(Json::Text(text)) => if text == "drop_series"@ {
            Some(OnClosure::DropSeries)
        } else if text == "drop_db"@ {
            Some(OnClosure::DropDb)
        } else if text == "do_nothing"@ {
            Some(OnClosure::DoNothing)
        } else {
            None
        },
        Some(_) => None,
    }
}

/// The action that a set of properties asks for: nothing where it asks for none, and an error where
/// it asks for anything but dropping.
pub open spec fn closure_from_properties(properties: Map<Seq<char>, Seq<char>>) -> Result<
    OnClosure,
    ErrorView,
> {
    if !properties.contains_key(PROP_STORAGE_ON_CLOSURE@) {
        Ok(OnClosure::DoNothing)
    } else {
        let value = properties[PROP_STORAGE_ON_CLOSURE@];
        if value == "drop_db"@ {
            Ok(OnClosure::DropDb)
        } else if value == "drop_series"@ {
            Ok(OnClosure::DropSeries)
        } else {
            Err(ErrorView::UnsupportedOnClosure { value })
        }
    }
}

impl OnClosure {
    /// Reads the action from the configuration of a storage.
    pub fn from_config(config: &serde_json::Map<String, serde_json::Value>) -> (res: Option<
        OnClosure,
    >)
        ensures
            res == configured_closure(entry(entries_of(*config), PROP_STORAGE_ON_CLOSURE@)),
    {
        let value = match map_get(config, PROP_STORAGE_ON_CLOSURE) {
            Some(value) => value,
            None => return Some(OnClosure::DoNothing),
        };
        match property_of(value) {
            Property::Text(text) => if same_text(&text, "drop_series") {
                Some(OnClosure::DropSeries)
            } else if same_text(&text, "drop_db") {
                Some(OnClosure::DropDb)
            } else if same_text(&text, "do_nothing") {
                Some(OnClosure::DoNothing)
            } else {
                None
            },
            _ => None,
        }
    }

    /// Reads the action from a set of properties.
    pub fn try_from(p: &zenoh::properties::Properties) -> (res: Result<OnClosure, Error>)
        ensures
            match (res, closure_from_properties(properties_of(*p))) {
                (Ok(action), Ok(expected)) => action == expected,
                (Err(e), Err(error)) => e@ == error,
                _ => false,
            },
    {
        match properties_get(p, PROP_STORAGE_ON_CLOSURE) {
            Some(value) => if same_text(&value, "drop_db") {
                Ok(OnClosure::DropDb)
            } else if same_text(&value, "drop_series") {
                Ok(OnClosure::DropSeries)
            } else {
                Err(Error::UnsupportedOnClosure { value })
            },
            None => Ok(OnClosure::DoNothing),
        }
    }
}

/// A set of properties and a configuration that say the same ask for the same action, wherever the
/// properties are accepted.
pub proof fn law_both_readings_agree(
    properties: Map<Seq<char>, Seq<char>>,
    entries: Map<Seq<char>, Json>,
)
    requires
        closure_from_properties(properties) is Ok,
        match entry(entries, PROP_STORAGE_ON_CLOSURE@) {
            Some(value) => {
                &&& properties.contains_key(PROP_STORAGE_ON_CLOSURE@)
                &&& value == Json::Text(properties[PROP_STORAGE_ON_CLOSURE@])
            },
            None => !properties.contains_key(PROP_STORAGE_ON_CLOSURE@),
        },
    ensures
        configured_closure(entry(entries, PROP_STORAGE_ON_CLOSURE@)) == Some(
            closure_from_properties(properties)->Ok_0,
        ),
{
    reveal_strlit("drop_db");
    reveal_strlit("drop_series");
    assert("drop_db"@.len() != "drop_series"@.len());
}

/// Each word asks for its own action, in a configuration and, for the two that drop something, in a
/// set of properties. A configuration without a word asks for nothing, and any other value is
/// refused.
pub proof fn law_each_word_asks_for_its_action(
    value: Json,
    text: Seq<char>,
    properties: Map<Seq<char>, Seq<char>>,
)
    ensures
        configured_closure(Some(Json::Text("drop_db"@))) == Some(OnClosure::DropDb),
        configured_closure(Some(Json::Text("drop_series"@))) == Some(OnClosure::DropSeries),
        configured_closure(Some(Json::Text("do_nothing"@))) == Some(OnClosure::DoNothing),
        configured_closure(None) == Some(OnClosure::DoNothing),
        value != Json::Text("drop_db"@) && value != Json::Text("drop_series"@) && value
            != Json::Text("do_nothing"@) ==> configured_closure(Some(value)) is None,
        closure_from_properties(properties.insert("on_closure"@, "drop_db"@)) == Ok::<
            OnClosure,
            ErrorView,
        >(OnClosure::DropDb),
        closure_from_properties(properties.insert("on_closure"@, "drop_series"@)) == Ok::<
            OnClosure,
            ErrorView,
        >(OnClosure::DropSeries),
        closure_from_properties(properties.remove("on_closure"@)) == Ok::<OnClosure, ErrorView>(
            OnClosure::DoNothing,
        ),
        text != "drop_db"@ && text != "drop_series"@ ==> closure_from_properties(
            properties.insert("on_closure"@, text),
        ) == Err::<OnClosure, ErrorView>(ErrorView::UnsupportedOnClosure { value: text }),
{
    reveal_strlit("drop_db");
    reveal_strlit("drop_series");
    reveal_strlit("do_nothing");
    assert("drop_db"@.len() == 7);
    assert("drop_series"@.len() == 11);
    assert("do_nothing"@.len() == 10);
}

}
