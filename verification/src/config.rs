//! The properties of the backend and of its storages, and how they are read.

use crate::error::{Error, ErrorView};
use crate::json::{
    entries_of, entry, json_of, map_get_private, member, private_entry, property_of, value_get,
    Json, PrivateLookup, Property,
};
use crate::text::same_text;
use vstd::prelude::*;

verus! {

/// The property of the backend that holds the URL of the server.
pub const PROP_BACKEND_URL: &'static str = "url";

/// The property that holds the organisation.
pub const PROP_BACKEND_ORG_ID: &'static str = "org_id";

/// The property of the backend that holds the version of the server.
pub const PROP_BACKEND_INFLUXDB_VERSION: &'static str = "influxdb_version";

/// The property that holds the token.
pub const PROP_TOKEN: &'static str = "token";

/// The property of a storage that holds its database.
pub const PROP_STORAGE_DB: &'static str = "db";

/// The property of a storage that holds the identifier of its database.
pub const PROP_STORAGE_DB_ID: &'static str = "db_id";

/// The property of a storage that says whether a missing database is to be made.
pub const PROP_STORAGE_CREATE_DB: &'static str = "create_db";

/// The property of a storage that says what is done when it is closed.
pub const PROP_STORAGE_ON_CLOSURE: &'static str = "on_closure";

/// What a client needs to be let in: an organisation and a token.
#[derive(Debug)]
pub enum InfluxDbCredentials {
    /// The organisation, and the token.
    Creds(String, String),
}

impl View for InfluxDbCredentials {
    type V = (Seq<char>, Seq<char>);

    open spec fn view(&self) -> (Seq<char>, Seq<char>) {
        match self {
            InfluxDbCredentials::Creds(org_id, token) => (org_id@, token@),
        }
    }
}

/// The versions of the server's interface.
pub enum InfluxDbVersion {
    VersionOne,
    VersionTwo,
}

/// The string under `key`, from the private section if it is there. There is none where neither
/// place has a value, and an error where a place has one that is no string.
pub open spec fn private_conf(entries: Map<Seq<char>, Json>, key: Seq<char>) -> Result<
    Option<Seq<char>>,
    ErrorView,
> {
    match (entry(entries, key), private_entry(entries, key)) {
        (None, None) => Ok(None),
        (None, Some(Json::Text(private))) => Ok(Some(private)),
        (Some(Json::Text(public)), None) => Ok(Some(public)),
        (Some(Json::Text(_)), Some(Json::Text(private))) => Ok(Some(private)),
        _ => Err(ErrorView::NotAString { property: key }),
    }
}

/// How far a string that should be kept private is open to anyone who can see the configuration.
pub enum Exposure {
    /// It is not given outside the private section, or is in error.
    Hidden,
    /// It is given outside the private section alone.
    Public { value: String },
    /// It is given in both places, and the private string counts.
    Both { value: String, same: bool },
}

/// How far a string is open, over mathematical strings.
pub enum ExposureView {
    Hidden,
    Public { value: Seq<char> },
    Both { value: Seq<char>, same: bool },
}

impl View for Exposure {
    type V = ExposureView;

    open spec fn view(&self) -> ExposureView {
        match self {
            Exposure::Hidden => ExposureView::Hidden,
            Exposure::Public { value } => ExposureView::Public { value: value@ },
            Exposure::Both { value, same } => ExposureView::Both { value: value@, same: *same },
        }
    }
}

/// How far the string under `key` is open.
pub open spec fn exposure(entries: Map<Seq<char>, Json>, key: Seq<char>) -> ExposureView {
    match (entry(entries, key), private_entry(entries, key)) {
        (Some(Json::Text(public)), None) => ExposureView::Public { value: public },
        (Some(Json::Text(public)), Some(Json::Text(private))) => ExposureView::Both {
            value: public,
            same: public == private,
        },
        _ => ExposureView::Hidden,
    }
}

/// The organisation and the token that `entries` give. Both must be there.
pub open spec fn credentials(entries: Map<Seq<char>, Json>) -> Result<
    (Seq<char>, Seq<char>),
    ErrorView,
> {
    match (private_conf(entries, PROP_BACKEND_ORG_ID@), private_conf(entries, PROP_TOKEN@)) {
        (Err(e), _) => Err(e),
        (_, Err(e)) => Err(e),
        (Ok(Some(org_id)), Ok(Some(token))) => Ok((org_id, token)),
        _ => Err(ErrorView::MissingCredentials),
    }
}

/// The database that the configuration of a storage names.
pub open spec fn db_id(volume_cfg: Json) -> Result<Seq<char>, ErrorView> {
    match member(volume_cfg, PROP_STORAGE_DB@) {
        Some(Json::Text(db)) => Ok(db),
        _ => Err(ErrorView::NoDb),
    }
}

/// Reads a string that may be kept in the private section of a configuration.
pub fn get_private_conf(
    config: &serde_json::Map<String, serde_json::Value>,
    credit: &str,
) -> (res: Result<Option<String>, Error>)
    ensures
        match (res, private_conf(entries_of(*config), credit@)) {
            (Ok(Some(found)), Ok(Some(text))) => found@ == text,
            (Ok(None), Ok(None)) => true,
            (Err(e), Err(error)) => e@ == error,
            _ => false,
        },
{
    match map_get_private(config, credit) {
        PrivateLookup::NotFound => Ok(None),
        PrivateLookup::Private(private) => match property_of(private) {
            Property::Text(text) => Ok(Some(text)),
            _ => Err(Error::NotAString { property: credit.to_owned() }),
        },
        PrivateLookup::Public(public) => match property_of(public) {
            Property::Text(text) => Ok(Some(text)),
            _ => Err(Error::NotAString { property: credit.to_owned() }),
        },
        PrivateLookup::Both { public, private } => {
            match (property_of(public), property_of(private)) {
                (Property::Text(_), Property::Text(text)) => Ok(Some(text)),
                _ => Err(Error::NotAString { property: credit.to_owned() }),
            }
        },
    }
}

/// Says how far a string that should be kept private is open.
pub fn exposure_of(config: &serde_json::Map<String, serde_json::Value>, credit: &str) -> (res:
    Exposure)
    ensures
        res@ == exposure(entries_of(*config), credit@),
{
    match map_get_private(config, credit) {
        PrivateLookup::Public(public) => match property_of(public) {
            Property::Text(value) => Exposure::Public { value },
            _ => Exposure::Hidden,
        },
        PrivateLookup::Both { public, private } => {
            match (property_of(public), property_of(private)) {
                (Property::Text(value), Property::Text(other)) => {
                    let same = same_text(&value, other.as_str());
                    Exposure::Both { value, same }
                },
                _ => Exposure::Hidden,
            }
        },
        _ => Exposure::Hidden,
    }
}

/// Reads the organisation and the token.
pub fn extract_credentials(config: &serde_json::Map<String, serde_json::Value>) -> (res: Result<
    Option<InfluxDbCredentials>,
    Error,
>)
    ensures
        match (res, credentials(entries_of(*config))) {
            (Ok(Some(creds)), Ok(pair)) => creds@ == pair,
            (Err(e), Err(error)) => e@ == error,
            _ => false,
        },
{
    let org_id = match get_private_conf(config, PROP_BACKEND_ORG_ID) {
        Ok(org_id) => org_id,
        Err(e) => return Err(e),
    };
    let token = match get_private_conf(config, PROP_TOKEN) {
        Ok(token) => token,
        Err(e) => return Err(e),
    };
    match (org_id, token) {
        (Some(org_id), Some(token)) => Ok(Some(InfluxDbCredentials::Creds(org_id, token))),
        _ => Err(Error::MissingCredentials),
    }
}

/// Reads the database that the configuration of a storage names.
pub fn get_db_id(volume_cfg: &serde_json::Value) -> (res: Result<String, Error>)
    ensures
        match (res, db_id(json_of(*volume_cfg))) {
            (Ok(db), Ok(text)) => db@ == text,
            (Err(e), Err(error)) => e@ == error,
            _ => false,
        },
{
    match value_get(volume_cfg, PROP_STORAGE_DB) {
        Some(value) => match property_of(value) {
            Property::Text(db) => Ok(db),
            _ => Err(Error::NoDb),
        },
        None => Err(Error::NoDb),
    }
}

/// A private string is the one that counts, whatever string is given publicly.
pub proof fn law_private_value_wins(
    entries: Map<Seq<char>, Json>,
    key: Seq<char>,
    public: Seq<char>,
    private: Seq<char>,
)
    requires
        entry(entries, key) is None || entry(entries, key) == Some(Json::Text(public)),
        private_entry(entries, key) == Some(Json::Text(private)),
    ensures
        private_conf(entries, key) == Ok::<Option<Seq<char>>, ErrorView>(Some(private)),
{
}

/// A string that is open is one that is read, unless a private string stands in its place.
pub proof fn law_open_strings_are_read(entries: Map<Seq<char>, Json>, key: Seq<char>)
    ensures
        match exposure(entries, key) {
            ExposureView::Hidden => true,
            ExposureView::Public { value } => private_conf(entries, key) == Ok::<
                Option<Seq<char>>,
                ErrorView,
            >(Some(value)),
            ExposureView::Both { value, same } => {
                &&& private_conf(entries, key) matches Ok(Some(counts))
                &&& same == (counts == value)
            },
        },
{
}

/// A string under a key counts in either place, nothing counts where there is no value, and a value
/// that is no string is an error in either place, even beside a string.
pub proof fn law_strings_count_in_either_place(
    entries: Map<Seq<char>, Json>,
    key: Seq<char>,
    text: Seq<char>,
)
    ensures
        entry(entries, key) is None && private_entry(entries, key) is None ==> private_conf(
            entries,
            key,
        ) == Ok::<Option<Seq<char>>, ErrorView>(None),
        entry(entries, key) == Some(Json::Text(text)) && private_entry(entries, key) is None
            ==> private_conf(entries, key) == Ok::<Option<Seq<char>>, ErrorView>(Some(text)),
        (entry(entries, key) matches Some(value) && !(value is Text)) || (private_entry(
            entries,
            key,
        ) matches Some(value) && !(value is Text)) ==> private_conf(entries, key) == Err::<
            Option<Seq<char>>,
            ErrorView,
        >(ErrorView::NotAString { property: key }),
{
}

/// Credentials are the strings under `org_id` and `token`. An error of the first comes before one of
/// the second, and where one of them is missing there are none.
pub proof fn law_credentials_are_two_strings(
    entries: Map<Seq<char>, Json>,
    org_id: Seq<char>,
    token: Seq<char>,
    error: ErrorView,
)
    ensures
        private_conf(entries, "org_id"@) == Ok::<Option<Seq<char>>, ErrorView>(Some(org_id))
            && private_conf(entries, "token"@) == Ok::<Option<Seq<char>>, ErrorView>(Some(token))
            ==> credentials(entries) == Ok::<(Seq<char>, Seq<char>), ErrorView>((org_id, token)),
        private_conf(entries, "org_id"@) == Err::<Option<Seq<char>>, ErrorView>(error)
            ==> credentials(entries) == Err::<(Seq<char>, Seq<char>), ErrorView>(error),
        private_conf(entries, "org_id"@) is Ok && private_conf(entries, "token"@) == Err::<
            Option<Seq<char>>,
            ErrorView,
        >(error) ==> credentials(entries) == Err::<(Seq<char>, Seq<char>), ErrorView>(error),
        private_conf(entries, "org_id"@) == Ok::<Option<Seq<char>>, ErrorView>(None)
            && private_conf(entries, "token"@) is Ok || private_conf(entries, "org_id"@) is Ok
            && private_conf(entries, "token"@) == Ok::<Option<Seq<char>>, ErrorView>(None)
            ==> credentials(entries) == Err::<(Seq<char>, Seq<char>), ErrorView>(
            ErrorView::MissingCredentials,
        ),
{
}

/// The database of a storage is the string under `db` of its configuration, and nothing else is.
pub proof fn law_the_database_is_the_string_under_db(volume_cfg: Json, db: Seq<char>)
    ensures
        member(volume_cfg, "db"@) == Some(Json::Text(db)) <==> db_id(volume_cfg) == Ok::<
            Seq<char>,
            ErrorView,
        >(db),
        !(member(volume_cfg, "db"@) matches Some(Json::Text(_))) ==> db_id(volume_cfg) == Err::<
            Seq<char>,
            ErrorView,
        >(ErrorView::NoDb),
{
}

/// A string is open exactly where it is given outside the private section and no error comes of it.
pub proof fn law_open_strings_are_told(
    entries: Map<Seq<char>, Json>,
    key: Seq<char>,
    public: Seq<char>,
    private: Seq<char>,
)
    ensures
        entry(entries, key) == Some(Json::Text(public)) && private_entry(entries, key) is None
            ==> exposure(entries, key) == (ExposureView::Public { value: public }),
        entry(entries, key) == Some(Json::Text(public)) && private_entry(entries, key) == Some(
            Json::Text(private),
        ) ==> exposure(entries, key) == (ExposureView::Both {
            value: public,
            same: public == private,
        }),
        entry(entries, key) is None || private_conf(entries, key) is Err ==> exposure(entries, key)
            is Hidden,
{
}

/// Credentials are viewed as their organisation and their token, and an exposure as what is open.
pub proof fn law_credentials_are_viewed_whole(
    org_id: String,
    token: String,
    value: String,
    same: bool,
)
    ensures
        InfluxDbCredentials::Creds(org_id, token)@ == (org_id@, token@),
        Exposure::Hidden@ == ExposureView::Hidden,
        (Exposure::Public { value })@ == (ExposureView::Public { value: value@ }),
        (Exposure::Both { value, same })@ == (ExposureView::Both { value: value@, same }),
{
}

}
