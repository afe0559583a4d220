//! The backend: one server, from which storages are made.

use crate::bucket::{generate_db_name, is_generated_db_name};
use crate::closure::{configured_closure, OnClosure};
use crate::config::{
    credentials, extract_credentials, InfluxDbCredentials, PROP_BACKEND_URL,
    PROP_STORAGE_CREATE_DB, PROP_STORAGE_DB, PROP_STORAGE_ON_CLOSURE,
};
use crate::error::{Error, ErrorView};
use crate::json::{
    as_object, entries_of, entry, json_of, map_get, map_insert, property_of, Json, Property,
};
use crate::plan::{PlanView, StoragePlan};
use vstd::pervasive::unreached;
use vstd::prelude::*;

verus! {

/// The property under which a backend reports its own version.
pub const PROP_VERSION: &'static str = "version";

/// A connected backend.
pub struct InfluxDbBackend {
    /// The properties of the backend, its own version among them.
    pub admin_status: serde_json::Map<String, serde_json::Value>,
    /// What the backend itself is let in with.
    pub credentials: Option<InfluxDbCredentials>,
}

/// Whether the values of a storage survive a restart.
#[derive(Debug, Clone, Copy, PartialEq, Eq, Structural)]
pub enum Persistence {
    Volatile,
    Durable,
}

/// How many values a storage keeps for a key.
#[derive(Debug, Clone, Copy, PartialEq, Eq, Structural)]
pub enum History {
    Latest,
    All,
}

/// What the storages of a backend guarantee.
#[derive(Debug, Clone, Copy, PartialEq, Eq, Structural)]
pub struct Capability {
    pub persistence: Persistence,
    pub history: History,
    pub read_cost: u32,
}

/// The properties of a backend with its own version among them.
pub open spec fn with_version(entries: Map<Seq<char>, Json>, version: Seq<char>) -> Map<
    Seq<char>,
    Json,
> {
    entries.insert(PROP_VERSION@, Json::Text(version))
}

/// The URL that the properties of a backend give.
pub open spec fn backend_url(entries: Map<Seq<char>, Json>) -> Result<Seq<char>, ErrorView> {
    match entry(entries, PROP_BACKEND_URL@) {
        Some(Json::Text(url)) => Ok(url),
        _ => Err(ErrorView::UrlNotAString),
    }
}

/// The credentials of a backend with these properties, or the error for which it cannot be made.
pub open spec fn volume_credentials(entries: Map<Seq<char>, Json>) -> Result<
    (Seq<char>, Seq<char>),
    ErrorView,
> {
    match backend_url(entries) {
        Ok(_) => credentials(entries),
        Err(e) => Err(e),
    }
}

/// The text under which a backend reports its own version.
pub fn long_version(version: &str, compiler: &str) -> (res: String)
    ensures
        res@ == version@ + " built with "@ + compiler@,
{
    let mut res = version.to_owned();
    res.push_str(" built with ");
    res.push_str(compiler);
    res
}

/// Makes a backend from its properties, of which the URL and the credentials are mandatory. The
/// server has still to be asked whether it is ready.
pub fn create_volume(
    rest: serde_json::Map<String, serde_json::Value>,
    long_version: &str,
) -> (res: Result<InfluxDbBackend, Error>)
    ensures
        match (res, volume_credentials(with_version(entries_of(rest), long_version@))) {
            (Ok(backend), Ok(pair)) => {
                &&& entries_of(backend.admin_status) == with_version(
                    entries_of(rest),
                    long_version@,
                )
                &&& backend.credentials matches Some(creds)
                &&& creds@ == pair
            },
            (Err(e), Err(error)) => e@ == error,
            _ => false,
        },
{
    let mut admin_status = rest;
    map_insert(&mut admin_status, PROP_VERSION, long_version.to_owned());
    match read_url(&admin_status) {
        Ok(_) => (),
        Err(e) => return Err(e),
    }
    match extract_credentials(&admin_status) {
        Ok(credentials) => Ok(InfluxDbBackend { admin_status, credentials }),
        Err(e) => Err(e),
    }
}

/// Says whether a backend can be used, from what the server answered when asked.
pub fn check_ready(answer: Result<bool, String>) -> (res: Result<(), Error>)
    ensures
        match answer {
            Ok(true) => res is Ok,
            Ok(false) => res matches Err(e) && e@ == ErrorView::ServerNotReady,
            Err(cause) => res matches Err(e) && e@ == (ErrorView::VolumeCreation { cause: cause@ }),
        },
{
    match answer {
        Ok(ready) => if ready {
            Ok(())
        } else {
            Err(Error::ServerNotReady)
        },
        Err(cause) => Err(Error::VolumeCreation { cause }),
    }
}

/// Reads the URL of the server.
fn read_url(config: &serde_json::Map<String, serde_json::Value>) -> (res: Result<String, Error>)
    ensures
        match (res, backend_url(entries_of(*config))) {
            (Ok(url), Ok(text)) => url@ == text,
            (Err(e), Err(error)) => e@ == error,
            _ => false,
        },
{
    match map_get(config, PROP_BACKEND_URL) {
        Some(value) => match property_of(value) {
            Property::Text(url) => Ok(url),
            _ => Err(Error::UrlNotAString),
        },
        None => Err(Error::UrlNotAString),
    }
}

/// The database that the configuration of a storage asks for, and whether it is to be made if it is
/// missing. A storage without a database gets the made-up name `generated`, and its database is to
/// be made. There is no answer where the database is no string.
pub open spec fn configured_db(entries: Map<Seq<char>, Json>, generated: Seq<char>) -> Option<
    (Seq<char>, bool),
> {
    match entry(entries, PROP_STORAGE_DB@) {
        Some(Json::Text(db)) => Some(
            (db, entry(entries, PROP_STORAGE_CREATE_DB@) == Some(Json::Flag(true))),
        ),
        None => Some((generated, true)),
        Some(_) => None,
    }
}

/// Whether it is understood what the configuration of a storage says about making its database:
/// where it matters, it must be a boolean.
pub open spec fn create_db_understood(volume_cfg: Json) -> bool {
    match volume_cfg {
        Json::Object(entries) => {
            ||| configured_closure(entry(entries, PROP_STORAGE_ON_CLOSURE@)) is None
            ||| !(entry(entries, PROP_STORAGE_DB@) matches Some(Json::Text(_)))
            ||| entry(entries, PROP_STORAGE_CREATE_DB@) is None
            ||| entry(entries, PROP_STORAGE_CREATE_DB@) matches Some(Json::Flag(_))
        },
        _ => true,
    }
}

/// What is needed to open the storage `storage` with the configuration `volume_cfg` on a backend
/// with the properties `admin_status`, where `generated` is a database name to fall back on.
pub open spec fn storage_plan(
    admin_status: Map<Seq<char>, Json>,
    storage: Seq<char>,
    volume_cfg: Json,
    generated: Seq<char>,
) -> Result<PlanView, ErrorView> {
    match volume_cfg {
        Json::Object(entries) => match configured_closure(
            entry(entries, PROP_STORAGE_ON_CLOSURE@),
        ) {
            Some(on_closure) => match configured_db(entries, generated) {
                Some((db, create_db)) => match backend_url(admin_status) {
                    Ok(url) => match credentials(entries) {
                        Ok((org_id, token)) => Ok(
                            PlanView { on_closure, db, create_db, url, org_id, token },
                        ),
                        Err(e) => Err(e),
                    },
                    Err(e) => Err(e),
                },
                None => Err(ErrorView::DbNotAString),
            },
            None => Err(ErrorView::OnClosureValue { storage }),
        },
        _ => Err(ErrorView::NoVolumeConfig),
    }
}

/// Whether `res` is the outcome `expected`.
pub open spec fn plans(
    res: Result<StoragePlan, Error>,
    expected: Result<PlanView, ErrorView>,
) -> bool {
    match (res, expected) {
        (Ok(plan), Ok(view)) => plan@ == view,
        (Err(e), Err(error)) => e@ == error,
        _ => false,
    }
}

/// Reads the database of a storage, and whether it is to be made if it is missing.
fn read_db(
    config: &serde_json::Map<String, serde_json::Value>,
    generated: String,
) -> (res: Option<(String, bool)>)
    requires
        entry(entries_of(*config), PROP_STORAGE_DB@) matches Some(Json::Text(_)) ==> {
            ||| entry(entries_of(*config), PROP_STORAGE_CREATE_DB@) is None
            ||| entry(entries_of(*config), PROP_STORAGE_CREATE_DB@) matches Some(Json::Flag(_))
        },
    ensures
        match (res, configured_db(entries_of(*config), generated@)) {
            (Some((db, create_db)), Some((text, flag))) => db@ == text && create_db == flag,
            (None, None) => true,
            _ => false,
        },
{
    let value = match map_get(config, PROP_STORAGE_DB) {
        Some(value) => value,
        None => return Some((generated, true)),
    };
    match property_of(value) {
        Property::Text(db) => match map_get(config, PROP_STORAGE_CREATE_DB) {
            None => Some((db, false)),
            Some(value) => match property_of(value) {
                Property::Flag(create_db) => Some((db, create_db)),
                _ => unreached(),
            },
        },
        _ => None,
    }
}

/// Whether what a storage's configuration says about making its database is understood.
fn is_create_db_understood(volume_cfg: &serde_json::Value) -> (res: bool)
    ensures
        res == create_db_understood(json_of(*volume_cfg)),
{
    let config = match as_object(volume_cfg) {
        Some(config) => config,
        None => return true,
    };
    if OnClosure::from_config(config).is_none() {
        return true;
    }
    let db = match map_get(config, PROP_STORAGE_DB) {
        Some(db) => db,
        None => return true,
    };
    let create_db = match map_get(config, PROP_STORAGE_CREATE_DB) {
        Some(create_db) => create_db,
        None => return true,
    };
    match (property_of(db), property_of(create_db)) {
        (Property::Text(_), Property::Flag(_)) => true,
        (Property::Text(_), _) => false,
        _ => true,
    }
}

impl InfluxDbBackend {
    /// What the storages of this backend guarantee: they keep every value, and keep it for good.
    pub fn get_capability(&self) -> (res: Capability)
        ensures
            res == (Capability {
                persistence: Persistence::Durable,
                history: History::All,
                read_cost: 1,
            }),
    {
        Capability { persistence: Persistence::Durable, history: History::All, read_cost: 1 }
    }

    /// The URL of the server.
    pub fn url(&self) -> (res: Result<String, Error>)
        ensures
            match (res, backend_url(entries_of(self.admin_status))) {
                (Ok(url), Ok(text)) => url@ == text,
                (Err(e), Err(error)) => e@ == error,
                _ => false,
            },
    {
        read_url(&self.admin_status)
    }

    /// The organisation and the token that the backend itself is let in with; both are empty where
    /// it has none.
    pub fn admin_credentials(&self) -> (res: (String, String))
        ensures
            match self.credentials {
                Some(creds) => (res.0@, res.1@) == creds@,
                None => res.0@.len() == 0 && res.1@.len() == 0,
            },
    {
        match &self.credentials {
            Some(InfluxDbCredentials::Creds(org_id, token)) => (org_id.clone(), token.clone()),
            None => (String::new(), String::new()),
        }
    }

    /// Plans a storage, with `generated` as the name of its database if it has none.
    pub fn plan_storage_with(
        &self,
        storage: &str,
        volume_cfg: &serde_json::Value,
        generated: String,
    ) -> (res: Result<StoragePlan, Error>)
        requires
            create_db_understood(json_of(*volume_cfg)),
        ensures
            plans(
                res,
                storage_plan(
                    entries_of(self.admin_status),
                    storage@,
                    json_of(*volume_cfg),
                    generated@,
                ),
            ),
    {
        let config = match as_object(volume_cfg) {
            Some(config) => config,
            None => return Err(Error::NoVolumeConfig),
        };
        let on_closure = match OnClosure::from_config(config) {
            Some(on_closure) => on_closure,
            None => return Err(Error::OnClosureValue { storage: storage.to_owned() }),
        };
        let (db, create_db) = match read_db(config, generated) {
            Some(pair) => pair,
            None => return Err(Error::DbNotAString),
        };
        let url = match read_url(&self.admin_status) {
            Ok(url) => url,
            Err(e) => return Err(e),
        };
        match extract_credentials(config) {
            Ok(Some(InfluxDbCredentials::Creds(org_id, token))) => Ok(
                StoragePlan { on_closure, db, create_db, url, org_id, token },
            ),
            Ok(None) => unreached(),
            Err(e) => Err(e),
        }
    }

    /// Plans a storage. A storage whose configuration names no database gets a made-up name.
    ///
    /// There is no result where the configuration names a database and says about making it
    /// something else than a boolean.
    pub fn create_storage(&self, storage: &str, volume_cfg: &serde_json::Value) -> (res: Option<
        Result<StoragePlan, Error>,
    >)
        ensures
            match res {
                Some(outcome) => {
                    &&& create_db_understood(json_of(*volume_cfg))
                    &&& exists|generated: Seq<char>| #[trigger]
                        is_generated_db_name(generated) && plans(
                            outcome,
                            storage_plan(
                                entries_of(self.admin_status),
                                storage@,
                                json_of(*volume_cfg),
                                generated,
                            ),
                        )
                },
                None => !create_db_understood(json_of(*volume_cfg)),
            },
            res matches Some(outcome) ==> exists|generated: String| #[trigger]
                call_ensures(generate_db_name, (), generated) && plans(
                    outcome,
                    storage_plan(
                        entries_of(self.admin_status),
                        storage@,
                        json_of(*volume_cfg),
                        generated@,
                    ),
                ),
    {
        if !is_create_db_understood(volume_cfg) {
            return None;
        }
        let generated = generate_db_name();
        let ghost name = generated@;
        assert(call_ensures(generate_db_name, (), generated));
        let outcome = self.plan_storage_with(storage, volume_cfg, generated);
        assert(is_generated_db_name(name));
        Some(outcome)
    }
}

/// That a backend reports its own version changes neither the server that it talks to nor what it
/// is let in with, whatever the version is.
pub proof fn law_version_changes_no_access(entries: Map<Seq<char>, Json>, version: Seq<char>)
    ensures
        backend_url(with_version(entries, version)) == backend_url(entries),
        volume_credentials(with_version(entries, version)) == volume_credentials(entries),
{
    reveal_strlit("version");
    reveal_strlit("url");
    reveal_strlit("org_id");
    reveal_strlit("token");
    reveal_strlit("private");
    assert("version"@.len() == 7);
    assert("url"@.len() == 3);
    assert("org_id"@.len() == 6);
    assert("token"@.len() == 5);
    assert("version"@[0] != "private"@[0]);
    let changed = with_version(entries, version);
    assert(entry(changed, "url"@) == entry(entries, "url"@));
    assert(entry(changed, "org_id"@) == entry(entries, "org_id"@));
    assert(entry(changed, "token"@) == entry(entries, "token"@));
    assert(entry(changed, "private"@) == entry(entries, "private"@));
}

/// A storage is let in with what its own configuration gives: of the backend, only the URL matters to
/// its plan.
pub proof fn law_storages_have_their_own_credentials(
    admin_status: Map<Seq<char>, Json>,
    other: Map<Seq<char>, Json>,
    storage: Seq<char>,
    volume_cfg: Json,
    generated: Seq<char>,
)
    requires
        backend_url(admin_status) == backend_url(other),
    ensures
        storage_plan(admin_status, storage, volume_cfg, generated) == storage_plan(
            other,
            storage,
            volume_cfg,
            generated,
        ),
{
}

/// A storage that gives no database gets the made-up one, which is made if it is missing; one that
/// gives a database gets that one, whatever name was made up.
pub proof fn law_made_up_names_are_a_last_resort(
    entries: Map<Seq<char>, Json>,
    generated: Seq<char>,
    other: Seq<char>,
)
    ensures
        entry(entries, PROP_STORAGE_DB@) is None ==> configured_db(entries, generated) == Some(
            (generated, true),
        ),
        entry(entries, PROP_STORAGE_DB@) is Some ==> configured_db(entries, generated)
            == configured_db(entries, other),
{
}

/// The version is reported under `version`, in place of what stood there, and every other property
/// stays as it was.
pub proof fn law_only_the_version_is_added(
    entries: Map<Seq<char>, Json>,
    version: Seq<char>,
    key: Seq<char>,
)
    ensures
        entry(with_version(entries, version), "version"@) == Some(Json::Text(version)),
        key != "version"@ ==> entry(with_version(entries, version), key) == entry(entries, key),
{
}

/// A backend can be made exactly where its URL is a string and its credentials are there, and is let
/// in with those.
pub proof fn law_backends_need_a_url_and_credentials(
    entries: Map<Seq<char>, Json>,
    url: Seq<char>,
    pair: (Seq<char>, Seq<char>),
)
    ensures
        entry(entries, "url"@) == Some(Json::Text(url)) ==> backend_url(entries) == Ok::<
            Seq<char>,
            ErrorView,
        >(url) && volume_credentials(entries) == credentials(entries),
        !(entry(entries, "url"@) matches Some(Json::Text(_))) ==> backend_url(entries) == Err::<
            Seq<char>,
            ErrorView,
        >(ErrorView::UrlNotAString) && volume_credentials(entries) == Err::<
            (Seq<char>, Seq<char>),
            ErrorView,
        >(ErrorView::UrlNotAString),
        volume_credentials(entries) == Ok::<(Seq<char>, Seq<char>), ErrorView>(pair)
            ==> credentials(entries) == Ok::<(Seq<char>, Seq<char>), ErrorView>(pair),
{
}

/// A storage whose configuration is in order is planned with what its configuration gives, and with
/// the URL of the backend: with the given database, which is made only on request, or else with the
/// made-up one, which is always made.
pub proof fn law_plans_hold_what_is_configured(
    admin_status: Map<Seq<char>, Json>,
    storage: Seq<char>,
    entries: Map<Seq<char>, Json>,
    generated: Seq<char>,
    on_closure: OnClosure,
    db: Seq<char>,
    url: Seq<char>,
    org_id: Seq<char>,
    token: Seq<char>,
)
    requires
        configured_closure(entry(entries, "on_closure"@)) == Some(on_closure),
        entry(admin_status, "url"@) == Some(Json::Text(url)),
        credentials(entries) == Ok::<(Seq<char>, Seq<char>), ErrorView>((org_id, token)),
    ensures
        entry(entries, "db"@) == Some(Json::Text(db)) ==> storage_plan(
            admin_status,
            storage,
            Json::Object(entries),
            generated,
        ) == Ok::<PlanView, ErrorView>(
            PlanView {
                on_closure,
                db,
                create_db: entry(entries, "create_db"@) == Some(Json::Flag(true)),
                url,
                org_id,
                token,
            },
        ),
        entry(entries, "db"@) is None ==> storage_plan(
            admin_status,
            storage,
            Json::Object(entries),
            generated,
        ) == Ok::<PlanView, ErrorView>(
            PlanView { on_closure, db: generated, create_db: true, url, org_id, token },
        ),
{
}

/// What is wrong with a storage's configuration is reported in a fixed order: that it is no object,
/// its closing action, its database, the URL of the backend, and its credentials.
pub proof fn law_faults_are_reported_in_order(
    admin_status: Map<Seq<char>, Json>,
    storage: Seq<char>,
    volume_cfg: Json,
    entries: Map<Seq<char>, Json>,
    generated: Seq<char>,
    error: ErrorView,
)
    ensures
        !(volume_cfg is Object) ==> storage_plan(admin_status, storage, volume_cfg, generated)
            == Err::<PlanView, ErrorView>(ErrorView::NoVolumeConfig),
        configured_closure(entry(entries, "on_closure"@)) is None ==> storage_plan(
            admin_status,
            storage,
            Json::Object(entries),
            generated,
        ) == Err::<PlanView, ErrorView>(ErrorView::OnClosureValue { storage }),
        configured_closure(entry(entries, "on_closure"@)) is Some ==> {
            &&& (entry(entries, "db"@) matches Some(value) && !(value is Text)) ==> storage_plan(
                admin_status,
                storage,
                Json::Object(entries),
                generated,
            ) == Err::<PlanView, ErrorView>(ErrorView::DbNotAString)
            &&& (entry(entries, "db"@) matches Some(value) ==> value is Text) ==> {
                &&& !(entry(admin_status, "url"@) matches Some(Json::Text(_))) ==> storage_plan(
                    admin_status,
                    storage,
                    Json::Object(entries),
                    generated,
                ) == Err::<PlanView, ErrorView>(ErrorView::UrlNotAString)
                &&& entry(admin_status, "url"@) matches Some(Json::Text(_)) ==> (credentials(entries)
                    == Err::<(Seq<char>, Seq<char>), ErrorView>(error) ==> storage_plan(
                    admin_status,
                    storage,
                    Json::Object(entries),
                    generated,
                ) == Err::<PlanView, ErrorView>(error))
            }
        },
{
}

/// What a storage says about making its database is not understood in one case alone: its closing
/// action is known, its database is a string, and it says something else than a boolean.
pub proof fn law_only_odd_wishes_are_not_understood(
    volume_cfg: Json,
    entries: Map<Seq<char>, Json>,
)
    ensures
        !(volume_cfg is Object) ==> create_db_understood(volume_cfg),
        create_db_understood(Json::Object(entries)) <==> !({
            &&& configured_closure(entry(entries, "on_closure"@)) is Some
            &&& entry(entries, "db"@) matches Some(Json::Text(_))
            &&& entry(entries, "create_db"@) matches Some(wish) && !(wish is Flag)
        }),
{
}

/// A plan comes out where one is expected, and is the expected one; an error likewise.
pub proof fn law_outcomes_are_the_expected_ones(
    plan: StoragePlan,
    error: Error,
    expected: PlanView,
    expected_error: ErrorView,
)
    ensures
        plans(Ok(plan), Ok(expected)) <==> plan.on_closure == expected.on_closure && plan.db@
            == expected.db && plan.create_db == expected.create_db && plan.url@ == expected.url
            && plan.org_id@ == expected.org_id && plan.token@ == expected.token,
        plans(Err(error), Err(expected_error)) <==> error@ == expected_error,
        !plans(Ok(plan), Err(expected_error)),
        !plans(Err(error), Ok(expected)),
{
}

}
