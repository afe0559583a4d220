use serde_json::Value;
use zenoh_backend_influxdb::{
    bucket_request, check_ready, create_db, create_volume, db_name_for, generate_db_name, is_db_existing, long_version,
    z_create_bucket, Access, Capability, Error, History, InfluxDbBackend, InfluxDbCredentials, OnClosure,
    OpeningStep, Persistence, StoragePlan,
};

fn parse(text: &str) -> Value {
    serde_json::from_str(text).unwrap()
}

fn entries(text: &str) -> serde_json::Map<String, Value> {
    parse(text).as_object().unwrap().clone()
}

fn backend() -> InfluxDbBackend {
    let rest = entries(r#"{"url": "http://localhost:8086", "org_id": "admins", "token": "SECRET-REDACTED"}"#);
    create_volume(rest, "v1 built with rustc").unwrap()
}

fn plan(volume_cfg: &str) -> Result<StoragePlan, Error> {
    backend().create_storage("demo", &parse(volume_cfg)).unwrap()
}

fn opened(plan: &StoragePlan, volume_cfg: &str) -> Value {
    plan.open(parse(volume_cfg)).volume_cfg
}

#[test]
fn the_version_tells_the_compiler() {
    assert_eq!(long_version("v0.10.0", "rustc 1.72.0"), "v0.10.0 built with rustc 1.72.0");
}

#[test]
fn a_backend_reports_its_version() {
    let backend = backend();
    assert_eq!(backend.admin_status.get("version"), Some(&Value::from("v1 built with rustc")));
    assert_eq!(backend.admin_status.get("url"), Some(&Value::from("http://localhost:8086")));
    assert_eq!(backend.admin_status.len(), 4);
    assert_eq!(backend.admin_credentials(), ("admins".to_owned(), "SECRET-REDACTED".to_owned()));
}

#[test]
fn a_reported_version_is_replaced() {
    let rest = entries(r#"{"url": "u", "org_id": "o", "token": "t", "version": 7}"#);
    let backend = create_volume(rest, "new").unwrap();
    assert_eq!(backend.admin_status.get("version"), Some(&Value::from("new")));
    assert_eq!(backend.admin_status.get("url"), Some(&Value::from("u")));
}

#[test]
fn a_backend_needs_a_url() {
    for text in ["{}", r#"{"url": 1, "org_id": "o", "token": "t"}"#, r#"{"private": {"url": "u"}}"#] {
        let error = create_volume(entries(text), "v").err().unwrap();
        assert!(matches!(error, Error::UrlNotAString));
        assert_eq!(
            error.message(),
            "Mandatory property `url` for InfluxDb Backend must be a string"
        );
    }
}

#[test]
fn a_backend_needs_credentials() {
    let error = create_volume(entries(r#"{"url": "u"}"#), "v").err().unwrap();
    assert!(matches!(error, Error::MissingCredentials));
    let error = create_volume(entries(r#"{"url": "u", "org_id": 1}"#), "v").err().unwrap();
    assert_eq!(error.message(), "Optional property `org_id` must be a string");
}

#[test]
fn a_backend_without_credentials_of_its_own_is_let_in_with_nothing() {
    let backend = InfluxDbBackend { admin_status: serde_json::Map::new(), credentials: None };
    assert_eq!(backend.admin_credentials(), (String::new(), String::new()));
    let creds = InfluxDbCredentials::Creds("o".to_owned(), "t".to_owned());
    let backend = InfluxDbBackend { admin_status: serde_json::Map::new(), credentials: Some(creds) };
    assert_eq!(backend.admin_credentials(), ("o".to_owned(), "t".to_owned()));
}

#[test]
fn the_server_must_be_ready() {
    assert!(check_ready(Ok(true)).is_ok());
    let error = check_ready(Ok(false)).unwrap_err();
    assert_eq!(error.message(), "Influxdb server is not ready! ");
    let error = check_ready(Err("refused".to_owned())).unwrap_err();
    assert_eq!(error.message(), "Failed to create InfluxDb Volume : refused");
}

#[test]
fn storages_are_durable_and_keep_everything() {
    assert_eq!(
        backend().get_capability(),
        Capability { persistence: Persistence::Durable, history: History::All, read_cost: 1 }
    );
}

#[test]
fn a_storage_is_planned_from_its_configuration() {
    let plan = plan(
        r#"{"db": "measures", "create_db": true, "on_closure": "drop_db", "org_id": "users", "private": {"token": "SECRET-REDACTED"}}"#,
    )
    .unwrap();
    assert_eq!(plan.on_closure, OnClosure::DropDb);
    assert_eq!(plan.db, "measures");
    assert!(plan.create_db);
    assert_eq!(plan.url, "http://localhost:8086");
    assert_eq!(plan.org_id, "users");
    assert_eq!(plan.token, "SECRET-REDACTED");
}

#[test]
fn a_given_database_is_made_only_on_request() {
    assert!(!plan(r#"{"db": "m", "org_id": "o", "token": "t"}"#).unwrap().create_db);
    assert!(!plan(r#"{"db": "m", "create_db": false, "org_id": "o", "token": "t"}"#).unwrap().create_db);
    assert!(plan(r#"{"db": "m", "create_db": true, "org_id": "o", "token": "t"}"#).unwrap().create_db);
}

#[test]
fn a_database_name_is_made_up_as_a_last_resort() {
    let first = plan(r#"{"create_db": false, "org_id": "o", "token": "t"}"#).unwrap();
    let second = plan(r#"{"create_db": "perhaps", "org_id": "o", "token": "t"}"#).unwrap();
    assert!(first.create_db && second.create_db);
    assert!(first.db.starts_with("zenoh_db_") && second.db.starts_with("zenoh_db_"));
    assert_ne!(first.db, second.db);
    let backend = backend();
    let cfg = parse(r#"{"org_id": "o", "token": "t"}"#);
    let plan = backend.plan_storage_with("demo", &cfg, "fallback".to_owned()).unwrap();
    assert_eq!(plan.db, "fallback");
    let cfg = parse(r#"{"db": "m", "org_id": "o", "token": "t"}"#);
    let plan = backend.plan_storage_with("demo", &cfg, "fallback".to_owned()).unwrap();
    assert_eq!(plan.db, "m");
}

#[test]
fn what_is_not_understood_about_making_a_database_gives_no_plan() {
    let cfg = parse(r#"{"db": "m", "create_db": "yes", "org_id": "o", "token": "t"}"#);
    assert!(backend().create_storage("demo", &cfg).is_none());
    let cfg = parse(r#"{"db": "m", "create_db": "yes", "on_closure": 1}"#);
    assert!(backend().create_storage("demo", &cfg).unwrap().is_err());
    let cfg = parse(r#"{"db": 1, "create_db": "yes"}"#);
    assert!(backend().create_storage("demo", &cfg).unwrap().is_err());
}

#[test]
fn a_storage_that_cannot_be_planned_is_an_error() {
    let message = |text: &str| plan(text).err().unwrap().message();
    assert_eq!(
        message("null"),
        "influxdb backed storages need some volume-specific configuration"
    );
    assert_eq!(
        message(r#"{"on_closure": "explode", "db": 1}"#),
        r#"`on_closure` property of storage `demo` must be one of "do_nothing" (default), "drop_db" and "drop_series""#
    );
    assert_eq!(message(r#"{"db": 1}"#), "");
    assert_eq!(message(r#"{"db": "m"}"#), "Properties `org_id` and `token` must exist");
    assert_eq!(
        message(r#"{"db": "m", "org_id": "o", "token": 1}"#),
        "Optional property `token` must be a string"
    );
}

#[test]
fn a_storage_needs_the_url_of_the_backend() {
    let backend = InfluxDbBackend { admin_status: serde_json::Map::new(), credentials: None };
    let outcome = backend.create_storage("demo", &parse(r#"{"db": "m"}"#)).unwrap();
    assert!(matches!(outcome, Err(Error::UrlNotAString)));
}

#[test]
fn the_database_is_looked_for_first() {
    let plan = plan(r#"{"db": "m", "org_id": "o", "token": "t"}"#).unwrap();
    match plan.start() {
        OpeningStep::FindBucket { id } => assert_eq!(id, "m"),
        _ => panic!("not looked for"),
    }
}

#[test]
fn a_missing_database_is_made_on_request() {
    let eager = plan(r#"{"db": "m", "create_db": true, "org_id": "o", "token": "t"}"#).unwrap();
    match eager.after_lookup(Ok(false)).unwrap() {
        OpeningStep::CreateBucket { request } => {
            assert_eq!(request.org_id, "o");
            assert_eq!(request.name, "m");
        }
        _ => panic!("not made"),
    }
    assert!(matches!(eager.after_lookup(Ok(true)).unwrap(), OpeningStep::Open));
    let shy = plan(r#"{"db": "m", "org_id": "o", "token": "t"}"#).unwrap();
    assert!(matches!(shy.after_lookup(Ok(false)).unwrap(), OpeningStep::Open));
    assert!(matches!(shy.after_lookup(Ok(true)).unwrap(), OpeningStep::Open));
}

#[test]
fn opening_fails_where_the_database_cannot_be_made() {
    let plan = plan(r#"{"db": "m", "create_db": true, "org_id": "o", "token": "t"}"#).unwrap();
    assert!(matches!(plan.after_creation(Ok(true)).unwrap(), OpeningStep::Open));
    let error = plan.after_creation(Ok(false)).err().unwrap();
    assert_eq!(error.message(), "Database 'm' wasnt't created in InfluxDb");
    let error = plan.after_creation(Err(Error::NoDb)).err().unwrap();
    assert_eq!(error.message(), "Failed to create InfluxDb Storage : no db was found");
    let error = plan.after_lookup(Err(Error::ServerNotReady)).err().unwrap();
    assert_eq!(
        error.message(),
        "Failed to create InfluxDb Storage : Influxdb server is not ready! "
    );
}

#[test]
fn opening_records_what_is_missing() {
    let cfg = r#"{"on_closure": "drop_series", "private": {"org_id": "o", "token": "t"}}"#;
    let plan = plan(cfg).unwrap();
    let storage = plan.open(parse(cfg));
    assert_eq!(storage.on_closure, OnClosure::DropSeries);
    assert_eq!(storage.volume_cfg["db"], Value::from(plan.db.as_str()));
    assert_eq!(storage.volume_cfg["url"], Value::from("http://localhost:8086"));
    assert_eq!(storage.volume_cfg["org_id"], Value::from("o"));
    assert_eq!(storage.volume_cfg["private"], parse(r#"{"org_id": "o", "token": "t"}"#));
}

#[test]
fn opening_keeps_what_is_given() {
    let cfg = r#"{"db": "m", "url": 5, "org_id": "public", "token": "t", "private": {"org_id": "o"}}"#;
    let plan = plan(cfg).unwrap();
    assert_eq!(plan.org_id, "o");
    assert_eq!(opened(&plan, cfg), parse(cfg));
}

#[test]
fn opening_again_plans_the_same() {
    let cfg = r#"{"private": {"org_id": "o", "token": "t"}}"#;
    let first = plan(cfg).unwrap();
    let second = plan(&opened(&first, cfg).to_string()).unwrap();
    assert_eq!(second.db, first.db);
    assert_eq!(second.org_id, first.org_id);
    assert_eq!(second.token, first.token);
    assert_eq!(second.url, first.url);
    assert_eq!(second.on_closure, first.on_closure);
}

#[test]
fn made_up_names_are_random() {
    let name = generate_db_name();
    assert_eq!(name.len(), 41);
    assert!(name.starts_with("zenoh_db_"));
    let uuid = &name[9..];
    assert!(uuid.chars().all(|c| c.is_ascii_digit() || ('a'..='f').contains(&c)));
    assert_eq!(&uuid[12..13], "4");
    assert!("89ab".contains(&uuid[16..17]));
    assert_ne!(name, generate_db_name());
}

#[test]
fn a_database_exists_where_the_server_lists_it() {
    assert!(is_db_existing(Ok(1)).unwrap());
    assert!(is_db_existing(Ok(2)).unwrap());
    assert!(!is_db_existing(Ok(0)).unwrap());
    let failure = influxdb2::RequestError::Deserializing { text: "no answer".to_owned() };
    assert!(!is_db_existing(Err(failure)).unwrap());
}

#[test]
fn a_database_is_made_where_the_server_says_so() {
    let failure = || influxdb2::RequestError::Deserializing { text: "no answer".to_owned() };
    assert!(create_db(Ok(())).unwrap());
    assert!(!create_db(Err(failure())).unwrap());
    assert!(z_create_bucket(Ok(())).is_ok());
    let error = z_create_bucket(Err(failure())).unwrap_err();
    assert_eq!(error.to_string(), "Error while parsing response: no answer");
}

#[test]
fn a_request_for_a_database_holds_its_organisation_and_name() {
    let request = bucket_request("o", "b1");
    assert_eq!(request.org_id, "o");
    assert_eq!(request.name, "b1");
    assert_eq!(request.description, None);
}

#[test]
fn a_made_up_name_holds_its_uuid() {
    assert_eq!(db_name_for("0123456789ab4def8123456789abcdef"), "zenoh_db_0123456789ab4def8123456789abcdef");
    assert_ne!(db_name_for("a"), db_name_for("b"));
}

#[test]
fn storages_are_let_in_with_their_own_credentials() {
    let other = r#"{"url": "http://localhost:8086", "org_id": "others", "token": "x", "db": "d"}"#;
    let other = create_volume(entries(other), "v2").unwrap();
    let cfg = parse(r#"{"db": "m", "org_id": "o", "token": "t"}"#);
    for backend in [backend(), other] {
        let plan = backend.create_storage("demo", &cfg).unwrap().unwrap();
        assert_eq!((plan.db.as_str(), plan.org_id.as_str(), plan.token.as_str()), ("m", "o", "t"));
        assert_eq!(plan.url, backend.url().unwrap());
    }
}

#[test]
fn the_version_changes_no_access() {
    let rest = r#"{"url": "u", "org_id": "o", "private": {"token": "t"}}"#;
    for version in ["", "url", "v1"] {
        let backend = create_volume(entries(rest), version).unwrap();
        assert_eq!(backend.url().unwrap(), "u");
        assert_eq!(backend.admin_credentials(), ("o".to_owned(), "t".to_owned()));
    }
    let nothing = InfluxDbBackend { admin_status: serde_json::Map::new(), credentials: None };
    assert!(matches!(nothing.url(), Err(Error::UrlNotAString)));
}

#[test]
fn databases_are_made_with_the_credentials_of_the_backend() {
    let plan = plan(r#"{"db": "m", "create_db": true, "org_id": "o", "token": "t"}"#).unwrap();
    assert_eq!(plan.start().access(), Some(Access::Storage));
    assert_eq!(plan.after_lookup(Ok(false)).unwrap().access(), Some(Access::Admin));
    assert_eq!(plan.after_lookup(Ok(true)).unwrap().access(), None);
}
