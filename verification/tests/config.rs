use serde_json::Value;
use zenoh::properties::Properties;
use zenoh_backend_influxdb::{
    exposure_of, extract_credentials, get_db_id, get_private_conf, Error, Exposure, InfluxDbCredentials, InfluxDbVersion,
    OnClosure, NONE_KEY, PROP_BACKEND_INFLUXDB_VERSION, PROP_BACKEND_ORG_ID, PROP_BACKEND_URL,
    PROP_STORAGE_CREATE_DB, PROP_STORAGE_DB, PROP_STORAGE_DB_ID, PROP_STORAGE_ON_CLOSURE,
    PROP_TOKEN,
};

fn object(text: &str) -> serde_json::Map<String, Value> {
    match serde_json::from_str(text).unwrap() {
        Value::Object(map) => map,
        _ => panic!("not an object: {}", text),
    }
}

#[test]
fn property_names() {
    assert_eq!(PROP_BACKEND_URL, "url");
    assert_eq!(PROP_BACKEND_ORG_ID, "org_id");
    assert_eq!(PROP_BACKEND_INFLUXDB_VERSION, "influxdb_version");
    assert_eq!(PROP_TOKEN, "token");
    assert_eq!(PROP_STORAGE_DB, "db");
    assert_eq!(PROP_STORAGE_DB_ID, "db_id");
    assert_eq!(PROP_STORAGE_CREATE_DB, "create_db");
    assert_eq!(PROP_STORAGE_ON_CLOSURE, "on_closure");
    assert_eq!(NONE_KEY, "@@none_key@@");
    assert!(!matches!(InfluxDbVersion::VersionOne, InfluxDbVersion::VersionTwo));
}

#[test]
fn a_property_that_is_not_there_is_none() {
    assert_eq!(get_private_conf(&object("{}"), "token").unwrap(), None);
    let unrelated = object(r#"{"private": {"org_id": "o"}, "url": "u"}"#);
    assert_eq!(get_private_conf(&unrelated, "token").unwrap(), None);
    let no_section = object(r#"{"private": "token"}"#);
    assert_eq!(get_private_conf(&no_section, "token").unwrap(), None);
}

#[test]
fn a_property_is_read_from_either_place() {
    let public = object(r#"{"token": "public"}"#);
    assert_eq!(get_private_conf(&public, "token").unwrap(), Some("public".to_owned()));
    let private = object(r#"{"private": {"token": "private"}}"#);
    assert_eq!(get_private_conf(&private, "token").unwrap(), Some("private".to_owned()));
}

#[test]
fn a_private_property_wins() {
    let both = object(r#"{"token": "public", "private": {"token": "private"}}"#);
    assert_eq!(get_private_conf(&both, "token").unwrap(), Some("private".to_owned()));
    let same = object(r#"{"token": "same", "private": {"token": "same"}}"#);
    assert_eq!(get_private_conf(&same, "token").unwrap(), Some("same".to_owned()));
}

#[test]
fn a_property_that_is_no_string_is_an_error() {
    for text in [
        r#"{"token": 3}"#,
        r#"{"token": null}"#,
        r#"{"token": ["t"]}"#,
        r#"{"private": {"token": true}}"#,
        r#"{"token": 3, "private": {"token": "private"}}"#,
        r#"{"token": "public", "private": {"token": {}}}"#,
    ] {
        let error = get_private_conf(&object(text), "token").unwrap_err();
        assert_eq!(error.message(), "Optional property `token` must be a string");
    }
}

#[test]
fn credentials_are_an_organisation_and_a_token() {
    let config = object(r#"{"org_id": "acme", "private": {"token": "SECRET-REDACTED"}}"#);
    match extract_credentials(&config).unwrap() {
        Some(InfluxDbCredentials::Creds(org_id, token)) => {
            assert_eq!(org_id, "acme");
            assert_eq!(token, "SECRET-REDACTED");
        }
        None => panic!("no credentials"),
    }
}

#[test]
fn incomplete_credentials_are_an_error() {
    for text in ["{}", r#"{"org_id": "acme"}"#, r#"{"token": "t"}"#] {
        let error = extract_credentials(&object(text)).unwrap_err();
        assert!(matches!(error, Error::MissingCredentials));
        assert_eq!(error.message(), "Properties `org_id` and `token` must exist");
    }
}

#[test]
fn the_organisation_is_read_before_the_token() {
    let error = extract_credentials(&object(r#"{"org_id": 1, "token": 2}"#)).unwrap_err();
    assert_eq!(error.message(), "Optional property `org_id` must be a string");
    let error = extract_credentials(&object(r#"{"token": 2}"#)).unwrap_err();
    assert_eq!(error.message(), "Optional property `token` must be a string");
}

#[test]
fn the_database_is_a_string() {
    let config: Value = serde_json::from_str(r#"{"db": "measures"}"#).unwrap();
    assert_eq!(get_db_id(&config).unwrap(), "measures");
    for text in ["{}", r#"{"db": 1}"#, r#"["db"]"#, "null"] {
        let config: Value = serde_json::from_str(text).unwrap();
        let error = get_db_id(&config).unwrap_err();
        assert!(matches!(error, Error::NoDb));
        assert_eq!(error.message(), "no db was found");
    }
}

#[test]
fn closing_actions_of_a_configuration() {
    let action = |text: &str| OnClosure::from_config(&object(text));
    assert_eq!(action("{}"), Some(OnClosure::DoNothing));
    assert_eq!(action(r#"{"on_closure": "do_nothing"}"#), Some(OnClosure::DoNothing));
    assert_eq!(action(r#"{"on_closure": "drop_db"}"#), Some(OnClosure::DropDb));
    assert_eq!(action(r#"{"on_closure": "drop_series"}"#), Some(OnClosure::DropSeries));
    assert_eq!(action(r#"{"on_closure": "drop"}"#), None);
    assert_eq!(action(r#"{"on_closure": true}"#), None);
}

#[test]
fn closing_actions_of_properties() {
    let action = |value: &str| OnClosure::try_from(&Properties::from([("on_closure", value)].as_slice()));
    assert_eq!(OnClosure::try_from(&Properties::from("")).unwrap(), OnClosure::DoNothing);
    assert_eq!(action("drop_db").unwrap(), OnClosure::DropDb);
    assert_eq!(action("drop_series").unwrap(), OnClosure::DropSeries);
    let error = action("do_nothing").unwrap_err();
    assert_eq!(
        error.message(),
        "Unsupported value for 'on_closure' property: do_nothing"
    );
}

#[test]
fn both_readings_of_the_closing_action_agree() {
    for value in ["drop_db", "drop_series"] {
        let properties = Properties::from([("on_closure", value)].as_slice());
        let config = object(&format!(r#"{{"on_closure": "{}"}}"#, value));
        assert_eq!(
            OnClosure::try_from(&properties).ok(),
            OnClosure::from_config(&config)
        );
    }
}

#[test]
fn open_credentials_are_told() {
    let exposure = |text: &str| exposure_of(&object(text), "token");
    assert!(matches!(exposure("{}"), Exposure::Hidden));
    assert!(matches!(exposure(r#"{"private": {"token": "p"}}"#), Exposure::Hidden));
    assert!(matches!(exposure(r#"{"token": 1}"#), Exposure::Hidden));
    assert!(matches!(exposure(r#"{"token": "t", "private": {"token": 1}}"#), Exposure::Hidden));
    match exposure(r#"{"token": "t"}"#) {
        Exposure::Public { value } => assert_eq!(value, "t"),
        _ => panic!("not told"),
    }
    match exposure(r#"{"token": "t", "private": {"token": "p"}}"#) {
        Exposure::Both { value, same } => assert_eq!((value.as_str(), same), ("t", false)),
        _ => panic!("not told"),
    }
    match exposure(r#"{"token": "t", "private": {"token": "t"}}"#) {
        Exposure::Both { value, same } => assert_eq!((value.as_str(), same), ("t", true)),
        _ => panic!("not told"),
    }
}
