use influxdb2::models::{DataPoint, WriteDataPoint};
use influxdb2::RequestError;
use std::str::FromStr;
use zenoh::prelude::OwnedKeyExpr;
use zenoh_backend_influxdb::{
    is_outdated, schedule_measurement_drop, write_mark_query, write_measurement_predicate, Access, ClosingAction, Error, InfluxDbStorage, OnClosure, SampleValue,
    StorageInsertionResult, Timestamp, ZenohPoint
};

fn storage(volume_cfg: &str, on_closure: OnClosure) -> InfluxDbStorage {
    InfluxDbStorage { volume_cfg: serde_json::from_str(volume_cfg).unwrap(), on_closure }
}

fn measures() -> InfluxDbStorage {
    storage(r#"{"db": "measures"}"#, OnClosure::DoNothing)
}

fn nameless() -> InfluxDbStorage {
    storage("{}", OnClosure::DoNothing)
}

fn line(point: &DataPoint) -> String {
    let mut bytes: Vec<u8> = Vec::new();
    point.write_data_point_to(&mut bytes).unwrap();
    String::from_utf8(bytes).unwrap()
}

fn text(payload: &str) -> SampleValue {
    SampleValue {
        payload: payload.as_bytes().to_vec(),
        encoding_prefix: 3,
        encoding_suffix: String::new(),
    }
}

fn zenoh_point(ztimestamp: &str, value: &str) -> ZenohPoint {
    ZenohPoint {
        kind: "PUT".to_owned(),
        ztimestamp: ztimestamp.to_owned(),
        encoding_prefix: "3".to_owned(),
        encoding_suffix: String::new(),
        base64: false,
        value: value.to_owned(),
    }
}

const STAMP: Timestamp = Timestamp { time: 3 << 32, id: 1 };

#[test]
fn a_put_writes_one_point() {
    let request = measures().put(Some("demo/a"), text("21.5"), STAMP).unwrap();
    assert_eq!(request.db, "measures");
    assert_eq!(
        line(&request.point),
        "demo/a,kind=PUT,ztimestamp=1970-01-01T00:00:03.000000000Z/1 \
         base64=f,encoding_prefix=\"3\",encoding_suffix=\"\",value=\"21.5\"\n"
    );
}

#[test]
fn a_put_without_a_key_writes_to_the_special_measurement() {
    let request = measures().put(None, text("x"), STAMP).unwrap();
    assert!(line(&request.point).starts_with("@@none_key@@,kind=PUT,"));
}

#[test]
fn a_storage_without_a_database_does_nothing() {
    assert!(matches!(nameless().put(None, text("x"), STAMP), Err(Error::NoDb)));
    assert!(matches!(nameless().delete(None, STAMP), Err(Error::NoDb)));
    assert!(matches!(nameless().get(None, "_time=nonsense"), Err(Error::NoDb)));
    assert!(matches!(nameless().close(), Err(Error::NoDb)));
}

#[test]
fn a_put_succeeds_with_the_server() {
    let storage = measures();
    assert_eq!(
        storage.after_put(Some("demo/a"), Ok(())).unwrap(),
        StorageInsertionResult::Inserted
    );
    let error = storage.after_put(Some("demo/a"), Err("boom".to_owned())).unwrap_err();
    assert_eq!(
        error.message(),
        "Failed to put Value for \"demo/a\" in InfluxDb storage : boom"
    );
    let error = storage.after_put(None, Err("boom".to_owned())).unwrap_err();
    assert_eq!(
        error.message(),
        "Failed to put Value for \"@@none_key@@\" in InfluxDb storage : boom"
    );
}

#[test]
fn keys_are_reported_as_key_expressions_are_shown() {
    let key = "demo/\"quoted\"\\é";
    let shown = format!("{:?}", OwnedKeyExpr::from_str(key).unwrap());
    let error = measures().after_put(Some(key), Err("boom".to_owned())).unwrap_err();
    assert_eq!(
        error.message(),
        format!("Failed to put Value for {} in InfluxDb storage : boom", shown)
    );
    assert_eq!(shown, "\"demo/\\\"quoted\\\"\\\\é\"");
}

#[test]
fn a_deletion_goes_through_its_steps() {
    let stamp = Timestamp { time: (1_672_531_200 << 32) + (1 << 31), id: 1 };
    let deletion = measures().delete(Some("demo/a"), stamp).unwrap();
    let request = deletion.request();
    assert_eq!(request.db, "measures");
    assert_eq!(request.predicate.as_deref(), Some("_measurement=\"demo/a\""));
    assert_eq!(request.start, 0);
    assert_eq!(request.stop, 1_672_531_200_500);
    let mark = deletion.after_points(Ok(())).unwrap();
    assert_eq!(mark.db, "measures");
    assert_eq!(
        line(&mark.point),
        "demo/a,kind=DELETE,ztimestamp=2023-01-01T00:00:00.500000000Z/1 \
         base64=f,encoding_prefix=\"\",encoding_suffix=\"\",value=\"\"\n"
    );
    let (drop, outcome) = deletion.after_mark(Ok(())).unwrap();
    assert_eq!(drop.measurement, "demo/a");
    assert_eq!(drop.delay_ms, 5000);
    assert_eq!(outcome, StorageInsertionResult::Deleted);
}

#[test]
fn a_deletion_stops_at_its_own_instant() {
    let stop = |time: u64| measures().delete(None, Timestamp { time, id: 1 }).unwrap().request().stop;
    assert_eq!(stop(0), 0);
    assert_eq!(stop(10 << 32), 10_000);
    assert_eq!(stop((10 << 32) + 0xffff_ffff), 10_999);
    assert_eq!(stop(u64::MAX), 4_294_967_295_999);
}

#[test]
fn a_deletion_is_for_its_own_measurement() {
    assert_eq!(write_measurement_predicate("a/b"), r#"_measurement="a/b""#);
    assert_eq!(write_measurement_predicate(""), r#"_measurement="""#);
    assert_eq!(write_measurement_predicate(r#"a"b\c"#), r#"_measurement="a\"b\\c""#);
    let request = measures().delete(None, STAMP).unwrap().request();
    assert_eq!(request.predicate.as_deref(), Some(r#"_measurement="@@none_key@@""#));
}

#[test]
fn a_deletion_stops_where_the_server_fails() {
    let deletion = measures().delete(None, Timestamp { time: 1, id: 1 }).unwrap();
    let error = deletion.after_points(Err("boom".to_owned())).err().unwrap();
    assert_eq!(
        error.message(),
        "Failed to delete points for measurement '@@none_key@@' from InfluxDb storage : boom"
    );
    let error = deletion.after_mark(Err("boom".to_owned())).err().unwrap();
    assert_eq!(
        error.message(),
        "Failed to mark measurement \"@@none_key@@\" as deleted : boom"
    );
}

#[test]
fn the_calendar_holds_what_it_should() {
    let (first, last) = (
        zenoh_backend_influxdb::storage::MIN_MILLIS,
        zenoh_backend_influxdb::storage::MAX_MILLIS,
    );
    assert!(chrono::NaiveDateTime::from_timestamp_millis(last).is_some());
    assert!(chrono::NaiveDateTime::from_timestamp_millis(last + 1).is_none());
    assert!(chrono::NaiveDateTime::from_timestamp_millis(first).is_some());
    assert!(chrono::NaiveDateTime::from_timestamp_millis(first - 1).is_none());
}

#[test]
fn a_measurement_is_dropped_later() {
    let drop = schedule_measurement_drop("demo/a");
    assert_eq!(drop.measurement, "demo/a");
    assert_eq!(drop.delay_ms, 5000);
}

#[test]
fn a_get_asks_for_a_time_range() {
    let query = measures()
        .get(Some("demo/a"), "_time=[2020-01-01T00:00:00Z..2020-01-02T00:00:00Z]")
        .unwrap();
    assert!(query.starts_with("from(bucketID: \"measures\")\n"));
    assert!(query.contains("|> range(start: 1577836800, stop: 1577923200)\n"));
    assert!(query.contains("r._measurement == \"demo/a\")\n"));
    assert!(!query.contains("last()"));
}

#[test]
fn a_get_without_a_time_range_asks_for_the_last_value() {
    let query = measures().get(None, "").unwrap();
    assert!(query.contains("|> range(start: -1"));
    assert!(query.contains("r._measurement == \"@@none_key@@\")\n"));
    assert!(query.contains("|> last()\n"));
}

#[test]
fn a_get_with_a_bad_time_range_fails() {
    let error = measures().get(None, "_time=nonsense").unwrap_err();
    assert!(matches!(error, Error::TimeRange { .. }));
    let error = measures().get(None, "_time=[now(s)..]").unwrap_err();
    assert!(matches!(error, Error::TimeOutOfRange));
}

#[test]
fn the_answer_to_a_get_is_read() {
    let points = vec![zenoh_point("1970-01-01T00:00:03Z/1", "a"), zenoh_point("1970-01-01T00:00:04Z/2", "b")];
    let values = measures().after_get(Ok(points)).unwrap();
    assert_eq!(values.len(), 2);
    assert_eq!(values[0].value.payload, b"a".to_vec());
    assert_eq!(values[0].timestamp, Timestamp { time: (3 << 32) + 1, id: 1 });
    assert_eq!(values[1].value.payload, b"b".to_vec());
    assert_eq!(values[1].timestamp, Timestamp { time: (4 << 32) + 1, id: 2 });
    let unreadable = vec![zenoh_point("never", "a")];
    assert!(measures().after_get(Ok(unreadable)).is_none());
}

#[test]
fn a_failed_query_finds_nothing() {
    let failure = RequestError::Deserializing { text: "no answer".to_owned() };
    assert_eq!(measures().after_get(Err(failure)).unwrap().len(), 0);
}

#[test]
fn all_entries_are_the_storage_itself() {
    let entries = measures().get_all_entries().unwrap();
    assert_eq!(entries.len(), 1);
    assert_eq!(entries[0].0, None);
    assert_eq!(entries[0].1.id, 1);
    let secs = std::time::SystemTime::now().duration_since(std::time::UNIX_EPOCH).unwrap().as_secs();
    assert!(entries[0].1.time >> 32 <= secs && secs - (entries[0].1.time >> 32) < 60);
}

#[test]
fn closing_does_what_is_configured() {
    let cfg = r#"{"db": "measures"}"#;
    match storage(cfg, OnClosure::DropDb).close().unwrap() {
        ClosingAction::DropDatabase { db } => assert_eq!(db, "measures"),
        _ => panic!("not dropped"),
    }
    match storage(cfg, OnClosure::DropSeries).close().unwrap() {
        ClosingAction::DeleteAllPoints { request } => {
            assert_eq!(request.db, "measures");
            assert_eq!(request.predicate, None);
            assert_eq!(request.start, chrono::NaiveDateTime::MIN.timestamp_millis());
            assert_eq!(request.stop, chrono::NaiveDateTime::MAX.timestamp_millis());
        }
        _ => panic!("not emptied"),
    }
    match storage(cfg, OnClosure::DoNothing).close().unwrap() {
        ClosingAction::Keep { db } => assert_eq!(db, "measures"),
        _ => panic!("not kept"),
    }
}

#[test]
fn databases_are_dropped_with_the_credentials_of_the_backend() {
    let access = |on_closure| storage(r#"{"db": "m"}"#, on_closure).close().unwrap().access();
    assert_eq!(access(OnClosure::DropDb), Some(Access::Admin));
    assert_eq!(access(OnClosure::DropSeries), Some(Access::Storage));
    assert_eq!(access(OnClosure::DoNothing), None);
}

#[test]
fn marks_are_asked_for_before_a_put() {
    let indent = " ".repeat(44);
    let expected = format!(
        "from(bucketID: \"measures\")\n{i}|> range(start: 0)\n{i}|> filter(fn: (r) => r._measurement == \"demo/a\")\n{i}|> filter(fn: (r) => r[\"kind\"] == \"DELETE\")\n{i}|> last()\n{e}",
        i = indent,
        e = " ".repeat(40)
    );
    assert_eq!(measures().marks(Some("demo/a")).unwrap(), expected);
    assert_eq!(write_mark_query("measures", "demo/a"), expected);
    assert!(matches!(nameless().marks(None), Err(Error::NoDb)));
}

#[test]
fn values_older_than_a_deletion_stay_out() {
    let storage = measures();
    let deleted = Timestamp { time: (100 << 32) + 7, id: 9 };
    let deletion = storage.delete(Some("demo/a"), deleted).unwrap();
    let written = line(&deletion.after_points(Ok(())).unwrap().point);
    let from = written.find("ztimestamp=").unwrap() + "ztimestamp=".len();
    let mark = written[from..].split(' ').next().unwrap().to_owned();
    let outcome = |time: u64| {
        let marks = vec!["never".to_owned(), mark.clone()];
        storage.after_marks(Ok(marks), Timestamp { time, id: 1 })
    };
    for older in [0, 1, 99 << 32, 100 << 32, (100 << 32) + 6, deleted.time] {
        assert_eq!(outcome(older), Some(StorageInsertionResult::Outdated), "{}", older);
    }
    for newer in [deleted.time + 5, 101 << 32, u64::MAX] {
        assert_eq!(outcome(newer), None, "{}", newer);
    }
}

#[test]
fn values_come_in_where_nothing_was_deleted() {
    assert_eq!(measures().after_marks(Ok(Vec::new()), STAMP), None);
    let unreadable = vec!["never".to_owned(), "9999-12-31T23:59:59Z/1".to_owned()];
    assert!(!is_outdated(&unreadable, STAMP));
    let failure = RequestError::Deserializing { text: "no answer".to_owned() };
    assert_eq!(measures().after_marks(Err(failure), STAMP), None);
}
