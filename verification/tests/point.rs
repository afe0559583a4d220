use influxdb2::models::{DataPoint, WriteDataPoint};
use zenoh_backend_influxdb::{
    build_deletion_point, build_put_point, encode_payload, entries_at, is_in_era, measurement_of,
    read_points, try_read_points, write_query, SampleValue, Timestamp, ZenohPoint,
};

fn line(point: &DataPoint) -> String {
    let mut bytes: Vec<u8> = Vec::new();
    point.write_data_point_to(&mut bytes).unwrap();
    String::from_utf8(bytes).unwrap()
}

fn sample(payload: &[u8]) -> SampleValue {
    SampleValue {
        payload: payload.to_vec(),
        encoding_prefix: 6,
        encoding_suffix: ";v=1".to_owned(),
    }
}

fn stamp(secs: u64, fraction: u64) -> Timestamp {
    Timestamp { time: (secs << 32) + fraction, id: 0x2a }
}

fn point(ztimestamp: &str, value: &str) -> ZenohPoint {
    ZenohPoint {
        kind: "PUT".to_owned(),
        ztimestamp: ztimestamp.to_owned(),
        encoding_prefix: "6".to_owned(),
        encoding_suffix: ";v=1".to_owned(),
        base64: false,
        value: value.to_owned(),
    }
}

fn ztimestamp_of(line: &str) -> String {
    let from = line.find("ztimestamp=").unwrap() + "ztimestamp=".len();
    line[from..].split(' ').next().unwrap().to_owned()
}

#[test]
fn a_key_is_its_own_measurement() {
    assert_eq!(measurement_of(Some("demo/a")), "demo/a");
    assert_eq!(measurement_of(None), "@@none_key@@");
    assert_ne!(measurement_of(Some("a")), measurement_of(Some("b")));
}

#[test]
fn text_is_stored_as_it_is() {
    assert_eq!(encode_payload(b"hello".to_vec()), (false, "hello".to_owned()));
    assert_eq!(encode_payload(Vec::new()), (false, String::new()));
    let umlauts = "größer".as_bytes().to_vec();
    assert_eq!(encode_payload(umlauts), (false, "größer".to_owned()));
}

#[test]
fn other_bytes_are_stored_in_base64() {
    assert_eq!(encode_payload(vec![0xff]), (true, "/w==".to_owned()));
    assert_eq!(encode_payload(vec![0xc3, 0x28]), (true, "wyg=".to_owned()));
    assert_eq!(encode_payload(vec![0xfb, 0xef, 0xff]), (true, "++//".to_owned()));
    assert_eq!(encode_payload(vec![0xed, 0xa0, 0x80, 0x41]), (true, "7aCAQQ==".to_owned()));
}

#[test]
fn a_value_is_stored_with_its_encoding_and_timestamp() {
    let put = build_put_point("demo/a", sample(b"hello"), stamp(1_700_000_000, 0));
    assert_eq!(
        line(&put),
        "demo/a,kind=PUT,ztimestamp=2023-11-14T22:13:20.000000000Z/2a \
         base64=f,encoding_prefix=\"6\",encoding_suffix=\";v=1\",value=\"hello\"\n"
    );
}

#[test]
fn bytes_are_stored_with_the_base64_mark() {
    let value = SampleValue {
        payload: vec![0xff],
        encoding_prefix: 255,
        encoding_suffix: String::new(),
    };
    let put = build_put_point("m", value, Timestamp { time: 1 << 31, id: u128::MAX });
    assert_eq!(
        line(&put),
        "m,kind=PUT,ztimestamp=1970-01-01T00:00:00.500000000Z/ffffffffffffffffffffffffffffffff \
         base64=t,encoding_prefix=\"255\",encoding_suffix=\"\",value=\"/w==\"\n"
    );
}

#[test]
fn a_deletion_is_stored_as_an_empty_mark() {
    let mark = build_deletion_point("demo/a", stamp(0, 0));
    assert_eq!(
        line(&mark),
        "demo/a,kind=DELETE,ztimestamp=1970-01-01T00:00:00.000000000Z/2a \
         base64=f,encoding_prefix=\"\",encoding_suffix=\"\",value=\"\"\n"
    );
}

#[test]
fn points_are_read_in_order_as_plain_text() {
    let points = vec![
        point("2023-11-14T22:13:20.000000000Z/2a", "first"),
        point("1970-01-01T00:00:00Z/1", ""),
    ];
    for values in [read_points(&points), try_read_points(&points).unwrap()] {
        assert_eq!(values.len(), 2);
        assert_eq!(values[0].value.payload, b"first".to_vec());
        assert_eq!(values[0].value.encoding_prefix, 3);
        assert_eq!(values[0].value.encoding_suffix, "");
        assert_eq!(values[0].timestamp, stamp(1_700_000_000, 1));
        assert_eq!(values[1].value.payload, Vec::<u8>::new());
        assert_eq!(values[1].timestamp, Timestamp { time: 1, id: 1 });
    }
    assert_eq!(read_points(&Vec::new()).len(), 0);
}

#[test]
fn points_with_malformed_timestamps_are_not_read() {
    for ztimestamp in [
        "",
        "2023-11-14T22:13:20Z",
        "2023-11-14T22:13:20Z/",
        "2023-11-14T22:13:20Z/0",
        "2023-11-14T22:13:20Z/xyz",
        "yesterday/1",
        "2106-02-07T06:28:16Z/1",
        "9999-12-31T23:59:59Z/1",
    ] {
        let points = vec![point("1970-01-01T00:00:00Z/1", "a"), point(ztimestamp, "b")];
        assert!(try_read_points(&points).is_none(), "{}", ztimestamp);
    }
}

#[test]
fn a_value_is_read_back_as_it_was_stored() {
    for (time, payload) in [
        (0u64, "a"),
        (1, ""),
        (u64::MAX, "\u{1F600} text"),
        (7_301_444_403_200_000_123, "{\"x\": 1}"),
    ] {
        let timestamp = Timestamp { time, id: 7 };
        let put = build_put_point("m", sample(payload.as_bytes()), timestamp);
        let written = line(&put);
        let read = try_read_points(&vec![point(&ztimestamp_of(&written), payload)]).unwrap();
        assert_eq!(read[0].value.payload, payload.as_bytes().to_vec());
        assert_eq!(read[0].timestamp.id, 7);
        let back = read[0].timestamp.time;
        assert_eq!(back >> 32, time >> 32);
        let nanos = |time: u64| (time & 0xffff_ffff) * 1_000_000_000 >> 32;
        assert_eq!(nanos(back), nanos(time));
        let again = line(&build_put_point("m", sample(b"x"), read[0].timestamp));
        assert_eq!(ztimestamp_of(&again), ztimestamp_of(&written));
        let second = try_read_points(&vec![point(&ztimestamp_of(&again), "x")]).unwrap();
        assert_eq!(second[0].timestamp.time, back);
    }
}

#[test]
fn a_time_is_read_back_a_step_later_at_most() {
    let put = build_put_point("m", sample(b"x"), stamp(5, 0x8000_0000));
    let read = read_points(&vec![point(&ztimestamp_of(&line(&put)), "x")]);
    assert_eq!(read[0].timestamp, stamp(5, 0x8000_0001));
}

#[test]
fn the_era_ends_in_2106() {
    assert!(is_in_era("2106-02-07T06:28:15.999999999Z/1"));
    assert!(is_in_era("1970-01-01T00:00:00Z"));
    assert!(is_in_era(""));
    assert!(is_in_era("2106"));
    assert!(!is_in_era("2106-02-07T06:28:16Z"));
    assert!(!is_in_era("yesterday"));
}

#[test]
fn only_the_storage_itself_has_an_entry() {
    let timestamp = Timestamp { time: 9, id: 4 };
    assert_eq!(entries_at(timestamp), vec![(None, timestamp)]);
}

#[test]
fn the_last_value_is_asked_for() {
    let indent = " ".repeat(44);
    let expected = format!(
        "from(bucketID: \"m1\")\n{i}|> range(start: -1700000000s)\n{i}|> filter(fn: (r) => r._measurement == \"demo/a\")\n{i}|> filter(fn: (r) => r[\"kind\"] == \"PUT\")\n{i}|> last()\n{e}",
        i = indent,
        e = " ".repeat(40)
    );
    assert_eq!(write_query("m1", "demo/a", None, 1_700_000_000), expected);
}

#[test]
fn the_values_of_a_time_range_are_asked_for() {
    let indent = " ".repeat(44);
    let expected = format!(
        "from(bucketID: \"m1\")\n{i}|> range(start: 0, stop: 18446744073709551615)\n{i}|> filter(fn: (r) => r._measurement == \"@@none_key@@\")\n{i}|> filter(fn: (r) => r[\"kind\"] == \"PUT\")\n{e}",
        i = indent,
        e = " ".repeat(40)
    );
    let query = write_query("m1", &measurement_of(None), Some((0, u64::MAX)), 5);
    assert_eq!(query, expected);
}

#[test]
fn queries_skip_deletions() {
    for seconds in [None, Some((1, 2))] {
        let query = write_query("m", "k", seconds, 3);
        assert!(query.contains("|> filter(fn: (r) => r[\"kind\"] == \"PUT\")"));
    }
}
