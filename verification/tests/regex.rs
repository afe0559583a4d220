use zenoh_backend_influxdb::{influx_regex_all, key_exprs_to_influx_regex};

#[test]
fn every_key_is_covered_by_the_regex_for_all() {
    assert_eq!(influx_regex_all(), "/^.*$/");
}

#[test]
fn wildcards_and_separators_are_translated() {
    assert_eq!(key_exprs_to_influx_regex(&["**"]), "/^.*$/");
    assert_eq!(key_exprs_to_influx_regex(&["*"]), r"/^[^\/]*$/");
    assert_eq!(
        key_exprs_to_influx_regex(&["demo/*/sensor/**"]),
        r"/^demo\/[^\/]*\/sensor\/.*$/"
    );
}

#[test]
fn alternatives_are_joined_in_order() {
    assert_eq!(
        key_exprs_to_influx_regex(&["a/b", "c/*", "d"]),
        r"/^a\/b|c\/[^\/]*|d$/"
    );
}

#[test]
fn a_slash_splits_the_translation() {
    let whole = key_exprs_to_influx_regex(&["a*/**b"]);
    let left = key_exprs_to_influx_regex(&["a*"]);
    let right = key_exprs_to_influx_regex(&["**b"]);
    let inner = |text: &str| text[2..text.len() - 2].to_owned();
    assert_eq!(inner(&whole), format!(r"{}\/{}", inner(&left), inner(&right)));
}

#[test]
fn plain_chunks_are_literal() {
    assert_eq!(key_exprs_to_influx_regex(&["temperature"]), "/^temperature$/");
    assert_eq!(key_exprs_to_influx_regex(&[""]), "/^$/");
}
