use zenoh_backend_influxdb::{
    calculate_time, calculate_time_at, calculate_time_in, is_stopping_reader, time_from_parameters,
    time_from_range, time_of_range, Error, Offset, TimeBound, TimeExpr, TimeRange,
};

const YEAR_2020: u64 = 1_577_836_800;

fn after(seconds: f64) -> TimeExpr {
    TimeExpr::Now { offset: Offset { bits: seconds.to_bits() } }
}

fn at(secs: u64) -> TimeExpr {
    TimeExpr::Fixed { secs, nanos: 0 }
}

fn seconds(parameters: &str) -> Option<(u64, u64)> {
    time_from_parameters(parameters).unwrap()
}

fn failure(parameters: &str) -> Error {
    time_from_parameters(parameters).unwrap_err()
}

fn now() -> u64 {
    std::time::SystemTime::now().duration_since(std::time::UNIX_EPOCH).unwrap().as_secs()
}

#[test]
fn no_time_range_means_no_seconds() {
    assert_eq!(seconds(""), None);
    assert_eq!(seconds("a=b&_timer=[..]"), None);
}

#[test]
fn fixed_instants_are_seconds() {
    assert_eq!(
        seconds("_time=[2020-01-01T00:00:00Z..2020-01-02T00:00:01.9Z]"),
        Some((YEAR_2020, YEAR_2020 + 86_401))
    );
}

#[test]
fn parameters_are_decoded() {
    assert_eq!(
        seconds("x=1&_time=%5B2020-01-01T00%3A00%3A00Z..2020-01-01T00:01:00Z%5D&y"),
        Some((YEAR_2020, YEAR_2020 + 60))
    );
}

#[test]
fn inclusion_makes_no_difference() {
    let inclusive = seconds("_time=[2020-01-01T00:00:00Z..2020-01-02T00:00:00Z]");
    let exclusive = seconds("_time=]2020-01-01T00:00:00Z..2020-01-02T00:00:00Z[");
    assert_eq!(inclusive, exclusive);
}

#[test]
fn an_unbounded_range_reaches_from_the_beginning_to_now() {
    let before = now();
    let (start, stop) = seconds("_time=[..]").unwrap();
    assert_eq!(start, 0);
    assert!(before <= stop && stop <= now());
}

#[test]
fn relative_instants_are_counted_from_now() {
    let before = now();
    let (start, stop) = seconds("_time=[now(-1h)..now(90.7s)]").unwrap();
    let after = now();
    assert!(before - 3600 <= start && start <= after - 3600);
    assert!(before + 90 <= stop && stop <= after + 90);
}

#[test]
fn durations_are_added_to_the_start() {
    assert_eq!(
        seconds("_time=[2020-01-01T00:00:00Z;2m]"),
        Some((YEAR_2020, YEAR_2020 + 120))
    );
    assert_eq!(
        seconds("_time=[2020-01-01T00:00:00Z;1e3s]"),
        Some((YEAR_2020, YEAR_2020 + 1000))
    );
    assert_eq!(
        seconds("_time=[2020-01-01T00:00:00Z;999999999999w]"),
        Some((YEAR_2020, YEAR_2020 + 604_799_999_999_395_200))
    );
    for (duration, added) in [
        ("1000000000000u", 1_000_000),
        ("1e13u", 10_000_000),
        ("0000000000001s", 1),
        ("1000000000000s", 1_000_000_000_000),
        ("-0s", 0),
        ("-0.000w", 0),
        ("-1e-400s", 0),
        ("+5.9s", 5),
        ("0.000000000001s", 0),
        ("9000000000000000000s", 9_000_000_000_000_000_000),
        ("5", 5),
        ("1500ms", 1),
    ] {
        assert_eq!(
            seconds(&format!("_time=[1970-01-01T00:00:00Z;{}]", duration.replace('+', "%2B"))),
            Some((0, added)),
            "{}",
            duration
        );
    }
    let (start, stop) = seconds("_time=[now(-10s);5s]").unwrap();
    assert!(stop - start == 5 || stop - start == 6);
}

#[test]
fn malformed_time_ranges_are_errors() {
    for parameters in [
        "_time=yesterday",
        "_time=[2020-01-01T00:00:00Z]",
        "_time=[..tomorrow]",
        "_time=[;5s]",
        "_time=[2020-01-01T00:00:00Z;soon]",
        "_time=[1960-01-01T00:00:00Z..]",
        "_time=[junk;-5s]",
        "_time=[junk;s]",
        "_time=[junk..now(s)]",
        "_time=[2020-01-01T00:00:00Z;five]",
        "_time=[2020-01-01T00:00:00Z;-s]",
        "_time=[2020-01-01T00:00:00Z;]",
        "_time=[2020-01-01T00:00:00Z;in 5s]",
        "_time=now(s)",
        "_time=[..]&_time=[..]",
    ] {
        match failure(parameters) {
            Error::TimeRange { cause } => assert!(!cause.is_empty()),
            other => panic!("{}: {:?}", parameters, other),
        }
    }
}

#[test]
fn time_ranges_that_cannot_be_evaluated_are_errors() {
    for parameters in [
        "_time=[now(s)..]",
        "_time=[..now(-s)]",
        "_time=[now();s]",
        "_time=[now();s[",
        "_time=[2020-01-01T00:00:00Z;-5s]",
        "_time=[2020-01-01T00:00:00Z;inf]",
        "_time=[2020-01-01T00:00:00Z;NaN]",
        "_time=[2020-01-01T00:00:00Z;1e300s]",
        "_time=[2020-01-01T00:00:00Z;-0.1s]",
        "_time=[2020-01-01T00:00:00Z;-1e-300s]",
        "_time=[2020-01-01T00:00:00Z;-nan]",
        "_time=[2020-01-01T00:00:00Z;9223372036854775807s]",
        "_time=[2020-01-01T00:00:00Z;s]",
        "_time=[;s]",
        "_time=[2020-01-01T00:00:00Z..now(s)]",
        "_time=[now(-1e12w)..]",
        "_time=[..now(1e30s)]",
    ] {
        let error = failure(parameters);
        assert!(matches!(error, Error::TimeOutOfRange), "{}: {:?}", parameters, error);
        assert_eq!(error.message(), "time range cannot be evaluated");
    }
}

#[test]
fn the_reader_is_stopped_by_nothing_else() {
    for text in [
        "",
        "[",
        "[]",
        "[..]",
        "[;]",
        "[now(-5s)..now()]",
        "[now(-5s);-1e300w]",
        "[2020-01-01T00:00:00Z;5s]",
        "[2020-01-01T00:00:00.;5s]",
        "[2020-01-01T00:00:00Z;+5s]",
        "[2020-01-01T00:00:00Z;1E-300s]",
        "[2020-01-01T00:00:00Z;soon]",
        "[now(s);b..c]",
        "now(s)..",
    ] {
        assert!(!is_stopping_reader(text), "{}", text);
    }
    for text in [
        "[now(s)..]",
        "[now(s);junk]",
        "]..now(-s)[",
        "[2020-01-01T00:00:00Z;s]",
        "[2020-01-01T00:00:00.;-5s]",
        "[2020-01-01T00:00:00Z;+infinity]",
        "[2020-01-01T00:00:00Z;1e100s]",
    ] {
        assert!(is_stopping_reader(text), "{}", text);
    }
}

#[test]
fn offsets_are_cut_as_casts_are() {
    for value in [
        0.0, -0.0, 0.5, -0.5, 0.999_999, 1.0, -1.0, 1.5, -1.5, 1e-320, 5e-324, 123_456_789.25, 4.5e15,
        9.007_199_254_740_993e15, 1e18, 9.2e18, 9.223_372_036_854_775e18, 9.3e18, -9.3e18, 1.9e19,
        1e300, -1e300, f64::MIN, f64::MAX, f64::INFINITY, f64::NEG_INFINITY, f64::NAN, -f64::NAN,
        i64::MIN as f64, i64::MAX as f64,
    ] {
        let offset = Offset { bits: value.to_bits() };
        assert_eq!(offset.to_whole(), value as i64, "{}", value);
        assert_eq!(offset.is_below_zero(), value < 0.0, "{}", value);
    }
}

#[test]
fn offsets_are_added_to_what_a_clock_can_show() {
    let addable = |value: f64, secs: u64| Offset { bits: value.to_bits() }.is_addable(secs);
    assert!(addable(0.0, i64::MAX as u64));
    assert!(addable(0.9, i64::MAX as u64));
    assert!(!addable(1.0, i64::MAX as u64));
    assert!(!addable(0.0, i64::MAX as u64 + 1));
    assert!(addable(-0.0, 5));
    assert!(!addable(-0.5, 5));
    assert!(!addable(f64::NAN, 5));
    assert!(!addable(f64::INFINITY, 5));
    assert!(!addable(9.3e18, 0));
}

#[test]
fn instants_are_evaluated() {
    assert_eq!(calculate_time_at(at(17), 1000), 17);
    assert_eq!(calculate_time_at(at(u64::MAX), 0), u64::MAX);
    assert_eq!(calculate_time_at(after(-1000.0), 1000), 0);
    assert_eq!(calculate_time_at(after(5.0), 1000), 1005);
    assert_eq!(calculate_time_at(after(-2.9), 1000), 998);
    assert_eq!(calculate_time_at(after(2.9), 1000), 1002);
    assert_eq!(calculate_time_at(TimeExpr::Fixed { secs: 1, nanos: 999_000_000 }, 1000), 1);
}

#[test]
fn instants_are_evaluated_now() {
    assert_eq!(calculate_time(at(17)).unwrap(), 17);
    let before = now();
    let time = calculate_time(after(-100.0)).unwrap();
    assert!(before - 100 <= time && time <= now() - 100);
    for offset in [f64::NEG_INFINITY, f64::INFINITY, 1e300, -(now() as f64) - 1000.0] {
        let error = calculate_time(after(offset)).unwrap_err();
        assert!(matches!(error, Error::TimeOutOfRange));
    }
}

#[test]
fn ranges_are_evaluated_bound_by_bound() {
    let range = TimeRange {
        start: TimeBound::Inclusive(after(-7.0)),
        stop: TimeBound::Exclusive(after(7.0)),
    };
    assert_eq!(time_from_range(range, 1, 100, 200), (93, 207));
    let open = TimeRange { start: TimeBound::Unbounded, stop: TimeBound::Unbounded };
    assert_eq!(time_from_range(open, 55, 100, 200), (0, 55));
    let fixed = TimeRange {
        start: TimeBound::Exclusive(at(3)),
        stop: TimeBound::Inclusive(at(9)),
    };
    assert_eq!(time_from_range(fixed, 55, 100, 200), (3, 9));
}

#[test]
fn relative_instants_move_with_the_clock() {
    let tx = after(-7.0);
    assert_eq!(calculate_time_at(tx, 150) - calculate_time_at(tx, 100), 50);
    let tx = at(7);
    assert_eq!(calculate_time_at(tx, 150), calculate_time_at(tx, 100));
}

#[test]
fn instants_that_cannot_be_evaluated_are_errors() {
    assert_eq!(calculate_time_in(after(0.0), 1000).unwrap(), 1000);
    assert_eq!(calculate_time_in(after(f64::NAN), 1000).unwrap(), 1000);
    assert_eq!(calculate_time_in(after(-1000.9), 1000).unwrap(), 0);
    assert_eq!(calculate_time_in(at(7), 0).unwrap(), 7);
    for offset in [-1001.0, f64::INFINITY, f64::NEG_INFINITY] {
        let error = calculate_time_in(after(offset), 1000).unwrap_err();
        assert!(matches!(error, Error::TimeOutOfRange));
    }
}

#[test]
fn the_current_instant_is_always_evaluated() {
    let before = now();
    for tx in [after(0.0), after(-0.0), after(f64::NAN), after(0.9), after(-0.9)] {
        let time = calculate_time(tx).unwrap();
        assert!(before <= time && time <= now());
    }
    let (start, stop) = seconds("_time=[now()..now()]").unwrap();
    assert!(before <= start && start <= now());
    assert!(before <= stop && stop <= now());
}

#[test]
fn offsets_that_are_no_number_count_as_none() {
    let before = now();
    let (_, stop) = time_from_parameters("_time=[..now(nan)]").unwrap().unwrap();
    assert!(before <= stop && stop <= now());
    assert!(matches!(failure("_time=[now(infs);-infs]"), Error::TimeOutOfRange));
    assert!(!is_stopping_reader("[now(infs);-infs]"));
}

#[test]
fn ranges_that_cannot_be_evaluated_are_errors() {
    let range = |start: f64, stop: f64| TimeRange {
        start: TimeBound::Inclusive(after(start)),
        stop: TimeBound::Inclusive(after(stop)),
    };
    assert_eq!(time_of_range(range(-5.0, 5.0), 0, 10, 20).unwrap(), Some((5, 25)));
    assert_eq!(time_of_range(range(5.0, -5.0), 0, 10, 10).unwrap(), Some((15, 5)));
    for bad in [range(-11.0, 0.0), range(0.0, -21.0), range(0.0, 1e19)] {
        assert!(matches!(time_of_range(bad, 0, 10, 20), Err(Error::TimeOutOfRange)));
    }
}
