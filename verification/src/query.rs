//! The Flux queries that values are read with.

use crate::point::{deletion_point, put_point, SampleView};
use crate::text::{decimal, decimal_text};
use crate::timestamp::Timestamp;
use vstd::prelude::*;

verus! {

/// The step of a query that lets only values pass, and no marks of deletions.
pub const KIND_FILTER: &'static str =
    "\n                                            |> filter(fn: (r) => r[\"kind\"] == \"PUT\")";

/// The step of a query that lets only marks of deletions pass.
pub const MARK_FILTER: &'static str =
    "\n                                            |> filter(fn: (r) => r[\"kind\"] == \"DELETE\")";

/// What a query ends with.
pub const QUERY_END: &'static str = "\n                                        ";

/// The steps of a query up to its time range: the points of the database `db`.
pub open spec fn source_step(db: Seq<char>) -> Seq<char> {
    "from(bucketID: \""@ + db + "\")\n                                            |> range(start: "@
}

/// The step of a query that lets only the points of one measurement pass.
pub open spec fn measurement_step(measurement: Seq<char>) -> Seq<char> {
    ")\n                                            |> filter(fn: (r) => r._measurement == \""@
        + measurement + "\")"@
}

/// The query for all the values of a measurement from the second `start` to the second `stop`.
pub open spec fn range_query(
    db: Seq<char>,
    measurement: Seq<char>,
    start: nat,
    stop: nat,
) -> Seq<char> {
    source_step(db) + decimal(start) + ", stop: "@ + decimal(stop) + measurement_step(measurement)
        + KIND_FILTER@ + QUERY_END@
}

/// The query for the last value of a measurement, up to the second `now`.
pub open spec fn last_query(db: Seq<char>, measurement: Seq<char>, now: nat) -> Seq<char> {
    source_step(db) + "-"@ + decimal(now) + "s"@ + measurement_step(measurement) + KIND_FILTER@
        + "\n                                            |> last()"@ + QUERY_END@
}

/// The query for the last marks of deletions of a measurement.
pub open spec fn mark_query(db: Seq<char>, measurement: Seq<char>) -> Seq<char> {
    source_step(db) + "0"@ + measurement_step(measurement) + MARK_FILTER@
        + "\n                                            |> last()"@ + QUERY_END@
}

/// Writes the query for the last marks of deletions of a measurement.
pub fn write_mark_query(db: &str, measurement: &str) -> (res: String)
    ensures
        res@ == mark_query(db@, measurement@),
{
    let mut res = "from(bucketID: \"".to_owned();
    res.push_str(db);
    res.push_str("\")\n                                            |> range(start: ");
    res.push_str("0");
    res.push_str(
        ")\n                                            |> filter(fn: (r) => r._measurement == \"",
    );
    res.push_str(measurement);
    res.push_str("\")");
    res.push_str(MARK_FILTER);
    res.push_str("\n                                            |> last()");
    res.push_str(QUERY_END);
    assert(res@ == mark_query(db@, measurement@));
    res
}

/// The query for the values of a measurement between two seconds, or for the last one where no
/// seconds are given.
pub open spec fn query_text(
    db: Seq<char>,
    measurement: Seq<char>,
    seconds: Option<(u64, u64)>,
    now: nat,
) -> Seq<char> {
    match seconds {
        Some((start, stop)) => range_query(db, measurement, start as nat, stop as nat),
        None => last_query(db, measurement, now),
    }
}

/// Writes the query for the values of a measurement between two seconds, or for the last one where
/// no seconds are given.
pub fn write_query(db: &str, measurement: &str, seconds: Option<(u64, u64)>, now: u64) -> (res:
    String)
    ensures
        res@ == query_text(db@, measurement@, seconds, now as nat),
{
    let mut res = "from(bucketID: \"".to_owned();
    res.push_str(db);
    res.push_str("\")\n                                            |> range(start: ");
    match seconds {
        Some((start, stop)) => {
            res.push_str(decimal_text(start).as_str());
            res.push_str(", stop: ");
            res.push_str(decimal_text(stop).as_str());
        },
        None => {
            res.push_str("-");
            res.push_str(decimal_text(now).as_str());
            res.push_str("s");
        },
    }
    res.push_str(
        ")\n                                            |> filter(fn: (r) => r._measurement == \"",
    );
    res.push_str(measurement);
    res.push_str("\")");
    res.push_str(KIND_FILTER);
    if seconds.is_none() {
        res.push_str("\n                                            |> last()");
    }
    res.push_str(QUERY_END);
    assert(res@ == query_text(db@, measurement@, seconds, now as nat));
    res
}

/// Every query lets only values pass: a mark of a deletion is never read as a value.
pub proof fn law_queries_skip_deletions(
    db: Seq<char>,
    measurement: Seq<char>,
    seconds: Option<(u64, u64)>,
    now: nat,
) -> (steps: (Seq<char>, Seq<char>))
    ensures
        query_text(db, measurement, seconds, now) == steps.0 + KIND_FILTER@ + steps.1,
{
    let steps = match seconds {
        Some((start, stop)) => (
            source_step(db) + decimal(start as nat) + ", stop: "@ + decimal(stop as nat)
                + measurement_step(measurement),
            QUERY_END@,
        ),
        None => (
            source_step(db) + "-"@ + decimal(now) + "s"@ + measurement_step(measurement),
            "\n                                            |> last()"@ + QUERY_END@,
        ),
    };
    assert(query_text(db, measurement, seconds, now) == steps.0 + KIND_FILTER@ + steps.1);
    steps
}

/// The query for the last value of a measurement looks back over as many seconds as the clock shows,
/// that is to the beginning of 1970, and asks for nothing but the last value of that measurement.
pub proof fn law_the_last_value_is_looked_for_since_1970(
    db: Seq<char>,
    measurement: Seq<char>,
    now: nat,
)
    ensures
        query_text(db, measurement, None, now) == "from(bucketID: \""@ + db
            + "\")\n                                            |> range(start: "@ + "-"@ + decimal(now) + "s"@
            + ")\n                                            |> filter(fn: (r) => r._measurement == \""@ + measurement + "\")"@
            + "\n                                            |> filter(fn: (r) => r[\"kind\"] == \"PUT\")"@
            + "\n                                            |> last()"@ + "\n                                        "@,
{
    let spelled = "from(bucketID: \""@ + db + "\")\n                                            |> range(start: "@
        + "-"@ + decimal(now) + "s"@
        + ")\n                                            |> filter(fn: (r) => r._measurement == \""@ + measurement
        + "\")"@ + "\n                                            |> filter(fn: (r) => r[\"kind\"] == \"PUT\")"@
        + "\n                                            |> last()"@ + "\n                                        "@;
    assert(query_text(db, measurement, None, now) == spelled);
}

/// The query for the values of a measurement between two seconds names both, and asks for all the
/// values of that measurement in between, whatever the clock shows.
pub proof fn law_all_values_between_two_seconds_are_asked_for(
    db: Seq<char>,
    measurement: Seq<char>,
    start: u64,
    stop: u64,
    now: nat,
)
    ensures
        query_text(db, measurement, Some((start, stop)), now) == "from(bucketID: \""@ + db
            + "\")\n                                            |> range(start: "@ + decimal(start as nat)
            + ", stop: "@ + decimal(stop as nat)
            + ")\n                                            |> filter(fn: (r) => r._measurement == \""@ + measurement
            + "\")"@ + "\n                                            |> filter(fn: (r) => r[\"kind\"] == \"PUT\")"@
            + "\n                                        "@,
{
    let spelled = "from(bucketID: \""@ + db + "\")\n                                            |> range(start: "@
        + decimal(start as nat) + ", stop: "@ + decimal(stop as nat)
        + ")\n                                            |> filter(fn: (r) => r._measurement == \""@ + measurement
        + "\")"@ + "\n                                            |> filter(fn: (r) => r[\"kind\"] == \"PUT\")"@
        + "\n                                        "@;
    assert(query_text(db, measurement, Some((start, stop)), now) == spelled);
}

/// The query for marks asks for the last marks of that measurement, of whatever time.
pub proof fn law_marks_of_all_times_are_asked_for(db: Seq<char>, measurement: Seq<char>)
    ensures
        mark_query(db, measurement) == "from(bucketID: \""@ + db
            + "\")\n                                            |> range(start: "@ + "0"@
            + ")\n                                            |> filter(fn: (r) => r._measurement == \""@ + measurement
            + "\")"@ + "\n                                            |> filter(fn: (r) => r[\"kind\"] == \"DELETE\")"@
            + "\n                                            |> last()"@ + "\n                                        "@,
{
    let spelled = "from(bucketID: \""@ + db + "\")\n                                            |> range(start: "@
        + "0"@ + ")\n                                            |> filter(fn: (r) => r._measurement == \""@ + measurement
        + "\")"@ + "\n                                            |> filter(fn: (r) => r[\"kind\"] == \"DELETE\")"@
        + "\n                                            |> last()"@ + "\n                                        "@;
    assert(mark_query(db, measurement) == spelled);
}

/// The step of a query that lets only points of one kind pass.
pub open spec fn kind_step(kind: Seq<char>) -> Seq<char> {
    "\n                                            |> filter(fn: (r) => r[\"kind\"] == \""@ + kind + "\")"@
}

/// Whatever value is put, the queries for values let the point pass that it is stored as; and
/// whatever is deleted, the query for marks lets the mark pass. Neither query lets the other pass.
pub proof fn law_queries_find_what_was_written(
    db: Seq<char>,
    measurement: Seq<char>,
    seconds: Option<(u64, u64)>,
    now: nat,
    value: SampleView,
    timestamp: Timestamp,
) -> (steps: ((Seq<char>, Seq<char>), (Seq<char>, Seq<char>)))
    ensures
        query_text(db, measurement, seconds, now) == steps.0.0 + kind_step(
            put_point(value, timestamp).kind,
        ) + steps.0.1,
        mark_query(db, measurement) == steps.1.0 + kind_step(deletion_point(timestamp).kind)
            + steps.1.1,
        put_point(value, timestamp).kind != deletion_point(timestamp).kind,
{
    reveal_strlit("PUT");
    reveal_strlit("DELETE");
    reveal_strlit("\")");
    reveal_strlit("\n                                            |> filter(fn: (r) => r[\"kind\"] == \"");
    reveal_strlit("\n                                            |> filter(fn: (r) => r[\"kind\"] == \"PUT\")");
    reveal_strlit("\n                                            |> filter(fn: (r) => r[\"kind\"] == \"DELETE\")");
    assert("PUT"@.len() != "DELETE"@.len());
    assert(kind_step("PUT"@) == KIND_FILTER@);
    assert(kind_step("DELETE"@) == MARK_FILTER@);
    let values = law_queries_skip_deletions(db, measurement, seconds, now);
    let marks = (
        source_step(db) + "0"@ + measurement_step(measurement),
        "\n                                            |> last()"@ + QUERY_END@,
    );
    assert(mark_query(db, measurement) == marks.0 + MARK_FILTER@ + marks.1);
    (values, marks)
}

}
