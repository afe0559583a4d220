//! A storage: what it asks of the server, and what it makes of the answers.

use crate::closure::OnClosure;
use crate::config::{db_id, get_db_id};
use crate::error::{Error, ErrorView};
use crate::json::json_of;
use crate::point::{
    base64_fits, base64_text, build_deletion_point, build_put_point, contents, deletion_point, key_view,
    measurement, measurement_of, point_contents, point_of, put_point, readable, stored_bytes,
    stored_data, try_read_points, reads_as, FieldView, SampleValue, SampleView, StoredData,
    ZenohPoint, TEXT_PLAIN,
};
use crate::mark::{is_outdated, outdated, texts};
use crate::plan::Access;
use crate::query::{
    law_the_last_value_is_looked_for_since_1970, mark_query, query_text, write_mark_query, write_query,
};
use crate::text::{chars_of, decimal};
use crate::time::{
    clock_shows, is_clock_reading, law_the_clock_shows_what_it_is_read_at, time_from_parameters,
    time_of_parameters, time_parameter, utc_now,
};
use crate::timestamp::{
    entries_at, is_received, law_receptions_are_stamped_now, law_times_lie_in_their_units,
    milliseconds, nanoseconds, new_reception_timestamp, parsed_timestamp, reread, timestamp_text,
    Timestamp, FRAC_PER_SEC, NANO_PER_SEC,
};
use influxdb2::models::DataPoint;
use vstd::pervasive::unreached;
use vstd::prelude::*;
use vstd::utf8::{decode_utf8, valid_utf8};

verus! {

/// How long after a deletion the measurement is dropped, in milliseconds.
pub const DROP_MEASUREMENT_TIMEOUT_MS: u64 = 5000;

/// The first millisecond, counted from the beginning of 1970, of the calendar of the `chrono` crate.
pub const MIN_MILLIS: i64 = -8_334_632_851_200_000;

/// The last millisecond, counted from the beginning of 1970, of the calendar of the `chrono` crate.
pub const MAX_MILLIS: i64 = 8_210_298_412_799_999;

/// A storage on one database.
pub struct InfluxDbStorage {
    /// The configuration of the storage, with its database in it.
    pub volume_cfg: serde_json::Value,
    /// What is done when the storage is closed.
    pub on_closure: OnClosure,
}

/// What became of a change.
#[derive(Debug, Clone, Copy, PartialEq, Eq, Structural)]
pub enum StorageInsertionResult {
    Outdated,
    Inserted,
    Replaced,
    Deleted,
}

/// A request to write one point.
pub struct WriteRequest {
    /// The database.
    pub db: String,
    /// The point.
    pub point: DataPoint,
}

/// A request to delete the points of a database between two instants, in milliseconds since the
/// beginning of 1970.
pub struct DeleteRequest {
    /// The database.
    pub db: String,
    /// What holds of the points that are to be deleted; all are where it is not given.
    pub predicate: Option<String>,
    /// The first instant.
    pub start: i64,
    /// The last instant.
    pub stop: i64,
}

/// A request to delete points, over mathematical strings.
pub struct DeleteRequestView {
    pub db: Seq<char>,
    pub predicate: Option<Seq<char>>,
    pub start: int,
    pub stop: int,
}

impl View for DeleteRequest {
    type V = DeleteRequestView;

    open spec fn view(&self) -> DeleteRequestView {
        DeleteRequestView {
            db: self.db@,
            predicate: match self.predicate {
                Some(predicate) => Some(predicate@),
                None => None,
            },
            start: self.start as int,
            stop: self.stop as int,
        }
    }
}

/// A measurement that is to be dropped after a while.
pub struct MeasurementDrop {
    /// The measurement.
    pub measurement: String,
    /// How long after now it is to be dropped, in milliseconds.
    pub delay_ms: u64,
}

/// What is done when a storage is closed.
pub enum ClosingAction {
    /// The database is dropped.
    DropDatabase { db: String },
    /// All the points of the database are deleted.
    DeleteAllPoints { request: DeleteRequest },
    /// Nothing: the database is kept.
    Keep { db: String },
}

/// What is done when a storage is closed, over mathematical strings.
pub enum ClosingActionView {
    DropDatabase { db: Seq<char> },
    DeleteAllPoints { request: DeleteRequestView },
    Keep { db: Seq<char> },
}

impl View for ClosingAction {
    type V = ClosingActionView;

    open spec fn view(&self) -> ClosingActionView {
        match self {
            ClosingAction::DropDatabase { db } => ClosingActionView::DropDatabase { db: db@ },
            ClosingAction::DeleteAllPoints { request } => ClosingActionView::DeleteAllPoints {
                request: request@,
            },
            ClosingAction::Keep { db } => ClosingActionView::Keep { db: db@ },
        }
    }
}

impl ClosingAction {
    /// Whose credentials the request of this action is sent with, if it sends one: a database is
    /// dropped with those of the backend, and its points are deleted with those of the storage.
    pub fn access(&self) -> (res: Option<Access>)
        ensures
            res == match self@ {
                ClosingActionView::DropDatabase { .. } => Some(Access::Admin),
                ClosingActionView::DeleteAllPoints { .. } => Some(Access::Storage),
                ClosingActionView::Keep { .. } => None,
            },
    {
        match self {
            ClosingAction::DropDatabase { .. } => Some(Access::Admin),
            ClosingAction::DeleteAllPoints { .. } => Some(Access::Storage),
            ClosingAction::Keep { .. } => None,
        }
    }
}

/// A deletion that is under way: first the points are deleted, then the deletion is recorded, and
/// then the measurement is scheduled to be dropped.
pub struct Deletion {
    /// The database.
    pub db: String,
    /// The measurement.
    pub measurement: String,
    /// The timestamp of the deletion.
    pub timestamp: Timestamp,
}

/// `NaiveDateTime::from_timestamp_millis` finds the date and time of an instant, and finds none
/// outside the calendar; `timestamp_millis` gives the instant back.
#[verifier::external_body]
fn calendar_millis(millis: i64) -> (res: Option<i64>)
    ensures
        res == if MIN_MILLIS <= millis <= MAX_MILLIS {
            Some(millis)
        } else {
            None
        },
{
    chrono::NaiveDateTime::from_timestamp_millis(millis).map(|time| time.timestamp_millis())
}

/// `text` with a backslash before each backslash and each quotation mark.
pub open spec fn escaped(text: Seq<char>) -> Seq<char>
    decreases text.len(),
{
    if text.len() == 0 {
        Seq::empty()
    } else {
        let last = if text.last() == '\\' || text.last() == '"' {
            seq!['\\', text.last()]
        } else {
            seq![text.last()]
        };
        escaped(text.drop_last()) + last
    }
}

/// The predicate that holds of the points of one measurement alone.
pub open spec fn measurement_predicate(measurement: Seq<char>) -> Seq<char> {
    "_measurement=\""@ + escaped(measurement) + "\""@
}

/// Writes the predicate that holds of the points of one measurement alone.
pub fn write_measurement_predicate(measurement: &str) -> (res: String)
    ensures
        res@ == measurement_predicate(measurement@),
{
    let chars = chars_of(measurement);
    let mut res = "_measurement=\"".to_owned();
    let mut i: usize = 0;
    while i < chars.len()
        invariant
            chars@ == measurement@,
            i <= chars@.len(),
            res@ == "_measurement=\""@ + escaped(chars@.take(i as int)),
        decreases chars@.len() - i,
    {
        let ghost next = chars@.take(i + 1);
        let ghost before = res@;
        assert(next.drop_last() == chars@.take(i as int));
        assert(next.last() == chars@[i as int]);
        if chars[i] == '\\' || chars[i] == '"' {
            res.push('\\');
        }
        res.push(chars[i]);
        assert(res@ == "_measurement=\""@ + escaped(next));
        i += 1;
    }
    assert(chars@.take(chars@.len() as int) == chars@);
    res.push_str("\"");
    res
}

/// The action that `on_closure` asks for on the database `db`. Dropping the series deletes all the
/// points, from the earliest instant of the calendar to the latest.
pub open spec fn closing_action(on_closure: OnClosure, db: Seq<char>) -> ClosingActionView {
    match on_closure {
        OnClosure::DropDb => ClosingActionView::DropDatabase { db },
        OnClosure::DropSeries => ClosingActionView::DeleteAllPoints {
            request: DeleteRequestView {
                db,
                predicate: None,
                start: MIN_MILLIS as int,
                stop: MAX_MILLIS as int,
            },
        },
        OnClosure::DoNothing => ClosingActionView::Keep { db },
    }
}

/// Whether `res` is the query for the values of a measurement in the second `now`, where `seconds`
/// is what comes of the time range of the selector.
pub open spec fn asks(
    res: Result<String, Error>,
    db: Seq<char>,
    measurement: Seq<char>,
    seconds: Result<Option<(u64, u64)>, Error>,
    now: nat,
) -> bool {
    match (res, seconds) {
        (Ok(query), Ok(seconds)) => query@ == query_text(db, measurement, seconds, now),
        (Err(e), Err(error)) => e@ == error@,
        _ => false,
    }
}

/// Plans to drop a measurement after a while.
pub fn schedule_measurement_drop(measurement: &str) -> (res: MeasurementDrop)
    ensures
        res.measurement@ == measurement@,
        res.delay_ms == DROP_MEASUREMENT_TIMEOUT_MS,
        res.delay_ms == 5000,
{
    MeasurementDrop {
        measurement: measurement.to_owned(),
        delay_ms: DROP_MEASUREMENT_TIMEOUT_MS,
    }
}

impl InfluxDbStorage {
    /// The query for the marks that deletions left on a key. It is sent before a value is stored, so
    /// that one that is older than a deletion is not introduced again.
    pub fn marks(&self, key: Option<&str>) -> (res: Result<String, Error>)
        ensures
            match (res, db_id(json_of(self.volume_cfg))) {
                (Ok(query), Ok(db)) => query@ == mark_query(db, measurement(key_view(key))),
                (Err(e), Err(error)) => e@ == error,
                _ => false,
            },
    {
        match get_db_id(&self.volume_cfg) {
            Ok(db) => Ok(write_mark_query(db.as_str(), measurement_of(key).as_str())),
            Err(e) => Err(e),
        }
    }

    /// What becomes of a value before it is stored, from the timestamps of the marks that the server
    /// answered with: it is outdated where a mark shows that it was deleted, and is to be stored
    /// otherwise. There are no marks where the query failed.
    pub fn after_marks(
        &self,
        answer: Result<Vec<String>, influxdb2::RequestError>,
        timestamp: Timestamp,
    ) -> (res: Option<StorageInsertionResult>)
        ensures
            res == match answer {
                Ok(marks) => if outdated(texts(marks@), timestamp.time as int) {
                    Some(StorageInsertionResult::Outdated)
                } else {
                    None
                },
                Err(_) => None,
            },
    {
        match answer {
            Ok(marks) => if is_outdated(&marks, timestamp) {
                Some(StorageInsertionResult::Outdated)
            } else {
                None
            },
            Err(_) => None,
        }
    }

    /// The request that stores a value. The bytes of the value can be told from the point.
    ///
    /// A value whose bytes are UTF-8 text is read back from the point with the same bytes, as plain
    /// text, and with a timestamp of the same nanosecond.
    pub fn put(&self, key: Option<&str>, value: SampleValue, timestamp: Timestamp) -> (res: Result<
        WriteRequest,
        Error,
    >)
        requires
            timestamp.valid(),
            valid_utf8(value.payload@) || base64_fits(value.payload@.len()),
        ensures
            match (res, db_id(json_of(self.volume_cfg))) {
                (Ok(request), Ok(db)) => {
                    &&& request.db@ == db
                    &&& point_contents(request.point) == contents(
                        measurement(key_view(key)),
                        put_point(value@, timestamp),
                    )
                    &&& point_contents(request.point).measurement == match key {
                        Some(key) => key@,
                        None => "@@none_key@@"@,
                    }
                    &&& point_contents(request.point).tags == map![
                        "kind"@ => "PUT"@,
                        "ztimestamp"@ => timestamp_text(timestamp.time, timestamp.id),
                    ]
                    &&& point_contents(request.point).fields == map![
                        "encoding_prefix"@ => FieldView::Text(decimal(value.encoding_prefix as nat)),
                        "encoding_suffix"@ => FieldView::Text(value.encoding_suffix@),
                        "base64"@ => FieldView::Flag(!valid_utf8(value.payload@)),
                        "value"@ => FieldView::Text(
                            if valid_utf8(value.payload@) {
                                decode_utf8(value.payload@)
                            } else {
                                base64_text(value.payload@)
                            },
                        ),
                    ]
                    &&& readable(point_of(point_contents(request.point)))
                    &&& stored_bytes(
                        point_of(point_contents(request.point)).base64,
                        point_of(point_contents(request.point)).value,
                    ) == value.payload@
                    &&& valid_utf8(value.payload@) ==> stored_data(
                        point_of(point_contents(request.point)),
                    ) == Some(
                        (
                            SampleView {
                                payload: value.payload@,
                                encoding_prefix: TEXT_PLAIN,
                                encoding_suffix: Seq::empty(),
                            },
                            Timestamp {
                                time: reread(timestamp.time as int) as u64,
                                id: timestamp.id,
                            },
                        ),
                    )
                },
                (Err(e), Err(error)) => e@ == error,
                _ => false,
            },
    {
        match get_db_id(&self.volume_cfg) {
            Ok(db) => {
                let measurement = measurement_of(key);
                let point = build_put_point(measurement.as_str(), value, timestamp);
                Ok(WriteRequest { db, point })
            },
            Err(e) => Err(e),
        }
    }

    /// What became of storing a value, from what the server answered.
    pub fn after_put(&self, key: Option<&str>, answer: Result<(), String>) -> (res: Result<
        StorageInsertionResult,
        Error,
    >)
        ensures
            match answer {
                Ok(_) => res == Ok::<StorageInsertionResult, Error>(
                    StorageInsertionResult::Inserted,
                ),
                Err(cause) => res matches Err(e) && e@ == (ErrorView::Put {
                    measurement: measurement(key_view(key)),
                    cause: cause@,
                }),
            },
    {
        match answer {
            Ok(_) => Ok(StorageInsertionResult::Inserted),
            Err(cause) => Err(Error::Put { measurement: measurement_of(key), cause }),
        }
    }

    /// Begins a deletion.
    pub fn delete(&self, key: Option<&str>, timestamp: Timestamp) -> (res: Result<Deletion, Error>)
        ensures
            match (res, db_id(json_of(self.volume_cfg))) {
                (Ok(deletion), Ok(db)) => {
                    &&& deletion.db@ == db
                    &&& deletion.measurement@ == measurement(key_view(key))
                    &&& deletion.timestamp == timestamp
                },
                (Err(e), Err(error)) => e@ == error,
                _ => false,
            },
    {
        match get_db_id(&self.volume_cfg) {
            Ok(db) => Ok(Deletion { db, measurement: measurement_of(key), timestamp }),
            Err(e) => Err(e),
        }
    }

    /// The query for the values of a key. The parameters of the selector may hold a time range, in
    /// which all the values are asked for; otherwise the last one is.
    pub fn get(&self, key: Option<&str>, parameters: &str) -> (res: Result<String, Error>)
        ensures
            match db_id(json_of(self.volume_cfg)) {
                Ok(db) => exists|seconds: Result<Option<(u64, u64)>, Error>, now: nat|
                    is_clock_reading(now as int) && time_of_parameters(seconds, parameters@) && #[trigger] asks(
                        res,
                        db,
                        measurement(key_view(key)),
                        seconds,
                        now,
                    ),
                Err(error) => res matches Err(e) && e@ == error,
            },
            db_id(json_of(self.volume_cfg)) is Ok ==> exists|
                seconds: Result<Option<(u64, u64)>, Error>,
                now: i64,
            | #[trigger]
                call_ensures(time_from_parameters, (parameters,), seconds) && #[trigger]
                clock_shows(now) && is_clock_reading(now as int) && asks(
                    res,
                    db_id(json_of(self.volume_cfg))->Ok_0,
                    measurement(key_view(key)),
                    seconds,
                    now as nat,
                ),
    {
        let db = match get_db_id(&self.volume_cfg) {
            Ok(db) => db,
            Err(e) => return Err(e),
        };
        let measurement = measurement_of(key);
        let now: i64 = utc_now();
        let seconds = time_from_parameters(parameters);
        let ghost outcome = seconds;
        assert(call_ensures(time_from_parameters, (parameters,), outcome));
        proof {
            law_the_clock_shows_what_it_is_read_at(now);
        }
        let res = match seconds {
            Ok(seconds) => Ok(
                write_query(db.as_str(), measurement.as_str(), seconds, now as u64),
            ),
            Err(e) => Err(e),
        };
        assert(asks(res, db@, measurement@, outcome, now as nat));
        res
    }

    /// The values in the points that the server answered with, in order. There are none where the
    /// query failed, and no result where the timestamp of a point cannot be read.
    pub fn after_get(&self, answer: Result<Vec<ZenohPoint>, influxdb2::RequestError>) -> (res:
        Option<Vec<StoredData>>)
        ensures
            match (res, answer) {
                (Some(values), Ok(points)) => {
                    &&& values@.len() == points@.len()
                    &&& forall|i: int|
                        0 <= i < points@.len() ==> {
                            &&& readable(#[trigger] points@[i]@)
                            &&& stored_data(points@[i]@) == Some(values@[i]@)
                        }
                    &&& forall|i: int|
                        0 <= i < points@.len() ==> reads_as(points@[i], #[trigger] values@[i])
                },
                (None, Ok(points)) => exists|i: int|
                    0 <= i < points@.len() && !readable(#[trigger] points@[i]@),
                (_, Err(_)) => res matches Some(values) && values@.len() == 0,
            },
    {
        match answer {
            Ok(points) => try_read_points(&points),
            Err(_) => Some(Vec::new()),
        }
    }

    /// The keys that the storage has values for, with their timestamps. Only the key of the storage
    /// itself is known, with the current instant.
    pub fn get_all_entries(&self) -> (res: Result<Vec<(Option<String>, Timestamp)>, Error>)
        ensures
            res matches Ok(entries) && entries@.len() == 1 && entries@[0].0 is None
                && entries@[0].1.id == 1 && is_received(entries@[0].1),
    {
        let now = new_reception_timestamp();
        proof {
            law_receptions_are_stamped_now(now);
        }
        Ok(entries_at(now))
    }

    /// What is done when the storage is closed.
    pub fn close(&self) -> (res: Result<ClosingAction, Error>)
        ensures
            match (res, db_id(json_of(self.volume_cfg))) {
                (Ok(action), Ok(db)) => {
                    &&& action@ == closing_action(self.on_closure, db)
                    &&& self.on_closure is DropDb <==> action is DropDatabase
                    &&& self.on_closure is DropSeries <==> action is DeleteAllPoints
                    &&& self.on_closure is DoNothing <==> action is Keep
                    &&& match action {
                        ClosingAction::DropDatabase { db: dropped } => dropped@ == db,
                        ClosingAction::DeleteAllPoints { request } => {
                            &&& request.db@ == db
                            &&& request.predicate is None
                            &&& request.start == -8_334_632_851_200_000
                            &&& request.stop == 8_210_298_412_799_999
                        },
                        ClosingAction::Keep { db: kept } => kept@ == db,
                    }
                },
                (Err(e), Err(error)) => e@ == error,
                _ => false,
            },
    {
        match get_db_id(&self.volume_cfg) {
            Ok(db) => Ok(
                match self.on_closure {
                    OnClosure::DropDb => ClosingAction::DropDatabase { db },
                    OnClosure::DropSeries => ClosingAction::DeleteAllPoints {
                        request: DeleteRequest {
                            db,
                            predicate: None,
                            start: MIN_MILLIS,
                            stop: MAX_MILLIS,
                        },
                    },
                    OnClosure::DoNothing => ClosingAction::Keep { db },
                },
            ),
            Err(e) => Err(e),
        }
    }
}

impl Deletion {
    /// The request that deletes the points of the measurement that are older than the deletion:
    /// those from the beginning of 1970 on, up to the millisecond of the deletion.
    pub fn request(&self) -> (res: DeleteRequest)
        ensures
            res@ == (DeleteRequestView {
                db: self.db@,
                predicate: Some(measurement_predicate(self.measurement@)),
                start: 0,
                stop: milliseconds(self.timestamp.time as int),
            }),
            res.start == 0,
            res.stop == self.timestamp.time * 1000 / 0x1_0000_0000,
            res.predicate matches Some(predicate) && predicate@ == "_measurement=\""@ + escaped(
                self.measurement@,
            ) + "\""@,
    {
        proof {
            law_times_lie_in_their_units(self.timestamp.time);
        }
        let secs: u64 = self.timestamp.time / FRAC_PER_SEC;
        let nanos: u64 = (self.timestamp.time % FRAC_PER_SEC) * NANO_PER_SEC / FRAC_PER_SEC;
        assert(nanos == nanoseconds(self.timestamp.time as int));
        assert(nanos < 1_000_000_000);
        let millis: u64 = secs * 1000 + nanos / 1_000_000;
        match (calendar_millis(0), calendar_millis(millis as i64)) {
            (Some(start), Some(stop)) => DeleteRequest {
                db: self.db.clone(),
                predicate: Some(write_measurement_predicate(self.measurement.as_str())),
                start,
                stop,
            },
            _ => unreached(),
        }
    }

    /// The request that records the deletion, once the points are deleted.
    pub fn after_points(&self, answer: Result<(), String>) -> (res: Result<WriteRequest, Error>)
        requires
            self.timestamp.valid(),
        ensures
            match answer {
                Ok(_) => {
                    &&& res matches Ok(request)
                    &&& request.db@ == self.db@
                    &&& point_contents(request.point) == contents(
                        self.measurement@,
                        deletion_point(self.timestamp),
                    )
                    &&& point_contents(request.point).measurement == self.measurement@
                    &&& point_contents(request.point).tags == map![
                        "kind"@ => "DELETE"@,
                        "ztimestamp"@ => timestamp_text(self.timestamp.time, self.timestamp.id),
                    ]
                    &&& point_contents(request.point).fields == map![
                        "encoding_prefix"@ => FieldView::Text(Seq::empty()),
                        "encoding_suffix"@ => FieldView::Text(Seq::empty()),
                        "base64"@ => FieldView::Flag(false),
                        "value"@ => FieldView::Text(Seq::empty()),
                    ]
                    &&& readable(point_of(point_contents(request.point)))
                    &&& parsed_timestamp(point_of(point_contents(request.point)).ztimestamp)
                        == Some((reread(self.timestamp.time as int) as u64, self.timestamp.id))
                },
                Err(cause) => res matches Err(e) && e@ == (ErrorView::DeletePoints {
                    measurement: self.measurement@,
                    cause: cause@,
                }),
            },
    {
        match answer {
            Ok(_) => Ok(
                WriteRequest {
                    db: self.db.clone(),
                    point: build_deletion_point(self.measurement.as_str(), self.timestamp),
                },
            ),
            Err(cause) => Err(
                Error::DeletePoints { measurement: self.measurement.clone(), cause },
            ),
        }
    }

    /// The end of the deletion, once it is recorded: the measurement is scheduled to be dropped.
    pub fn after_mark(&self, answer: Result<(), String>) -> (res: Result<
        (MeasurementDrop, StorageInsertionResult),
        Error,
    >)
        ensures
            match answer {
                Ok(_) => {
                    &&& res matches Ok((drop, outcome))
                    &&& drop.measurement@ == self.measurement@
                    &&& drop.delay_ms == DROP_MEASUREMENT_TIMEOUT_MS
                    &&& drop.delay_ms == 5000
                    &&& outcome == StorageInsertionResult::Deleted
                },
                Err(cause) => res matches Err(e) && e@ == (ErrorView::MarkDeleted {
                    measurement: self.measurement@,
                    cause: cause@,
                }),
            },
    {
        match answer {
            Ok(_) => Ok(
                (
                    schedule_measurement_drop(self.measurement.as_str()),
                    StorageInsertionResult::Deleted,
                ),
            ),
            Err(cause) => Err(
                Error::MarkDeleted { measurement: self.measurement.clone(), cause },
            ),
        }
    }
}

/// Escaping loses nothing: texts that differ are escaped to texts that differ.
proof fn lemma_escaped_keeps_apart(one: Seq<char>, other: Seq<char>)
    requires
        escaped(one) == escaped(other),
    ensures
        one == other,
    decreases one.len(),
{
    if one.len() > 0 && other.len() > 0 {
        lemma_escaped_end(one);
        lemma_escaped_end(other);
        let whole = escaped(one);
        let one_rest = escaped(one.drop_last());
        let other_rest = escaped(other.drop_last());
        assert(whole.last() == one.last() && whole.last() == other.last());
        assert(one_rest == whole.take(one_rest.len() as int));
        assert(other_rest == whole.take(other_rest.len() as int));
        lemma_escaped_keeps_apart(one.drop_last(), other.drop_last());
        assert(one == one.drop_last().push(one.last()));
        assert(other == other.drop_last().push(other.last()));
    } else if one.len() > 0 {
        lemma_escaped_end(one);
    } else if other.len() > 0 {
        lemma_escaped_end(other);
    }
}

/// The last character of an escaped text is that of the text, and what it adds is known from it.
proof fn lemma_escaped_end(text: Seq<char>)
    requires
        text.len() > 0,
    ensures
        escaped(text).len() > 0,
        escaped(text).last() == text.last(),
        escaped(text).len() == escaped(text.drop_last()).len() + if text.last() == '\\'
            || text.last() == '"' {
            2int
        } else {
            1int
        },
{
}

/// A deletion asks for the points of its own measurement: requests that ask for the same points are
/// for the same measurement.
pub proof fn law_predicates_keep_measurements_apart(one: Seq<char>, other: Seq<char>)
    requires
        measurement_predicate(one) == measurement_predicate(other),
    ensures
        one == other,
{
    let head = "_measurement=\""@.len() as int;
    reveal_strlit("\"");
    let whole = measurement_predicate(one);
    assert(whole.subrange(head, whole.len() - 1) == escaped(one));
    assert(whole.subrange(head, whole.len() - 1) == escaped(other));
    lemma_escaped_keeps_apart(one, other);
}

/// A predicate names its measurement between quotation marks. What is escaped is escaped character by
/// character, and only backslashes and quotation marks are.
pub proof fn law_predicates_name_their_measurement(
    measurement: Seq<char>,
    left: Seq<char>,
    right: Seq<char>,
    c: char,
)
    ensures
        measurement_predicate(measurement) == "_measurement=\""@ + escaped(measurement) + "\""@,
        escaped(left + right) == escaped(left) + escaped(right),
        escaped(seq![c]) == if c == '\\' || c == '"' {
            seq!['\\', c]
        } else {
            seq![c]
        },
        escaped(Seq::empty()) == Seq::<char>::empty(),
    decreases right.len(),
{
    if right.len() > 0 {
        law_predicates_name_their_measurement(measurement, left, right.drop_last(), c);
        assert((left + right).drop_last() == left + right.drop_last());
        assert((left + right).last() == right.last());
    } else {
        assert(left + right == left);
    }
    assert(seq![c].drop_last() == Seq::<char>::empty());
    assert(escaped(seq![c].drop_last()) == Seq::<char>::empty());
}

/// Closing does the same to every database: dropping the database drops that one, dropping the
/// series deletes every point of that one, from the earliest instant to the latest, and only doing
/// nothing keeps it.
pub proof fn law_closing_treats_all_databases_alike(db: Seq<char>)
    ensures
        closing_action(OnClosure::DropDb, db) == (ClosingActionView::DropDatabase { db }),
        closing_action(OnClosure::DropSeries, db) == (ClosingActionView::DeleteAllPoints {
            request: DeleteRequestView {
                db,
                predicate: None,
                start: -8_334_632_851_200_000,
                stop: 8_210_298_412_799_999,
            },
        }),
        closing_action(OnClosure::DoNothing, db) == (ClosingActionView::Keep { db }),
{
}

/// What is asked of the server is the query with the seconds of the selector, and an error of the
/// selector is handed on.
pub proof fn law_queries_hold_the_seconds_of_the_selector(
    query: String,
    error: Error,
    other: Error,
    db: Seq<char>,
    measurement: Seq<char>,
    seconds: Option<(u64, u64)>,
    now: nat,
)
    ensures
        asks(Ok(query), db, measurement, Ok(seconds), now) <==> query@ == query_text(
            db,
            measurement,
            seconds,
            now,
        ),
        asks(Err(error), db, measurement, Err(other), now) <==> error@ == other@,
        !asks(Ok(query), db, measurement, Err(other), now),
        !asks(Err(error), db, measurement, Ok(seconds), now),
{
}

/// Requests and actions are viewed with all their parts.
pub proof fn law_requests_are_viewed_whole(request: DeleteRequest, db: String)
    ensures
        request@.db == request.db@,
        request.predicate is None ==> request@.predicate is None,
        request.predicate matches Some(predicate) ==> request@.predicate == Some(predicate@),
        request@.start == request.start,
        request@.stop == request.stop,
        (ClosingAction::DropDatabase { db })@ == (ClosingActionView::DropDatabase { db: db@ }),
        (ClosingAction::DeleteAllPoints { request })@ == (ClosingActionView::DeleteAllPoints {
            request: request@,
        }),
        (ClosingAction::Keep { db })@ == (ClosingActionView::Keep { db: db@ }),
{
}

/// Whatever a get without a time range returned, it was the query for the last value since 1970: it
/// looks back over as many seconds as the clock showed when it was called.
pub proof fn law_a_get_without_a_range_looks_back_to_1970(
    storage: &InfluxDbStorage,
    key: Option<&str>,
    parameters: &str,
    res: Result<String, Error>,
    db: Seq<char>,
)
    requires
        call_ensures(InfluxDbStorage::get, (storage, key, parameters), res),
        db_id(json_of(storage.volume_cfg)) == Ok::<Seq<char>, ErrorView>(db),
        time_parameter(parameters@) == Ok::<Option<Seq<char>>, ()>(None),
    ensures
        res is Ok,
        exists|now: i64| #[trigger]
            clock_shows(now) && res->Ok_0@ == "from(bucketID: \""@ + db
                + "\")\n                                            |> range(start: "@ + "-"@ + decimal(now as nat) + "s"@
                + ")\n                                            |> filter(fn: (r) => r._measurement == \""@
                + measurement(key_view(key)) + "\")"@
                + "\n                                            |> filter(fn: (r) => r[\"kind\"] == \"PUT\")"@
                + "\n                                            |> last()"@ + "\n                                        "@,
{
    let (seconds, now) = choose|seconds: Result<Option<(u64, u64)>, Error>, now: i64|
        #![trigger call_ensures(time_from_parameters, (parameters,), seconds), clock_shows(now)]
        call_ensures(time_from_parameters, (parameters,), seconds) && clock_shows(now)
            && is_clock_reading(now as int) && asks(
            res,
            db,
            measurement(key_view(key)),
            seconds,
            now as nat,
        );
    assert(seconds == Ok::<Option<(u64, u64)>, Error>(None));
    assert(clock_shows(now));
    law_the_last_value_is_looked_for_since_1970(db, measurement(key_view(key)), now as nat);
}

}
