//! Time ranges of selectors: how they are read, and which seconds they stand for.

use crate::error::{Error, ErrorView};
use crate::offset::{addable, law_same_offsets_act_the_same, Offset};
use crate::text::{chars_of, push_chars};
use std::time::UNIX_EPOCH;
use vstd::prelude::*;
use zenoh::selector::{
    Parameters, TimeBound as ZenohTimeBound, TimeExpr as ZenohTimeExpr,
    TimeRange as ZenohTimeRange, TIME_RANGE_KEY,
};

verus! {

/// The last second that the clock can show, counted from the beginning of 1970: the last one of the
/// calendar of the `chrono` crate.
pub const LAST_CLOCK_SECOND: i64 = 8_210_298_412_799;

/// Whether the clock can show the second `now`.
pub open spec fn is_clock_reading(now: int) -> bool {
    0 <= now <= LAST_CLOCK_SECOND
}

/// An instant.
#[derive(Debug, Clone, Copy, PartialEq, Eq, Structural)]
pub enum TimeExpr {
    /// So many seconds and nanoseconds after the beginning of 1970.
    Fixed { secs: u64, nanos: u32 },
    /// So many seconds after the instant at which the expression is evaluated.
    Now { offset: Offset },
}

/// A bound of a time range.
#[derive(Debug, Clone, Copy, PartialEq, Eq, Structural)]
pub enum TimeBound {
    /// The range reaches up to this instant, and holds it.
    Inclusive(TimeExpr),
    /// The range reaches up to this instant, and does not hold it.
    Exclusive(TimeExpr),
    /// The range does not end.
    Unbounded,
}

/// A time range, by its two bounds.
#[derive(Debug, Clone, Copy, PartialEq, Eq, Structural)]
pub struct TimeRange {
    pub start: TimeBound,
    pub stop: TimeBound,
}

impl TimeExpr {
    /// Whether two instants are the same.
    pub open spec fn same(self, other: TimeExpr) -> bool {
        match (self, other) {
            (TimeExpr::Now { offset: one }, TimeExpr::Now { offset: two }) => one.same(two),
            _ => self == other,
        }
    }
}

impl TimeBound {
    /// Whether two bounds are the same.
    pub open spec fn same(self, other: TimeBound) -> bool {
        match (self, other) {
            (TimeBound::Inclusive(one), TimeBound::Inclusive(two)) => one.same(two),
            (TimeBound::Exclusive(one), TimeBound::Exclusive(two)) => one.same(two),
            _ => self == other,
        }
    }
}

impl TimeRange {
    /// Whether two ranges are the same.
    pub open spec fn same(self, other: TimeRange) -> bool {
        self.start.same(other.start) && self.stop.same(other.stop)
    }
}

/// Whether `found` is the time range `expected`, or there is none of either.
pub open spec fn same_reading(found: Option<TimeRange>, expected: Option<TimeRange>) -> bool {
    match (found, expected) {
        (Some(found), Some(expected)) => found.same(expected),
        (None, None) => true,
        _ => false,
    }
}

/// The second that `tx` stands for when it is evaluated in the second `now`. An instant counts as the
/// second that it lies in, and an offset is cut towards zero to whole seconds.
pub open spec fn time_at(tx: TimeExpr, now: int) -> int {
    match tx {
        TimeExpr::Fixed { secs, .. } => secs as int,
        TimeExpr::Now { offset } => now + offset.whole(),
    }
}

/// Whether `tx` can be evaluated in the second `now`: a relative instant must not be before 1970,
/// and must be a number of seconds that the clock can show.
pub open spec fn evaluable(tx: TimeExpr, now: int) -> bool {
    tx is Now ==> 0 <= time_at(tx, now) <= i64::MAX
}

/// Whether `bound` can be evaluated in the second `now`.
pub open spec fn bound_evaluable(bound: TimeBound, now: int) -> bool {
    match bound {
        TimeBound::Inclusive(tx) => evaluable(tx, now),
        TimeBound::Exclusive(tx) => evaluable(tx, now),
        TimeBound::Unbounded => true,
    }
}

/// The second at which `bound` stands when it is evaluated in the second `now`, or `default` where
/// it does not bound anything.
pub open spec fn bound_at(bound: TimeBound, now: int, default: int) -> int {
    match bound {
        TimeBound::Inclusive(tx) => time_at(tx, now),
        TimeBound::Exclusive(tx) => time_at(tx, now),
        TimeBound::Unbounded => default,
    }
}

/// Whether `part` stands in `text` at the index `i`.
pub open spec fn stands(text: Seq<char>, part: Seq<char>, i: int) -> bool {
    0 <= i <= text.len() - part.len() && text.subrange(i, i + part.len()) == part
}

/// Whether `part` stands in `text` at the index `i`, and nowhere before.
pub open spec fn first_at(text: Seq<char>, part: Seq<char>, i: int) -> bool {
    stands(text, part, i) && forall|j: int| 0 <= j < i ==> !#[trigger] stands(text, part, j)
}

/// The first index at which `part` stands in `text`.
pub open spec fn find(text: Seq<char>, part: Seq<char>) -> Option<int> {
    if exists|i: int| first_at(text, part, i) {
        Some(choose|i: int| first_at(text, part, i))
    } else {
        None
    }
}

/// Whether `bound` is an offset that consists of a unit without a number.
pub open spec fn is_lone_unit(bound: Seq<char>) -> bool {
    bound == "now(s)"@ || bound == "now(-s)"@
}

/// The time range that ends at `bound`.
pub open spec fn range_up_to(bound: Seq<char>) -> Seq<char> {
    "[.."@ + bound + "]"@
}

/// The time range that ends `duration` after now.
pub open spec fn range_for(duration: Seq<char>) -> Seq<char> {
    "[now();"@ + duration + "]"@
}

/// Whether `bound` is read as a bound of a time range.
pub open spec fn bound_read(bound: Seq<char>) -> bool {
    bound.len() == 0 || parsed_time_range(range_up_to(bound)) is Some
}

/// The second of the fixed instant that `bound` is read as.
pub open spec fn fixed_second(bound: Seq<char>) -> Option<u64> {
    match parsed_time_range(range_up_to(bound)) {
        Some(TimeRange { start: _, stop: TimeBound::Inclusive(TimeExpr::Fixed { secs, .. }) }) => {
            Some(secs)
        },
        _ => None,
    }
}

/// The number of seconds that `duration` is read as.
pub open spec fn duration_read(duration: Seq<char>) -> Option<Offset> {
    match parsed_time_range(range_for(duration)) {
        Some(TimeRange { start: _, stop: TimeBound::Inclusive(TimeExpr::Now { offset }) }) => {
            Some(offset)
        },
        _ => None,
    }
}

/// Whether `bound` is written as an offset from now.
pub open spec fn is_relative(bound: Seq<char>) -> bool {
    stands(bound, "now("@, 0)
}

/// Whether a time range from `start` to `stop` stops its reader: a bound that it gets to is a unit
/// without a number.
pub open spec fn bounds_stop_reader(start: Seq<char>, stop: Seq<char>) -> bool {
    is_lone_unit(start) || bound_read(start) && is_lone_unit(stop)
}

/// Whether a time range from `start` on for `duration` stops its reader: what it gets to is a unit
/// without a number, or the duration cannot be added to the fixed instant at the start.
pub open spec fn sum_stops_reader(start: Seq<char>, duration: Seq<char>) -> bool {
    ||| is_lone_unit(start)
    ||| bound_read(start) && duration == "s"@
    ||| !is_relative(start) && match (fixed_second(start), duration_read(duration)) {
        (Some(secs), Some(offset)) => duration != "s"@ && !addable(secs, offset),
        _ => false,
    }
}

/// Whether the time range `text` stops its reader, which neither reads it nor reports an error then.
pub open spec fn stops_reader(text: Seq<char>) -> bool {
    let inner = text.subrange(1, text.len() - 1);
    &&& text.len() >= 2
    &&& text[0] == '[' || text[0] == ']'
    &&& text.last() == '[' || text.last() == ']'
    &&& match (find(inner, ".."@), find(inner, ";"@)) {
        (Some(i), _) => bounds_stop_reader(inner.take(i), inner.skip(i + 2)),
        (None, Some(i)) => sum_stops_reader(inner.take(i), inner.skip(i + 1)),
        (None, None) => false,
    }
}

/// The value of the parameter `_time` among the parameters of a selector, as
/// `Parameters::get_parameters` decodes it. There is an error where the parameter is given twice.
pub uninterp spec fn time_parameter(parameters: Seq<char>) -> Result<Option<Seq<char>>, ()>;

/// The time range that `TimeRange::from_str` reads in a text.
pub uninterp spec fn parsed_time_range(text: Seq<char>) -> Option<TimeRange>;

/// `Parameters::get_parameters` decodes the parameters of a selector and returns the value of the
/// one that is asked for, if it is there. It fails where it is there twice; nothing is said of the
/// text of that error, which holds the place in the code where it was made.
#[verifier::external_body]
fn get_time_parameter(parameters: &str) -> (res: Result<Option<String>, String>)
    ensures
        match (res, time_parameter(parameters@)) {
            (Ok(Some(value)), Ok(Some(text))) => value@ == text,
            (Ok(None), Ok(None)) => true,
            (Err(_), Err(_)) => true,
            _ => false,
        },
{
    match parameters.get_parameters([TIME_RANGE_KEY]) {
        Ok(values) => Ok(values[0].as_ref().map(|value| value.to_string())),
        Err(e) => Err(e.to_string()),
    }
}

/// `TimeRange::from_str` reads a time range. It panics on one that stops its reader, in the sense of
/// `stops_reader`, and on no other: where it is to read a duration that is just `s`, and where it is
/// to add to a fixed instant a duration that is negative, no number, or too long for a `SystemTime`.
/// Nothing is said of the text of its errors, which holds the place in the code where they were made.
///
/// An instant that it reads is not before 1970. Here an instant is taken apart into seconds and
/// nanoseconds, and an offset is taken by its bits. Where arithmetic gives an offset that is no
/// number, nothing is said of the bits that show so.
///
/// This is so on 64-bit platforms whose `SystemTime` counts seconds in 64 bits.
#[verifier::external_body]
fn parse_time_range(text: &str) -> (res: Result<TimeRange, String>)
    requires
        !stops_reader(text@),
    ensures
        match (res, parsed_time_range(text@)) {
            (Ok(range), Some(expected)) => range.same(expected),
            (Err(_), None) => true,
            _ => false,
        },
{
    let instant = |tx| match tx {
        ZenohTimeExpr::Fixed(t) => {
            let since = t.duration_since(UNIX_EPOCH).unwrap();
            TimeExpr::Fixed { secs: since.as_secs(), nanos: since.subsec_nanos() }
        },
        ZenohTimeExpr::Now { offset_secs: s } => TimeExpr::Now { offset: Offset { bits: s.to_bits() } },
    };
    let bound = |bound| match bound {
        ZenohTimeBound::Inclusive(tx) => TimeBound::Inclusive(instant(tx)),
        ZenohTimeBound::Exclusive(tx) => TimeBound::Exclusive(instant(tx)),
        ZenohTimeBound::Unbounded => TimeBound::Unbounded,
    };
    let parsed: Result<ZenohTimeRange, _> = text.parse();
    parsed.map(|r| TimeRange { start: bound(r.0), stop: bound(r.1) }).map_err(|e| e.to_string())
}

/// `Utc::now` reads the system clock, and `timestamp` gives the whole seconds since the beginning
/// of 1970. A clock that stands before 1970, or after the end of the calendar, makes it panic.
#[verifier::external_body]
pub(crate) fn utc_now() -> (res: i64)
    ensures
        is_clock_reading(res as int),
{
    chrono::Utc::now().naive_utc().timestamp()
}

/// Whether `now` is what a reading of the clock gave.
pub closed spec fn clock_shows(now: i64) -> bool {
    call_ensures(utc_now, (), now)
}

/// The only first index is the one that is found.
proof fn lemma_found(text: Seq<char>, part: Seq<char>, i: int)
    requires
        first_at(text, part, i),
    ensures
        find(text, part) == Some(i),
{
    let found = choose|k: int| first_at(text, part, k);
    assert(first_at(text, part, found));
    if found < i {
        assert(!stands(text, part, found));
    } else if i < found {
        assert(!stands(text, part, i));
    }
}

/// The first index at which `part` stands in `text`.
fn find_part(text: &Vec<char>, part: &str) -> (res: Option<usize>)
    ensures
        match res {
            Some(i) => {
                &&& first_at(text@, part@, i as int)
                &&& find(text@, part@) == Some(i as int)
            },
            None => find(text@, part@) is None,
        },
        res is None ==> forall|i: int| !stands(text@, part@, i),
{
    let part_chars = chars_of(part);
    if text.len() < part_chars.len() {
        return None;
    }
    let last: usize = text.len() - part_chars.len();
    let mut i: usize = 0;
    loop
        invariant
            part_chars@ == part@,
            last == text@.len() - part@.len(),
            i <= last,
            forall|k: int| 0 <= k < i ==> !#[trigger] stands(text@, part@, k),
        decreases last - i,
    {
        if stands_at(text, &part_chars, i) {
            proof {
                assert(stands(text@, part@, i as int));
                lemma_found(text@, part@, i as int);
            }
            return Some(i);
        }
        if i == last {
            return None;
        }
        i += 1;
    }
}

/// Whether `part` stands in `text` at the index `start`.
fn stands_at(text: &Vec<char>, part: &Vec<char>, start: usize) -> (res: bool)
    requires
        start + part@.len() <= text@.len(),
    ensures
        res == (text@.subrange(start as int, start + part@.len()) == part@),
{
    let ghost there = text@.subrange(start as int, start + part@.len());
    let end: usize = text.len();
    let mut i: usize = 0;
    while i < part.len()
        invariant
            end == text@.len(),
            start + part@.len() <= end,
            there == text@.subrange(start as int, start + part@.len()),
            i <= part@.len(),
            forall|k: int| 0 <= k < i ==> there[k] == part@[k],
        decreases part@.len() - i,
    {
        if text[start + i] != part[i] {
            assert(there[i as int] != part@[i as int]);
            return false;
        }
        i += 1;
    }
    assert(there == part@);
    true
}

/// The characters of `text` from the index `start` on, up to the index `end`.
fn part_of(text: &Vec<char>, start: usize, end: usize) -> (res: Vec<char>)
    requires
        start <= end <= text@.len(),
    ensures
        res@ == text@.subrange(start as int, end as int),
{
    let mut res: Vec<char> = Vec::new();
    let mut i: usize = start;
    while i < end
        invariant
            start <= i <= end <= text@.len(),
            res@ == text@.subrange(start as int, i as int),
        decreases end - i,
    {
        res.push(text[i]);
        i += 1;
    }
    res
}

/// Whether `text` reads exactly `word`.
fn reads(text: &Vec<char>, word: &str) -> (res: bool)
    ensures
        res == (text@ == word@),
{
    let word_chars = chars_of(word);
    if text.len() != word_chars.len() {
        return false;
    }
    assert(text@.subrange(0, text@.len() as int) == text@);
    stands_at(text, &word_chars, 0)
}

/// Whether `bound` is an offset that consists of a unit without a number.
fn has_lone_unit(bound: &Vec<char>) -> (res: bool)
    ensures
        res == is_lone_unit(bound@),
{
    reads(bound, "now(s)") || reads(bound, "now(-s)")
}

/// The reader reaches the end of a range up to a bound that is no unit without a number.
proof fn lemma_range_up_to_is_safe(bound: Seq<char>)
    requires
        !is_lone_unit(bound),
    ensures
        !stops_reader(range_up_to(bound)),
{
    reveal_strlit("[..");
    reveal_strlit("]");
    reveal_strlit("..");
    reveal_strlit("now(s)");
    reveal_strlit("now(-s)");
    let text = range_up_to(bound);
    let inner = text.subrange(1, text.len() - 1);
    assert(inner == ".."@ + bound);
    assert(inner.subrange(0, 2) == ".."@);
    assert(first_at(inner, ".."@, 0));
    lemma_found(inner, ".."@, 0);
    assert(inner.skip(2) == bound);
    assert(inner.take(0).len() == 0);
}

/// The reader reaches the end of a range that ends a duration after now.
proof fn lemma_range_for_is_safe(duration: Seq<char>)
    requires
        duration != "s"@,
        forall|i: int| !stands(duration, ".."@, i),
    ensures
        !stops_reader(range_for(duration)),
{
    reveal_strlit("[now();");
    reveal_strlit("]");
    reveal_strlit("..");
    reveal_strlit(";");
    reveal_strlit("now(");
    reveal_strlit("now(s)");
    reveal_strlit("now(-s)");
    let text = range_for(duration);
    let inner = text.subrange(1, text.len() - 1);
    assert(inner.skip(6) == duration);
    assert forall|i: int| !stands(inner, ".."@, i) by {
        if stands(inner, ".."@, i) {
            let pair = inner.subrange(i, i + 2);
            assert(pair[0] == '.' && pair[1] == '.');
            assert(inner[i] == '.');
            assert(i >= 6);
            assert(duration.subrange(i - 6, i - 4) == pair);
            assert(stands(duration, ".."@, i - 6));
        }
    }
    assert(find(inner, ".."@) is None);
    assert(inner.subrange(5, 6) == ";"@);
    assert forall|j: int| 0 <= j < 5 implies !stands(inner, ";"@, j) by {
        assert(inner.subrange(j, j + 1)[0] == inner[j]);
    }
    assert(first_at(inner, ";"@, 5));
    lemma_found(inner, ";"@, 5);
    let start = inner.take(5);
    assert(start.len() == 5);
    assert(start.subrange(0, 4) == "now("@);
    assert(is_relative(start));
}

/// What the reader makes of a range that ends at `bound`.
fn parse_range_up_to(bound: &Vec<char>) -> (res: Option<TimeRange>)
    requires
        !is_lone_unit(bound@),
    ensures
        same_reading(res, parsed_time_range(range_up_to(bound@))),
{
    let mut text = "[..".to_owned();
    push_chars(&mut text, bound);
    text.push_str("]");
    assert(text@ == range_up_to(bound@));
    proof {
        lemma_range_up_to_is_safe(bound@);
    }
    match parse_time_range(text.as_str()) {
        Ok(range) => Some(range),
        Err(_) => None,
    }
}

/// What the reader makes of a range that ends `duration` after now.
fn parse_range_for(duration: &Vec<char>) -> (res: Option<TimeRange>)
    requires
        duration@ != "s"@,
        forall|i: int| !stands(duration@, ".."@, i),
    ensures
        same_reading(res, parsed_time_range(range_for(duration@))),
{
    let mut text = "[now();".to_owned();
    push_chars(&mut text, duration);
    text.push_str("]");
    assert(text@ == range_for(duration@));
    proof {
        lemma_range_for_is_safe(duration@);
    }
    match parse_time_range(text.as_str()) {
        Ok(range) => Some(range),
        Err(_) => None,
    }
}

/// Whether a time range from `start` to `stop` stops its reader.
fn do_bounds_stop_reader(start: &Vec<char>, stop: &Vec<char>) -> (res: bool)
    ensures
        res == bounds_stop_reader(start@, stop@),
{
    if has_lone_unit(start) {
        return true;
    }
    has_lone_unit(stop) && (start.len() == 0 || parse_range_up_to(start).is_some())
}

/// Whether a time range from `start` on for `duration` stops its reader.
fn does_sum_stop_reader(start: &Vec<char>, duration: &Vec<char>) -> (res: bool)
    requires
        forall|i: int| !stands(duration@, ".."@, i),
    ensures
        res == sum_stops_reader(start@, duration@),
{
    if has_lone_unit(start) {
        return true;
    }
    let now_start = chars_of("now(");
    let parsed_start = parse_range_up_to(start);
    if reads(duration, "s") {
        return start.len() == 0 || parsed_start.is_some();
    }
    if start.len() >= now_start.len() && stands_at(start, &now_start, 0) {
        return false;
    }
    match (parsed_start, parse_range_for(duration)) {
        (Some(from), Some(until)) => match (from.stop, until.stop) {
            (
                TimeBound::Inclusive(TimeExpr::Fixed { secs, .. }),
                TimeBound::Inclusive(TimeExpr::Now { offset }),
            ) => {
                proof {
                    law_same_offsets_act_the_same(offset, duration_read(duration@)->0, secs);
                }
                !offset.is_addable(secs)
            },
            _ => false,
        },
        _ => false,
    }
}

/// Whether a time range stops its reader.
pub fn is_stopping_reader(text: &str) -> (res: bool)
    ensures
        res == stops_reader(text@),
{
    let chars = chars_of(text);
    if chars.len() < 2 {
        return false;
    }
    let end: usize = chars.len() - 1;
    if (chars[0] != '[' && chars[0] != ']') || (chars[end] != '[' && chars[end] != ']') {
        return false;
    }
    proof {
        reveal_strlit("..");
        reveal_strlit(";");
    }
    let inner = part_of(&chars, 1, end);
    match find_part(&inner, "..") {
        Some(i) => {
            let start = part_of(&inner, 0, i);
            let stop = part_of(&inner, i + 2, inner.len());
            assert(start@ == inner@.take(i as int));
            assert(stop@ == inner@.skip(i + 2));
            do_bounds_stop_reader(&start, &stop)
        },
        None => match find_part(&inner, ";") {
            Some(i) => {
                let start = part_of(&inner, 0, i);
                let duration = part_of(&inner, i + 1, inner.len());
                assert(start@ == inner@.take(i as int));
                assert(duration@ == inner@.skip(i + 1));
                assert forall|k: int| !stands(duration@, ".."@, k) by {
                    if stands(duration@, ".."@, k) {
                        assert(inner@.subrange(i + 1 + k, i + 1 + k + 2) == duration@.subrange(
                            k,
                            k + 2,
                        ));
                        assert(stands(inner@, ".."@, i + 1 + k));
                    }
                }
                does_sum_stop_reader(&start, &duration)
            },
            None => false,
        },
    }
}

/// Whether `tx` can be evaluated in the second `now`.
fn is_evaluable(tx: TimeExpr, now: i64) -> (res: bool)
    requires
        now >= 0,
    ensures
        res == evaluable(tx, now as int),
{
    match tx {
        TimeExpr::Fixed { .. } => true,
        TimeExpr::Now { offset } => {
            let whole: i64 = offset.to_whole();
            whole <= i64::MAX - now && now + whole >= 0
        },
    }
}

/// The second that `tx` stands for when it is evaluated in the second `now`.
pub fn calculate_time_at(tx: TimeExpr, now: i64) -> (res: u64)
    requires
        evaluable(tx, now as int),
    ensures
        res == time_at(tx, now as int),
{
    match tx {
        TimeExpr::Fixed { secs, .. } => secs,
        TimeExpr::Now { offset } => (now + offset.to_whole()) as u64,
    }
}

/// Whether `res` is what comes of evaluating `tx` in the second `now`.
pub open spec fn calculated(res: Result<u64, Error>, tx: TimeExpr, now: int) -> bool {
    match res {
        Ok(secs) => evaluable(tx, now) && secs == time_at(tx, now),
        Err(e) => !evaluable(tx, now) && e@ == ErrorView::TimeOutOfRange,
    }
}

/// The second that `tx` stands for when it is evaluated in the second `now`, or an error where it
/// cannot be.
pub fn calculate_time_in(tx: TimeExpr, now: i64) -> (res: Result<u64, Error>)
    requires
        now >= 0,
    ensures
        calculated(res, tx, now as int),
{
    if is_evaluable(tx, now) {
        Ok(calculate_time_at(tx, now))
    } else {
        Err(Error::TimeOutOfRange)
    }
}

/// The second that `tx` stands for now.
pub fn calculate_time(tx: TimeExpr) -> (res: Result<u64, Error>)
    ensures
        tx matches TimeExpr::Fixed { secs, .. } ==> res == Ok::<u64, Error>(secs),
        exists|now: int| is_clock_reading(now) && #[trigger] calculated(res, tx, now),
        tx matches TimeExpr::Now { offset } ==> exists|now: i64|
            {
                &&& #[trigger] clock_shows(now)
                &&& is_clock_reading(now as int)
                &&& match res {
                    Ok(secs) => secs == now + offset.whole(),
                    Err(e) => {
                        &&& now + offset.whole() < 0 || now + offset.whole() > i64::MAX
                        &&& e@ == ErrorView::TimeOutOfRange
                    },
                }
            },
{
    let now: i64 = utc_now();
    assert(clock_shows(now));
    let res = calculate_time_in(tx, now);
    assert(calculated(res, tx, now as int));
    res
}

/// The second at which `bound` stands when it is evaluated in the second `now`, or `default`.
fn bound_time(bound: TimeBound, now: i64, default: u64) -> (res: u64)
    requires
        bound_evaluable(bound, now as int),
    ensures
        res == bound_at(bound, now as int, default as int),
{
    match bound {
        TimeBound::Inclusive(tx) => calculate_time_at(tx, now),
        TimeBound::Exclusive(tx) => calculate_time_at(tx, now),
        TimeBound::Unbounded => default,
    }
}

/// Whether `bound` can be evaluated in the second `now`.
fn is_bound_evaluable(bound: TimeBound, now: i64) -> (res: bool)
    requires
        now >= 0,
    ensures
        res == bound_evaluable(bound, now as int),
{
    match bound {
        TimeBound::Inclusive(tx) => is_evaluable(tx, now),
        TimeBound::Exclusive(tx) => is_evaluable(tx, now),
        TimeBound::Unbounded => true,
    }
}

/// The first and the last second of a time range, whose start is evaluated in the second
/// `start_now` and whose stop is evaluated in the second `stop_now`. A range without a start begins
/// in 1970, and a range without a stop ends in the second `now`.
pub fn time_from_range(range: TimeRange, now: i64, start_now: i64, stop_now: i64) -> (res: (
    u64,
    u64,
))
    requires
        now >= 0,
        bound_evaluable(range.start, start_now as int),
        bound_evaluable(range.stop, stop_now as int),
    ensures
        res.0 == bound_at(range.start, start_now as int, 0),
        res.1 == bound_at(range.stop, stop_now as int, now as int),
{
    (bound_time(range.start, start_now, 0), bound_time(range.stop, stop_now, now as u64))
}

/// Whether `res` is what comes of evaluating `range` with the clock at `now`, then at `start_now`
/// for its start and at `stop_now` for its stop.
pub open spec fn ranged(
    res: Result<Option<(u64, u64)>, Error>,
    range: TimeRange,
    now: int,
    start_now: int,
    stop_now: int,
) -> bool {
    let evaluable = bound_evaluable(range.start, start_now) && bound_evaluable(range.stop, stop_now);
    match res {
        Ok(Some((start, stop))) => {
            &&& evaluable
            &&& start == bound_at(range.start, start_now, 0)
            &&& stop == bound_at(range.stop, stop_now, now)
        },
        Ok(None) => false,
        Err(e) => !evaluable && e@ == ErrorView::TimeOutOfRange,
    }
}

/// The first and the last second of a time range with these readings of the clock, or an error where
/// they cannot be evaluated.
pub fn time_of_range(range: TimeRange, now: i64, start_now: i64, stop_now: i64) -> (res: Result<
    Option<(u64, u64)>,
    Error,
>)
    requires
        now >= 0,
        start_now >= 0,
        stop_now >= 0,
    ensures
        ranged(res, range, now as int, start_now as int, stop_now as int),
{
    if is_bound_evaluable(range.start, start_now) && is_bound_evaluable(range.stop, stop_now) {
        Ok(Some(time_from_range(range, now, start_now, stop_now)))
    } else {
        Err(Error::TimeOutOfRange)
    }
}

/// Bounds that are the same stand at the same second.
proof fn lemma_same_bounds(one: TimeBound, other: TimeBound, now: int, default: int)
    requires
        one.same(other),
    ensures
        bound_evaluable(one, now) == bound_evaluable(other, now),
        bound_at(one, now, default) == bound_at(other, now, default),
{
    match (one, other) {
        (
            TimeBound::Inclusive(TimeExpr::Now { offset: a }),
            TimeBound::Inclusive(TimeExpr::Now { offset: b }),
        ) => {
            law_same_offsets_act_the_same(a, b, 0);
        },
        (
            TimeBound::Exclusive(TimeExpr::Now { offset: a }),
            TimeBound::Exclusive(TimeExpr::Now { offset: b }),
        ) => {
            law_same_offsets_act_the_same(a, b, 0);
        },
        _ => {},
    }
}

/// Whether `res` is what comes of evaluating the time range among the parameters `parameters` of a
/// selector.
pub open spec fn time_of_parameters(
    res: Result<Option<(u64, u64)>, Error>,
    parameters: Seq<char>,
) -> bool {
    match time_parameter(parameters) {
        Err(_) => res matches Err(e) && e@ is TimeRange,
        Ok(None) => res == Ok::<Option<(u64, u64)>, Error>(None),
        Ok(Some(text)) => if stops_reader(text) {
            res matches Err(e) && e@ == ErrorView::TimeOutOfRange
        } else {
            match parsed_time_range(text) {
                None => res matches Err(e) && e@ is TimeRange,
                Some(range) => exists|now: i64| #[trigger]
                    clock_shows(now) && is_clock_reading(now as int) && ranged(
                        res,
                        range,
                        now as int,
                        now as int,
                        now as int,
                    ),
            }
        },
    }
}

/// The first and the last second of the time range among the parameters of a selector, if there is
/// one. The clock is read once, so that all that the range counts from now is counted from the same
/// second; a range without a stop ends in that second.
pub fn time_from_parameters(t: &str) -> (res: Result<Option<(u64, u64)>, Error>)
    ensures
        time_of_parameters(res, t@),
        time_parameter(t@) == Ok::<Option<Seq<char>>, ()>(None) <==> res == Ok::<
            Option<(u64, u64)>,
            Error,
        >(None),
        (time_parameter(t@) matches Ok(Some(text)) && !stops_reader(text)
            && parsed_time_range(text) is Some) ==> exists|now: i64|
            {
                &&& #[trigger] clock_shows(now)
                &&& is_clock_reading(now as int)
                &&& res matches Ok(seconds) ==> {
                    &&& seconds matches Some((start, stop))
                    &&& match parsed_time_range(time_parameter(t@)->Ok_0->0)->0.start {
                        TimeBound::Unbounded => start == 0,
                        TimeBound::Inclusive(TimeExpr::Fixed { secs, .. }) => start == secs,
                        TimeBound::Exclusive(TimeExpr::Fixed { secs, .. }) => start == secs,
                        TimeBound::Inclusive(TimeExpr::Now { offset }) => start == now
                            + offset.whole(),
                        TimeBound::Exclusive(TimeExpr::Now { offset }) => start == now
                            + offset.whole(),
                    }
                    &&& match parsed_time_range(time_parameter(t@)->Ok_0->0)->0.stop {
                        TimeBound::Unbounded => stop == now,
                        TimeBound::Inclusive(TimeExpr::Fixed { secs, .. }) => stop == secs,
                        TimeBound::Exclusive(TimeExpr::Fixed { secs, .. }) => stop == secs,
                        TimeBound::Inclusive(TimeExpr::Now { offset }) => stop == now
                            + offset.whole(),
                        TimeBound::Exclusive(TimeExpr::Now { offset }) => stop == now
                            + offset.whole(),
                    }
                }
            },
{
    let text = match get_time_parameter(t) {
        Ok(Some(text)) => text,
        Ok(None) => return Ok(None),
        Err(cause) => return Err(Error::TimeRange { cause }),
    };
    if is_stopping_reader(text.as_str()) {
        return Err(Error::TimeOutOfRange);
    }
    let range = match parse_time_range(text.as_str()) {
        Ok(range) => range,
        Err(cause) => return Err(Error::TimeRange { cause }),
    };
    let now: i64 = utc_now();
    let res = time_of_range(range, now, now, now);
    proof {
        assert(clock_shows(now));
        let expected = parsed_time_range(text@)->0;
        lemma_same_bounds(range.start, expected.start, now as int, 0);
        lemma_same_bounds(range.stop, expected.stop, now as int, now as int);
        assert(ranged(res, expected, now as int, now as int, now as int));
    }
    res
}

/// The current instant can always be evaluated, and so can every later one up to a bound that no
/// clock comes near; no clock reading makes them fail.
pub proof fn law_now_is_always_evaluable(tx: TimeExpr, now: int)
    requires
        is_clock_reading(now),
        tx matches TimeExpr::Now { offset } && 0 <= offset.whole() <= i64::MAX - LAST_CLOCK_SECOND,
    ensures
        evaluable(tx, now),
{
}

/// Whether a bound holds its own instant makes no difference to the seconds of a range.
pub proof fn law_inclusion_makes_no_difference(tx: TimeExpr, now: int, default: int)
    ensures
        bound_at(TimeBound::Inclusive(tx), now, default) == bound_at(
            TimeBound::Exclusive(tx),
            now,
            default,
        ),
        bound_evaluable(TimeBound::Inclusive(tx), now) == bound_evaluable(
            TimeBound::Exclusive(tx),
            now,
        ),
{
}

/// A relative instant moves with the clock, and a fixed one does not.
pub proof fn law_relative_instants_move_with_the_clock(tx: TimeExpr, now: int, later: int)
    ensures
        time_at(tx, later) - time_at(tx, now) == if tx is Now {
            later - now
        } else {
            0
        },
{
}

/// Only a reading of the clock gives a second that the clock showed.
pub(crate) proof fn law_the_clock_shows_what_it_is_read_at(now: i64)
    ensures
        clock_shows(now) == call_ensures(utc_now, (), now),
        clock_shows(now) ==> is_clock_reading(now as int),
{
}

/// An instant is evaluated to the second that it lies in, and an offset to the second that lies so
/// many whole seconds from now. It fails only for an offset, and only where that second is before
/// 1970 or cannot be shown.
pub proof fn law_instants_are_evaluated_to_their_second(
    res: Result<u64, Error>,
    secs: u64,
    nanos: u32,
    offset: Offset,
    now: int,
)
    ensures
        calculated(res, TimeExpr::Fixed { secs, nanos }, now) <==> res == Ok::<u64, Error>(secs),
        calculated(res, TimeExpr::Now { offset }, now) <==> if 0 <= now + offset.whole()
            <= i64::MAX {
            res matches Ok(second) && second == now + offset.whole()
        } else {
            res matches Err(e) && e@ == ErrorView::TimeOutOfRange
        },
{
}

/// A range from one instant to another gives their seconds; a range without a start begins in the
/// second zero, and a range without a stop ends in the second that the clock shows.
pub proof fn law_ranges_reach_from_start_to_stop(
    range: TimeRange,
    start: u64,
    stop: u64,
    now: int,
    start_now: int,
    stop_now: int,
)
    requires
        ranged(
            Ok::<Option<(u64, u64)>, Error>(Some((start, stop))),
            range,
            now,
            start_now,
            stop_now,
        ),
    ensures
        range.start is Unbounded ==> start == 0,
        range.stop is Unbounded ==> stop == now,
        forall|tx: TimeExpr|
            range.start == TimeBound::Inclusive(tx) || range.start == TimeBound::Exclusive(tx)
                ==> calculated(Ok::<u64, Error>(start), tx, start_now),
        forall|tx: TimeExpr|
            range.stop == TimeBound::Inclusive(tx) || range.stop == TimeBound::Exclusive(tx)
                ==> calculated(Ok::<u64, Error>(stop), tx, stop_now),
{
}

/// A range fails only where one of its bounds does: it gives its seconds wherever both bounds can be
/// evaluated, in whatever order they come.
pub proof fn law_ranges_fail_only_with_a_bound(
    res: Result<Option<(u64, u64)>, Error>,
    range: TimeRange,
    now: int,
    start_now: int,
    stop_now: int,
)
    requires
        ranged(res, range, now, start_now, stop_now),
    ensures
        res is Ok ==> res->Ok_0 is Some,
        res matches Err(e) ==> {
            &&& e@ == ErrorView::TimeOutOfRange
            &&& exists|tx: TimeExpr, second: int|
                {
                    ||| (range.start == TimeBound::Inclusive(tx) || range.start
                        == TimeBound::Exclusive(tx)) && second == start_now && !#[trigger] evaluable(
                        tx,
                        second,
                    )
                    ||| (range.stop == TimeBound::Inclusive(tx) || range.stop
                        == TimeBound::Exclusive(tx)) && second == stop_now && !evaluable(tx, second)
                }
        },
{
    if res is Err {
        let (start_tx, stop_tx) = (
            match range.start {
                TimeBound::Inclusive(tx) => tx,
                TimeBound::Exclusive(tx) => tx,
                TimeBound::Unbounded => TimeExpr::Fixed { secs: 0, nanos: 0 },
            },
            match range.stop {
                TimeBound::Inclusive(tx) => tx,
                TimeBound::Exclusive(tx) => tx,
                TimeBound::Unbounded => TimeExpr::Fixed { secs: 0, nanos: 0 },
            },
        );
        assert(!evaluable(start_tx, start_now) || !evaluable(stop_tx, stop_now));
    }
}

/// Everything since an instant before now is asked for up to now: such a range ends after it starts.
pub proof fn law_open_ranges_end_now(
    range: TimeRange,
    start: u64,
    stop: u64,
    now: int,
    offset: Offset,
)
    requires
        ranged(Ok::<Option<(u64, u64)>, Error>(Some((start, stop))), range, now, now, now),
        range.stop is Unbounded,
    ensures
        stop == now,
        (range.start == TimeBound::Inclusive(TimeExpr::Now { offset }) || range.start
            == TimeBound::Exclusive(TimeExpr::Now { offset })) && offset.whole() < 0 ==> start < stop
            && stop - start == -offset.whole(),
        range.start is Unbounded ==> start == 0 && start <= stop || stop < 0,
{
}

/// A range between two bounds stops its reader exactly where a bound that it gets to is `now(s)` or
/// `now(-s)`; it gets to the stop only where it can read the start.
pub proof fn law_ranges_stop_at_units_without_numbers(
    open: char,
    start: Seq<char>,
    stop: Seq<char>,
    close: char,
)
    requires
        open == '[' || open == ']',
        close == '[' || close == ']',
        first_at(start + ".."@ + stop, ".."@, start.len() as int),
    ensures
        stops_reader(seq![open] + start + ".."@ + stop + seq![close]) <==> {
            ||| start == "now(s)"@ || start == "now(-s)"@
            ||| (stop == "now(s)"@ || stop == "now(-s)"@) && (start.len() == 0
                || parsed_time_range("[.."@ + start + "]"@) is Some)
        },
{
    reveal_strlit("..");
    let text = seq![open] + start + ".."@ + stop + seq![close];
    let inner = text.subrange(1, text.len() - 1);
    assert(inner == start + ".."@ + stop);
    lemma_found(inner, ".."@, start.len() as int);
    assert(inner.take(start.len() as int) == start);
    assert(inner.skip(start.len() as int + 2) == stop);
}

/// A range of some duration stops its reader exactly where what it gets to is a unit without a
/// number, or where the duration that it has read cannot be added to the fixed instant that it has
/// read.
pub proof fn law_ranges_stop_at_sums_that_no_clock_shows(
    open: char,
    start: Seq<char>,
    duration: Seq<char>,
    close: char,
)
    requires
        open == '[' || open == ']',
        close == '[' || close == ']',
        first_at(start + ";"@ + duration, ";"@, start.len() as int),
        forall|i: int| !#[trigger] stands(start + ";"@ + duration, ".."@, i),
    ensures
        stops_reader(seq![open] + start + ";"@ + duration + seq![close]) <==> {
            ||| start == "now(s)"@ || start == "now(-s)"@
            ||| duration == "s"@ && (start.len() == 0 || parsed_time_range("[.."@ + start + "]"@)
                is Some)
            ||| {
                &&& duration != "s"@
                &&& !(start.len() >= 4 && start.take(4) == "now("@)
                &&& parsed_time_range("[.."@ + start + "]"@) matches Some(from)
                &&& from.stop matches TimeBound::Inclusive(TimeExpr::Fixed { secs, .. })
                &&& parsed_time_range("[now();"@ + duration + "]"@) matches Some(until)
                &&& until.stop matches TimeBound::Inclusive(TimeExpr::Now { offset })
                &&& offset.below_zero() || secs + offset.magnitude() > i64::MAX
            }
        },
{
    reveal_strlit("..");
    reveal_strlit(";");
    reveal_strlit("now(");
    let text = seq![open] + start + ";"@ + duration + seq![close];
    let inner = text.subrange(1, text.len() - 1);
    assert(inner == start + ";"@ + duration);
    assert(find(inner, ".."@) is None);
    lemma_found(inner, ";"@, start.len() as int);
    assert(inner.take(start.len() as int) == start);
    assert(inner.skip(start.len() as int + 1) == duration);
    if start.len() >= 4 {
        assert(start.subrange(0, 4) == start.take(4));
    }
}

/// A text that is no range, or has no separator, does not stop its reader.
pub proof fn law_other_texts_do_not_stop_the_reader(text: Seq<char>)
    requires
        text.len() < 2 || (text[0] != '[' && text[0] != ']') || (text.last() != '[' && text.last()
            != ']') || (!text.contains(';') && (forall|i: int| !#[trigger] stands(text, ".."@, i))),
    ensures
        !stops_reader(text),
{
    reveal_strlit("..");
    reveal_strlit(";");
    if stops_reader(text) {
        let inner = text.subrange(1, text.len() - 1);
        if exists|i: int| first_at(inner, ".."@, i) {
            let i = choose|i: int| first_at(inner, ".."@, i);
            assert(text.subrange(i + 1, i + 3) == inner.subrange(i, i + 2));
            assert(stands(text, ".."@, i + 1));
        } else {
            let i = choose|i: int| first_at(inner, ";"@, i);
            assert(stands(inner, ";"@, i));
            assert(inner.subrange(i, i + 1)[0] == ';');
            assert(text[i + 1] == ';');
        }
    }
}

/// Whatever the evaluation of `[now(-d)..]` returned, with some whole seconds in `d`, it reaches from
/// that many seconds before the second that the clock showed up to that second.
pub proof fn law_everything_since_an_offset_ends_now(
    t: &str,
    text: Seq<char>,
    range: TimeRange,
    offset: Offset,
    res: Result<Option<(u64, u64)>, Error>,
)
    requires
        call_ensures(time_from_parameters, (t,), res),
        time_parameter(t@) == Ok::<Option<Seq<char>>, ()>(Some(text)),
        !stops_reader(text),
        parsed_time_range(text) == Some(range),
        range.start == TimeBound::Inclusive(TimeExpr::Now { offset }) || range.start
            == TimeBound::Exclusive(TimeExpr::Now { offset }),
        offset.whole() < 0,
        range.stop is Unbounded,
        res is Ok,
    ensures
        res->Ok_0 matches Some((start, stop)) && start < stop && stop - start == -offset.whole()
            && clock_shows(stop as i64),
{
}

/// Whatever the evaluation of a range with a fixed start and no stop returned, it reaches from that
/// start up to the second that the clock showed.
pub proof fn law_everything_since_an_instant_ends_now(
    t: &str,
    text: Seq<char>,
    range: TimeRange,
    secs: u64,
    nanos: u32,
    res: Result<Option<(u64, u64)>, Error>,
)
    requires
        call_ensures(time_from_parameters, (t,), res),
        time_parameter(t@) == Ok::<Option<Seq<char>>, ()>(Some(text)),
        !stops_reader(text),
        parsed_time_range(text) == Some(range),
        range.start == TimeBound::Inclusive(TimeExpr::Fixed { secs, nanos }) || range.start
            == TimeBound::Exclusive(TimeExpr::Fixed { secs, nanos }),
        range.stop is Unbounded,
    ensures
        res matches Ok(Some((start, stop))) && start == secs && clock_shows(stop as i64),
{
}

/// A selector without a time range has no seconds; a malformed one is reported as such, and one that
/// stops its reader as one that cannot be evaluated.
pub proof fn law_malformed_ranges_are_reported(
    res: Result<Option<(u64, u64)>, Error>,
    parameters: Seq<char>,
    text: Seq<char>,
)
    requires
        time_of_parameters(res, parameters),
    ensures
        time_parameter(parameters) is Err ==> (res matches Err(e) && e@ is TimeRange),
        time_parameter(parameters) == Ok::<Option<Seq<char>>, ()>(None) ==> res == Ok::<
            Option<(u64, u64)>,
            Error,
        >(None),
        time_parameter(parameters) == Ok::<Option<Seq<char>>, ()>(Some(text)) ==> {
            &&& stops_reader(text) ==> (res matches Err(e) && e@ == ErrorView::TimeOutOfRange)
            &&& !stops_reader(text) && parsed_time_range(text) is None ==> (res matches Err(e) && e@
                is TimeRange)
            &&& (res matches Err(e) && e@ is TimeRange) ==> !stops_reader(text)
                && parsed_time_range(text) is None
        },
{
}

/// A part stands where it was put, and where a part stands the text can be cut around it.
pub proof fn law_parts_stand_where_they_were_put(
    left: Seq<char>,
    part: Seq<char>,
    right: Seq<char>,
    text: Seq<char>,
    i: int,
)
    ensures
        stands(left + part + right, part, left.len() as int),
        stands(text, part, i) ==> text == text.take(i) + part + text.skip(i + part.len()),
        first_at(text, part, i) ==> find(text, part) == Some(i),
        (forall|k: int| !#[trigger] stands(text, part, k)) ==> find(text, part) is None,
{
    let whole = left + part + right;
    assert(whole.subrange(left.len() as int, left.len() as int + part.len()) == part);
    if stands(text, part, i) {
        assert(text == text.take(i) + text.subrange(i, i + part.len()) + text.skip(
            i + part.len(),
        ));
    }
    if first_at(text, part, i) {
        lemma_found(text, part, i);
    }
}

/// Ranges are the same only where they have the same bounds: fixed instants are equal, and offsets
/// are equal numbers or both no number.
pub proof fn law_same_ranges_have_the_same_bounds(one: TimeRange, other: TimeRange)
    requires
        one.same(other),
    ensures
        one.start is Unbounded <==> other.start is Unbounded,
        one.stop is Unbounded <==> other.stop is Unbounded,
        one.start is Inclusive <==> other.start is Inclusive,
        one.stop is Inclusive <==> other.stop is Inclusive,
        forall|a: Offset, b: Offset|
            (one.stop == TimeBound::Inclusive(TimeExpr::Now { offset: a }) && other.stop
                == TimeBound::Inclusive(TimeExpr::Now { offset: b })) ==> a == b || #[trigger]
                a.is_nan() && #[trigger] b.is_nan(),
        (one.start matches TimeBound::Inclusive(TimeExpr::Fixed { .. })) ==> one.start == other.start,
        (one.start matches TimeBound::Exclusive(TimeExpr::Fixed { .. })) ==> one.start == other.start,
        (one.stop matches TimeBound::Inclusive(TimeExpr::Fixed { .. })) ==> one.stop == other.stop,
        (one.stop matches TimeBound::Exclusive(TimeExpr::Fixed { .. })) ==> one.stop == other.stop,
{
}

}
