//! The marks that deletions leave, which keep older values from coming back.

use crate::timestamp::{
    in_era, is_in_era, law_reread_keeps_the_nanosecond, nanoseconds, parsed_timestamp, reread,
    seconds, timestamp_from_str, Timestamp, FRAC_PER_SEC, NANO_PER_SEC,
};
use vstd::prelude::*;

verus! {

/// The views of a list of strings.
pub open spec fn texts(strings: Seq<String>) -> Seq<Seq<char>> {
    strings.map_values(|text: String| text@)
}

/// Whether the timestamp of a mark shows that a value set at `time` was deleted. The timestamp of a
/// mark is exact to the nanosecond, so a value of the nanosecond of a deletion counts as deleted. A
/// mark whose timestamp cannot be read shows nothing.
pub open spec fn shows_deleted(mark: Seq<char>, time: int) -> bool {
    in_era(mark) && match parsed_timestamp(mark) {
        Some((deleted, _)) => reread(time) <= deleted,
        None => false,
    }
}

/// Whether one of the marks shows that a value set at `time` was deleted.
pub open spec fn outdated(marks: Seq<Seq<char>>, time: int) -> bool {
    exists|i: int| 0 <= i < marks.len() && shows_deleted(#[trigger] marks[i], time)
}

/// The time that is read back from the text of `time`.
fn reread_time(time: u64) -> (res: u64)
    ensures
        res == reread(time as int),
{
    let secs: u64 = time / FRAC_PER_SEC;
    let nanos: u64 = (time % FRAC_PER_SEC) * NANO_PER_SEC / FRAC_PER_SEC;
    proof {
        law_reread_keeps_the_nanosecond(time);
        assert(secs == seconds(time as int));
        assert(nanos == nanoseconds(time as int));
        assert(nanos < 1_000_000_000);
    }
    let step: u64 = nanos * FRAC_PER_SEC / NANO_PER_SEC;
    assert(reread(time as int) == secs * FRAC_PER_SEC + step + 1);
    secs * FRAC_PER_SEC + step + 1
}

/// Whether the timestamps of the marks of a key show that a value was deleted.
pub fn is_outdated(marks: &Vec<String>, timestamp: Timestamp) -> (res: bool)
    ensures
        res == outdated(texts(marks@), timestamp.time as int),
{
    let time: u64 = reread_time(timestamp.time);
    let mut i: usize = 0;
    while i < marks.len()
        invariant
            i <= marks@.len(),
            time == reread(timestamp.time as int),
            forall|k: int|
                0 <= k < i ==> !shows_deleted(
                    #[trigger] texts(marks@)[k],
                    timestamp.time as int,
                ),
        decreases marks@.len() - i,
    {
        assert(texts(marks@)[i as int] == marks@[i as int]@);
        if is_in_era(marks[i].as_str()) {
            match timestamp_from_str(marks[i].as_str()) {
                Some(deleted) => if time <= deleted.time {
                    return true;
                },
                None => (),
            }
        }
        i += 1;
    }
    false
}

/// A time that is not before another one is not read back before it either.
proof fn lemma_reread_keeps_the_order(time: u64, later: u64)
    requires
        time <= later,
    ensures
        reread(time as int) <= reread(later as int),
{
    let nanos = nanoseconds(time as int);
    let later_nanos = nanoseconds(later as int);
    law_reread_keeps_the_nanosecond(time);
    law_reread_keeps_the_nanosecond(later);
    if seconds(time as int) == seconds(later as int) {
        assert(time as int % 0x1_0000_0000 <= later as int % 0x1_0000_0000);
        assert(nanos <= later_nanos);
    }
}

/// A value that is not newer than a deletion does not come back once the deletion is recorded:
/// whatever other marks there are, the mark of the deletion shows that the value was deleted.
pub proof fn law_older_values_stay_out(
    marks: Seq<Seq<char>>,
    i: int,
    deleted: Timestamp,
    value: Timestamp,
)
    requires
        0 <= i < marks.len(),
        in_era(marks[i]),
        parsed_timestamp(marks[i]) == Some((reread(deleted.time as int) as u64, deleted.id)),
        value.time <= deleted.time,
    ensures
        outdated(marks, value.time as int),
{
    law_reread_keeps_the_nanosecond(deleted.time);
    lemma_reread_keeps_the_order(value.time, deleted.time);
    assert(shows_deleted(marks[i], value.time as int));
}

/// A value that is newer than every deletion, by a nanosecond at least, comes in.
pub proof fn law_newer_values_come_in(marks: Seq<Seq<char>>, value: Timestamp)
    requires
        forall|i: int|
            0 <= i < marks.len() ==> (parsed_timestamp(#[trigger] marks[i]) matches Some((deleted, _))
                ==> deleted < reread(value.time as int)),
    ensures
        !outdated(marks, value.time as int),
{
}

/// A value is outdated exactly where a mark that can be read is of its nanosecond or of a later one.
pub proof fn law_marks_decide_by_their_timestamps(
    mark: Seq<char>,
    others: Seq<Seq<char>>,
    time: int,
    deleted: u64,
    id: u128,
)
    ensures
        outdated(others.push(mark), time) <==> outdated(others, time) || outdated(seq![mark], time),
        outdated(seq![mark], time) <==> in_era(mark) && (parsed_timestamp(mark) matches Some(
            (deleted, _),
        ) && reread(time) <= deleted),
        !outdated(Seq::empty(), time),
{
    let all = others.push(mark);
    if outdated(others, time) {
        let i = choose|i: int| 0 <= i < others.len() && shows_deleted(#[trigger] others[i], time);
        assert(shows_deleted(all[i], time));
    }
    if outdated(seq![mark], time) {
        assert(seq![mark][0] == mark);
        assert(shows_deleted(all[others.len() as int], time));
    }
    if outdated(all, time) {
        let i = choose|i: int| 0 <= i < all.len() && shows_deleted(#[trigger] all[i], time);
        if i < others.len() {
            assert(shows_deleted(others[i], time));
        } else {
            assert(shows_deleted(seq![mark][0], time));
        }
    }
    if shows_deleted(mark, time) {
        assert(shows_deleted(seq![mark][0], time));
    }
}

/// No mark is lost: the list is viewed in its length and order.
pub proof fn law_marks_are_viewed_whole(strings: Seq<String>)
    ensures
        texts(strings).len() == strings.len(),
        forall|i: int| 0 <= i < strings.len() ==> #[trigger] texts(strings)[i] == strings[i]@,
{
}

}
