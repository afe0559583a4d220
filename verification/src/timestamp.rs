//! Timestamps: the instant at which a value was set, and who set it.

use crate::text::chars_of;
use vstd::prelude::*;

verus! {

/// The fraction steps of a second.
pub const FRAC_PER_SEC: u64 = 0x1_0000_0000;

/// The nanoseconds of a second.
pub const NANO_PER_SEC: u64 = 1_000_000_000;

/// The last second that a timestamp can stand for.
pub const LAST_SECOND: &'static str = "2106-02-07T06:28:15";

/// The instant at which a value was set, and the identifier of the clock that gave it.
#[derive(Debug, Clone, Copy, PartialEq, Eq, Structural)]
pub struct Timestamp {
    /// The seconds since 1970 in the upper half, and the fraction of a second in the lower half.
    pub time: u64,
    /// The identifier of the clock.
    pub id: u128,
}

impl Timestamp {
    /// Whether this is a timestamp of some clock: no clock has the identifier zero.
    pub open spec fn valid(self) -> bool {
        self.id != 0
    }
}

/// The whole seconds of a time.
pub open spec fn seconds(time: int) -> int {
    time / FRAC_PER_SEC as int
}

/// The nanoseconds of a time beyond its whole seconds.
pub open spec fn nanoseconds(time: int) -> int {
    (time % FRAC_PER_SEC as int) * NANO_PER_SEC / FRAC_PER_SEC as int
}

/// The whole milliseconds of a time.
pub open spec fn milliseconds(time: int) -> int {
    seconds(time) * 1000 + nanoseconds(time) / 1_000_000
}

/// The time that is read back from the text of `time`. The text is exact to the nanosecond, and a
/// nanosecond is read as the first fraction step after its beginning.
pub open spec fn reread(time: int) -> int {
    seconds(time) * FRAC_PER_SEC + nanoseconds(time) * FRAC_PER_SEC / NANO_PER_SEC as int + 1
}

/// Whether `left` does not sort after `right`, character by character.
pub open spec fn sorts_up_to(left: Seq<char>, right: Seq<char>) -> bool
    decreases left.len(),
{
    if left.len() == 0 {
        true
    } else if right.len() == 0 {
        false
    } else if left[0] != right[0] {
        left[0] < right[0]
    } else {
        sorts_up_to(left.skip(1), right.skip(1))
    }
}

/// Whether a text that begins with a date and a time of day stands for no second after the last
/// one.
pub open spec fn in_era(text: Seq<char>) -> bool {
    sorts_up_to(
        text.take(
            if text.len() < 19 {
                text.len() as int
            } else {
                19
            },
        ),
        LAST_SECOND@,
    )
}

/// The text that `uhlc::Timestamp` is displayed as.
pub uninterp spec fn timestamp_text(time: u64, id: u128) -> Seq<char>;

/// What `uhlc::Timestamp::from_str` reads in a text: a time and an identifier.
pub uninterp spec fn parsed_timestamp(text: Seq<char>) -> Option<(u64, u128)>;

/// `uhlc::Timestamp` is displayed as its time in RFC 3339, with nine digits of a second, and its
/// identifier in hexadecimal, with a `/` between them. A time has 32 bits for its seconds, so what
/// is displayed is in the era; and `from_str` reads the same second, the same nanosecond and the
/// same identifier in it.
///
/// This is so on 64-bit platforms whose `SystemTime` counts nanoseconds.
#[verifier::external_body]
pub(crate) fn timestamp_to_string(timestamp: &Timestamp) -> (res: String)
    requires
        timestamp.valid(),
    ensures
        res@ == timestamp_text(timestamp.time, timestamp.id),
        in_era(res@),
        parsed_timestamp(res@) == Some((reread(timestamp.time as int) as u64, timestamp.id)),
{
    let time = zenoh::time::NTP64(timestamp.time);
    let id = zenoh::time::TimestampId::try_from(timestamp.id).unwrap();
    zenoh::time::Timestamp::new(time, id).to_string()
}

/// `uhlc::Timestamp::from_str` reads a time in RFC 3339 and an identifier in hexadecimal. It panics
/// on seconds that do not fit in 32 bits, so the text must be in the era.
///
/// This is so on 64-bit platforms whose `SystemTime` counts nanoseconds.
#[verifier::external_body]
pub(crate) fn timestamp_from_str(text: &str) -> (res: Option<Timestamp>)
    requires
        in_era(text@),
    ensures
        match res {
            Some(timestamp) => {
                &&& timestamp.valid()
                &&& parsed_timestamp(text@) == Some((timestamp.time, timestamp.id))
            },
            None => parsed_timestamp(text@) is None,
        },
{
    let parsed: zenoh::time::Timestamp = text.parse().ok()?;
    let time: u64 = parsed.get_time().0;
    let id: u128 = u128::from_le_bytes(parsed.get_id().to_le_bytes());
    Some(Timestamp { time, id })
}

/// `zenoh::time::new_reception_timestamp` gives the time of the system clock, with the identifier
/// one. It panics where that clock stands before 1970 or after the era.
#[verifier::external_body]
pub(crate) fn new_reception_timestamp() -> (res: Timestamp)
    ensures
        res.id == 1,
{
    let now = zenoh::time::new_reception_timestamp();
    let time: u64 = now.get_time().0;
    let id: u128 = u128::from_le_bytes(now.get_id().to_le_bytes());
    Timestamp { time, id }
}

/// Whether `timestamp` is what a reception at the current instant was given.
pub closed spec fn is_received(timestamp: Timestamp) -> bool {
    call_ensures(new_reception_timestamp, (), timestamp)
}

/// Whether a text stands for no second after the last one.
pub fn is_in_era(text: &str) -> (res: bool)
    ensures
        res == in_era(text@),
{
    let chars = chars_of(text);
    let limit = chars_of(LAST_SECOND);
    let end: usize = if chars.len() < 19 {
        chars.len()
    } else {
        19
    };
    let ghost head = text@.take(end as int);
    let mut i: usize = 0;
    assert(head.skip(0) == head);
    assert(limit@.skip(0) == limit@);
    while i < end
        invariant
            chars@ == text@,
            limit@ == LAST_SECOND@,
            end <= chars@.len(),
            head == text@.take(end as int),
            i <= end,
            i <= limit@.len(),
            sorts_up_to(head, LAST_SECOND@) == sorts_up_to(
                head.skip(i as int),
                limit@.skip(i as int),
            ),
            in_era(text@) == sorts_up_to(head, LAST_SECOND@),
        decreases end - i,
    {
        assert(head.skip(i as int).skip(1) == head.skip(i + 1));
        if i >= limit.len() {
            return false;
        }
        assert(limit@.skip(i as int).skip(1) == limit@.skip(i + 1));
        if chars[i] != limit[i] {
            return chars[i] < limit[i];
        }
        i += 1;
    }
    true
}

/// The keys that a storage has values for, with their timestamps. Only one is known: the key of the
/// storage itself, with the given timestamp.
pub fn entries_at(timestamp: Timestamp) -> (res: Vec<(Option<String>, Timestamp)>)
    ensures
        res@ == seq![(None::<String>, timestamp)],
{
    vec![(None, timestamp)]
}

/// A time that was read back is in the same second and in the same nanosecond as before, fits where
/// it was, and is read back unchanged from then on.
pub proof fn law_reread_keeps_the_nanosecond(time: u64)
    ensures
        0 <= reread(time as int) <= u64::MAX,
        seconds(reread(time as int)) == seconds(time as int),
        nanoseconds(reread(time as int)) == nanoseconds(time as int),
        reread(reread(time as int)) == reread(time as int),
{
    let sec = time as int / 0x1_0000_0000;
    let fraction = time as int % 0x1_0000_0000;
    let nanos = fraction * 1_000_000_000 / 0x1_0000_0000;
    let step = nanos * 0x1_0000_0000 / 1_000_000_000;
    assert(seconds(time as int) == sec && nanoseconds(time as int) == nanos);
    assert(0 <= nanos < 1_000_000_000);
    assert(step * 1_000_000_000 <= nanos * 0x1_0000_0000 < (step + 1) * 1_000_000_000);
    assert(0 <= step && step + 1 < 0x1_0000_0000);
    let again = sec * 0x1_0000_0000 + step + 1;
    assert(reread(time as int) == again);
    assert(again / 0x1_0000_0000 == sec && again % 0x1_0000_0000 == step + 1);
    assert(nanos * 0x1_0000_0000 <= (step + 1) * 1_000_000_000 < (nanos + 1) * 0x1_0000_0000);
    assert((step + 1) * 1_000_000_000 / 0x1_0000_0000 == nanos);
    assert(seconds(again) == sec && nanoseconds(again) == nanos);
}

/// A time that is not before another one is not before it in milliseconds either, and every time is
/// within its millisecond.
pub proof fn law_milliseconds_keep_the_order(time: u64, later: u64)
    requires
        time <= later,
    ensures
        0 <= milliseconds(time as int) <= milliseconds(later as int) < 0x1_0000_0000 * 1000,
        milliseconds(time as int) / 1000 == seconds(time as int),
{
    let nanos = nanoseconds(time as int);
    let later_nanos = nanoseconds(later as int);
    assert(0 <= nanos < 1_000_000_000);
    assert(0 <= later_nanos < 1_000_000_000);
    if seconds(time as int) == seconds(later as int) {
        assert(time as int % 0x1_0000_0000 <= later as int % 0x1_0000_0000);
        assert(nanos <= later_nanos);
    }
}

/// Only a reception is given the timestamp of one, which is of the clock with the identifier one.
pub(crate) proof fn law_receptions_are_stamped_now(timestamp: Timestamp)
    ensures
        is_received(timestamp) == call_ensures(new_reception_timestamp, (), timestamp),
        is_received(timestamp) ==> timestamp.id == 1,
{
}

/// A time lies in its second, in its millisecond and in its nanosecond: each is the last one that
/// begins no later than the time.
pub proof fn law_times_lie_in_their_units(time: u64)
    ensures
        seconds(time as int) * 0x1_0000_0000 <= time < (seconds(time as int) + 1) * 0x1_0000_0000,
        milliseconds(time as int) * 0x1_0000_0000 <= time * 1000 < (milliseconds(time as int) + 1)
            * 0x1_0000_0000,
        (seconds(time as int) * 1_000_000_000 + nanoseconds(time as int)) * 0x1_0000_0000 <= time
            * 1_000_000_000 < (seconds(time as int) * 1_000_000_000 + nanoseconds(time as int) + 1)
            * 0x1_0000_0000,
        0 <= nanoseconds(time as int) < 1_000_000_000,
{
    let sec = seconds(time as int);
    let fraction = time as int % 0x1_0000_0000;
    let nanos = nanoseconds(time as int);
    assert(time == sec * 0x1_0000_0000 + fraction);
    assert(nanos * 0x1_0000_0000 <= fraction * 1_000_000_000 < (nanos + 1) * 0x1_0000_0000);
    let millis = nanos / 1_000_000;
    assert(millis * 1_000_000 <= nanos < (millis + 1) * 1_000_000);
    assert(millis * 0x1_0000_0000 <= fraction * 1000 < (millis + 1) * 0x1_0000_0000);
}

/// A text is in the era exactly where it does not come after the last second of it: where the first
/// character that differs is the smaller one, or where none of the first nineteen differs.
pub proof fn law_the_era_ends_with_its_last_second(text: Seq<char>, i: int)
    requires
        0 <= i < 19,
        i <= text.len(),
        forall|k: int| 0 <= k < i ==> text[k] == "2106-02-07T06:28:15"@[k],
    ensures
        i == text.len() ==> in_era(text),
        i < text.len() && text[i] != "2106-02-07T06:28:15"@[i] ==> in_era(text) == (text[i]
            < "2106-02-07T06:28:15"@[i]),
        i == 18 && i < text.len() && text[i] == "2106-02-07T06:28:15"@[i] ==> in_era(text),
{
    reveal_strlit("2106-02-07T06:28:15");
    let end = if text.len() < 19 {
        text.len() as int
    } else {
        19
    };
    lemma_sorting_skips_what_is_equal(text.take(end), LAST_SECOND@, i);
    let left = text.take(end).skip(i);
    let right = LAST_SECOND@.skip(i);
    if i == 18 && i < text.len() && text[i] == LAST_SECOND@[i] {
        assert(left.len() == 1);
        assert(left.skip(1).len() == 0);
        assert(sorts_up_to(left.skip(1), right.skip(1)));
    }
}

/// Texts are sorted by the first character that differs.
proof fn lemma_sorting_skips_what_is_equal(left: Seq<char>, right: Seq<char>, n: int)
    requires
        0 <= n <= left.len(),
        n <= right.len(),
        forall|k: int| 0 <= k < n ==> left[k] == right[k],
    ensures
        sorts_up_to(left, right) == sorts_up_to(left.skip(n), right.skip(n)),
    decreases n,
{
    if n > 0 {
        lemma_sorting_skips_what_is_equal(left.skip(1), right.skip(1), n - 1);
        assert(left.skip(1).skip(n - 1) == left.skip(n));
        assert(right.skip(1).skip(n - 1) == right.skip(n));
    } else {
        assert(left.skip(0) == left);
        assert(right.skip(0) == right);
    }
}

}
