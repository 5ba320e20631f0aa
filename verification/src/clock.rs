//! Points in time and the timestamps that sessions carry.

use vstd::prelude::*;

verus! {

/// A point in time: whole seconds since the start of 1970 in UTC, and nanoseconds.
/// A leap second is kept as the second before it with a billion or more nanoseconds.
#[derive(Clone, Copy, Debug, PartialEq, Eq)]
pub struct Moment {
    pub seconds: i64,
    pub nanos: u32,
}

impl Moment {
    /// The moment lies in the range of `chrono` and is not split within a second.
    pub open spec fn valid(self) -> bool {
        &&& -8_334_601_228_800 <= self.seconds <= 8_210_266_876_799
        &&& self.nanos < 2_000_000_000
        &&& self.nanos >= 1_000_000_000 ==> self.seconds % 60 == 59
    }

    /// Whether the moment is valid.
    pub fn is_valid(&self) -> (r: bool)
        ensures
            r == self.valid(),
    {
        -8_334_601_228_800 <= self.seconds && self.seconds <= 8_210_266_876_799 && self.nanos
            < 2_000_000_000 && (self.nanos < 1_000_000_000 || (self.seconds >= 0 && self.seconds % 60
            == 59) || (self.seconds < 0 && self.seconds % 60 == -1))
    }

    /// The clock can show the moment: it is valid, not before the start of 1970, and outside
    /// leap seconds.
    pub open spec fn current(self) -> bool {
        &&& self.valid()
        &&& self.seconds >= 0
        &&& self.nanos < 1_000_000_000
    }

    /// The moment lies in the years 1970 to 9999 and outside leap seconds.
    pub open spec fn ordinary(self) -> bool {
        &&& 0 <= self.seconds < 253_402_300_800
        &&& self.nanos < 1_000_000_000
    }
}

/// The moment that `chrono::NaiveDateTime::parse_from_str` reads from a text with the
/// format `%Y-%m-%d %H:%M:%S`.
pub uninterp spec fn read_stamp(text: Seq<char>) -> Option<(i64, u32)>;

/// The text that `chrono` writes for a moment with the format `%Y-%m-%d %H:%M:%S`.
pub uninterp spec fn written_stamp(seconds: i64, nanos: u32) -> Seq<char>;

/// The whole seconds that `chrono` counts from one moment to another.
pub uninterp spec fn counted_seconds(
    later: i64,
    later_nanos: u32,
    earlier: i64,
    earlier_nanos: u32,
) -> i64;

/// `chrono::NaiveDateTime::parse_from_str` depends on the text alone; what it reads lies
/// in its range.
#[verifier::external_body]
fn parse_stamp(text: &str) -> (r: Option<Moment>)
    ensures
        match r {
            Some(m) => read_stamp(text@) == Some((m.seconds, m.nanos)) && m.valid(),
            None => read_stamp(text@) is None,
        },
{
    match chrono::NaiveDateTime::parse_from_str(text, "%Y-%m-%d %H:%M:%S") {
        Ok(then) => Some(
            Moment {
                seconds: then.and_utc().timestamp(),
                nanos: then.and_utc().timestamp_subsec_nanos(),
            },
        ),
        Err(_) => None,
    }
}

/// `chrono`'s `format` depends on the moment alone. What it writes for a moment of the
/// years 1970 to 9999 is read back as the same second.
#[verifier::external_body]
fn write_stamp(at: Moment) -> (r: String)
    requires
        at.valid(),
    ensures
        r@ == written_stamp(at.seconds, at.nanos),
        at.ordinary() ==> read_stamp(r@) == Some((at.seconds, 0u32)),
{
    let moment = chrono::DateTime::from_timestamp(at.seconds, at.nanos).unwrap();
    moment.format("%Y-%m-%d %H:%M:%S").to_string()
}

/// `chrono`'s `signed_duration_since` and `num_seconds`: the difference of two moments
/// rounded towards zero. For two moments outside leap seconds that is the difference of
/// their times; in a leap second the count may differ from it by one.
#[verifier::external_body]
fn count_seconds(later: Moment, earlier: Moment) -> (r: i64)
    requires
        later.valid(),
        earlier.valid(),
    ensures
        r == counted_seconds(later.seconds, later.nanos, earlier.seconds, earlier.nanos),
        -16_544_868_105_601 <= r <= 16_544_868_105_601,
        later.nanos < 1_000_000_000 && earlier.nanos < 1_000_000_000 ==> r == (if later.seconds
            > earlier.seconds && later.nanos < earlier.nanos {
            later.seconds - earlier.seconds - 1
        } else if later.seconds < earlier.seconds && later.nanos > earlier.nanos {
            later.seconds - earlier.seconds + 1
        } else {
            later.seconds - earlier.seconds
        }),
{
    let from = chrono::DateTime::from_timestamp(earlier.seconds, earlier.nanos).unwrap();
    let to = chrono::DateTime::from_timestamp(later.seconds, later.nanos).unwrap();
    to.naive_utc().signed_duration_since(from.naive_utc()).num_seconds()
}

/// `chrono::Utc::now`: a moment at or after the start of 1970.
#[verifier::external_body]
fn utc_now() -> (r: Moment)
    ensures
        r.valid(),
        r.seconds >= 0,
        r.nanos < 1_000_000_000,
{
    let now = chrono::Utc::now();
    Moment { seconds: now.timestamp(), nanos: now.timestamp_subsec_nanos() }
}

/// The current moment.
pub fn now() -> (r: Moment)
    ensures
        r.current(),
{
    utc_now()
}

/// The timestamp of a moment.
pub fn stamp_at(at: Moment) -> (r: String)
    requires
        at.valid(),
    ensures
        r@ == written_stamp(at.seconds, at.nanos),
        at.ordinary() ==> read_stamp(r@) == Some((at.seconds, 0u32)),
{
    write_stamp(at)
}

/// The timestamp of the current moment.
pub fn now_str() -> (r: String)
    ensures
        exists|at: Moment|
            at.current() && r@ == #[trigger] written_stamp(at.seconds, at.nanos),
{
    let at = utc_now();
    write_stamp(at)
}

/// The whole seconds from the moment in a timestamp to `at`, where the timestamp can
/// be read.
pub open spec fn age(text: Seq<char>, at: Moment) -> Option<i64> {
    match read_stamp(text) {
        Some((seconds, nanos)) => Some(counted_seconds(at.seconds, at.nanos, seconds, nanos)),
        None => None,
    }
}

/// The second that a timestamp names, where it can be read.
pub open spec fn stamp_seconds(text: Seq<char>) -> int {
    match read_stamp(text) {
        Some((seconds, nanos)) => seconds as int,
        None => 0,
    }
}

/// The timestamp is that of a whole second before `at`, and neither lies in a leap second.
pub open spec fn is_past(text: Seq<char>, at: Moment) -> bool {
    &&& at.nanos < 1_000_000_000
    &&& read_stamp(text) matches Some((seconds, nanos)) && nanos == 0 && seconds <= at.seconds
}

/// How many whole seconds before `at` the timestamp `text` lies.
pub fn age_at(text: &str, at: Moment) -> (r: Option<i64>)
    requires
        at.valid(),
    ensures
        r == age(text@, at),
        r matches Some(n) ==> -16_544_868_105_601 <= n <= 16_544_868_105_601,
        is_past(text@, at) ==> (r matches Some(n) && n == at.seconds - stamp_seconds(text@)),
{
    match parse_stamp(text) {
        Some(then) => Some(count_seconds(at, then)),
        None => None,
    }
}

} // verus!
