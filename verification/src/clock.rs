//! Moments in time, their timestamps, and snoozes.
use vstd::prelude::*;

verus! {

/// The last second since the start of 1970 that a timestamp can name.
pub const LAST_SECOND: i64 = 8_210_266_876_799;

/// The last second of the year 9999, the last year of four digits.
pub const LAST_FOUR_DIGIT_SECOND: i64 = 253_402_300_799;

/// The nanoseconds in a second.
pub const NANOS_PER_SECOND: u32 = 1_000_000_000;

/// A moment, in seconds and nanoseconds since the start of 1970, UTC.
#[derive(Debug, Clone, Copy, PartialEq, Eq, Structural)]
pub struct Moment {
    pub secs: i64,
    pub nanos: u32,
}

/// The RFC 3339 timestamp of a moment, in UTC.
pub uninterp spec fn rfc3339_text(secs: i64, nanos: u32) -> Seq<char>;

/// The moment that an RFC 3339 timestamp names, in seconds and nanoseconds since
/// the start of 1970; nothing where the text is no such timestamp.
pub uninterp spec fn rfc3339_moment(text: Seq<char>) -> Option<(i64, u32)>;

impl Moment {
    /// Whether the moment lies between the start of 1970 and the last second that
    /// a timestamp can name.
    pub open spec fn in_range(self) -> bool {
        &&& 0 <= self.secs <= LAST_SECOND
        &&& self.nanos < NANOS_PER_SECOND
    }

    /// The timestamp of the moment.
    pub open spec fn stamp(self) -> Seq<char> {
        rfc3339_text(self.secs, self.nanos)
    }

    /// Whether the moment is not before another.
    pub open spec fn reached(self, other: (i64, u32)) -> bool {
        self.secs > other.0 || (self.secs == other.0 && self.nanos >= other.1)
    }

    /// The moment `seconds` later, at most the last that a timestamp can name.
    pub open spec fn later(self, seconds: int) -> Moment {
        if self.secs + seconds <= LAST_SECOND {
            Moment { secs: (self.secs + seconds) as i64, nanos: self.nanos }
        } else {
            Moment { secs: LAST_SECOND, nanos: self.nanos }
        }
    }

    /// The current moment.
    pub fn now() -> (r: Moment)
        ensures
            r.in_range(),
    {
        let (secs, nanos): (i64, u32) = utc_now();
        Moment { secs, nanos }
    }

    /// The timestamp of the moment.
    pub fn timestamp(self) -> (r: String)
        requires
            self.in_range(),
        ensures
            r@ == self.stamp(),
            self.secs <= LAST_FOUR_DIGIT_SECOND ==> rfc3339_moment(r@) == Some(
                (self.secs, self.nanos),
            ),
    {
        to_rfc3339(self.secs, self.nanos)
    }

    /// The moment `seconds` later, at most the last that a timestamp can name.
    pub fn after(self, seconds: u32) -> (r: Moment)
        requires
            self.in_range(),
        ensures
            r == self.later(seconds as int),
            r.in_range(),
    {
        let secs: i64 = self.secs + seconds as i64;
        if secs <= LAST_SECOND {
            Moment { secs, nanos: self.nanos }
        } else {
            Moment { secs: LAST_SECOND, nanos: self.nanos }
        }
    }
}

/// Whether a text is the timestamp of some moment.
pub open spec fn is_stamp(text: Seq<char>) -> bool {
    exists|m: Moment| m.in_range() && #[trigger] m.stamp() == text
}

/// The timestamp of the current moment.
pub fn timestamp_now() -> (r: String)
    ensures
        is_stamp(r@),
{
    let now = Moment::now();
    let text = now.timestamp();
    assert(now.in_range() && now.stamp() == text@);
    text
}

/// Whether a snooze is over at a given moment. One whose end is no timestamp never
/// holds.
pub open spec fn snooze_over(until: Option<(i64, u32)>, now: Moment) -> bool {
    match until {
        Some(t) => now.reached(t),
        None => true,
    }
}

/// Whether a snooze until the given moment is over.
pub fn snooze_reached(until: Option<(i64, u32)>, now: Moment) -> (r: bool)
    ensures
        r == snooze_over(until, now),
{
    match until {
        Some(t) => now.secs > t.0 || (now.secs == t.0 && now.nanos >= t.1),
        None => true,
    }
}

/// Whether a snooze timestamp is in the past of the given moment. An unparseable
/// timestamp does not snooze.
pub fn snooze_elapsed_at(until: &str, now: Moment) -> (r: bool)
    ensures
        r == snooze_over(rfc3339_moment(until@), now),
{
    snooze_reached(parse_rfc3339(until), now)
}

/// Whether a snooze timestamp (RFC 3339) is in the past: judging may resume.
pub fn snooze_elapsed(until: &str) -> (r: bool)
    ensures
        rfc3339_moment(until@) is None ==> r,
        exists|now: Moment|
            now.in_range() && r == #[trigger] snooze_over(rfc3339_moment(until@), now),
{
    let now = Moment::now();
    let over = snooze_elapsed_at(until, now);
    assert(now.in_range() && over == snooze_over(rfc3339_moment(until@), now));
    over
}

/// A snooze of a number of seconds holds before they have passed, and is over once
/// they have.
pub proof fn snooze_lasts(start: Moment, seconds: u32, now: Moment)
    requires
        start.in_range(),
        now.in_range(),
        start.secs + seconds <= LAST_SECOND,
    ensures
        snooze_over(
            Some((start.later(seconds as int).secs, start.later(seconds as int).nanos)),
            now,
        ) == ((now.secs - start.secs) * NANOS_PER_SECOND + now.nanos - start.nanos >= seconds
            * NANOS_PER_SECOND),
{
}

/// `chrono::Utc::now`, as seconds and nanoseconds since the start of 1970. The
/// reading lies in the range of moments that `chrono` can hold, from 1970 on; on a
/// clock outside that range the outside function does not return. Which moment it
/// is, the machine decides.
#[verifier::external_body]
fn utc_now() -> (r: (i64, u32))
    ensures
        0 <= r.0 <= LAST_SECOND,
        r.1 < NANOS_PER_SECOND,
{
    let now = chrono::Utc::now();
    (now.timestamp(), now.timestamp_subsec_nanos())
}

/// `chrono::DateTime::to_rfc3339` of the moment that
/// `chrono::DateTime::from_timestamp` makes, which is a function of the seconds and
/// nanoseconds alone, here called `rfc3339_text`. Up to the year 9999 the text reads
/// back as the same moment; beyond it the year takes a sign, and nothing is claimed.
#[verifier::external_body]
fn to_rfc3339(secs: i64, nanos: u32) -> (r: String)
    requires
        0 <= secs <= LAST_SECOND,
        nanos < NANOS_PER_SECOND,
    ensures
        r@ == rfc3339_text(secs, nanos),
        secs <= LAST_FOUR_DIGIT_SECOND ==> rfc3339_moment(r@) == Some((secs, nanos)),
{
    chrono::DateTime::from_timestamp(secs, nanos).unwrap().to_rfc3339()
}

/// `chrono::DateTime::parse_from_rfc3339`, with the moment in seconds and
/// nanoseconds since the start of 1970: a function of the text alone, here called
/// `rfc3339_moment`.
#[verifier::external_body]
fn parse_rfc3339(text: &str) -> (r: Option<(i64, u32)>)
    ensures
        r == rfc3339_moment(text@),
{
    match chrono::DateTime::parse_from_rfc3339(text) {
        Ok(t) => Some((t.timestamp(), t.timestamp_subsec_nanos())),
        Err(_) => None,
    }
}

} // verus!
