//! Points in time and the retention window, as plain integers.
//!
//! The calendar belongs to `chrono`: reading the clock, writing a point in
//! time as RFC 3339 text and reading such text back are calls into it. What
//! this module decides itself is how far apart two points in time are, and
//! whether that distance lies inside a retention window.

use chrono::{DateTime, FixedOffset, Local};
use vstd::prelude::*;

verus! {

/// A point in time together with the offset of the clock that recorded it.
#[derive(Clone, Copy, Debug, PartialEq, Eq, Structural)]
pub struct Timestamp {
    /// Seconds since 1970-01-01T00:00:00Z, leap seconds not counted.
    pub secs: i64,
    /// Nanoseconds into that second. A value of 1_000_000_000 or more marks
    /// a leap second: the second after `secs`, which `secs` does not count.
    pub nanos: u32,
    /// Seconds that the recording clock was ahead of UTC.
    pub offset: i32,
}

/// How long an entry stays readable after it was written.
#[derive(Clone, Copy, Debug, PartialEq, Eq, Structural)]
pub struct Retention {
    /// Whole seconds of the window.
    pub secs: u64,
    /// Nanoseconds on top of the whole seconds.
    pub subsec_nanos: u32,
}

/// The second within its UTC day at which `secs` falls.
pub open spec fn second_of_day(secs: int) -> int {
    secs % 86_400
}

/// The correction, in seconds, for a leap second at one end of an interval.
///
/// A leap second is written as the second before it plus a billion
/// nanoseconds or more. Where the earlier end is such a second and the later
/// end falls later in its day, the second that the seconds leave uncounted
/// lies inside the interval; where the later end is such a second and falls
/// earlier in its day, one second too many was counted.
pub open spec fn leap_correction(later: Timestamp, earlier: Timestamp) -> int {
    let a = second_of_day(later.secs as int);
    let b = second_of_day(earlier.secs as int);
    if a > b && earlier.nanos >= 1_000_000_000 {
        1
    } else if a < b && later.nanos >= 1_000_000_000 {
        -1
    } else {
        0
    }
}

/// Nanoseconds from `earlier` to `later`; negative where `later` comes first.
/// The offsets play no part: both ends are points on the UTC time line. This
/// is the distance that `chrono` finds between two of its points in time.
pub open spec fn elapsed_nanos(later: Timestamp, earlier: Timestamp) -> int {
    (later.secs - earlier.secs + leap_correction(later, earlier)) * 1_000_000_000 + (later.nanos
        - earlier.nanos)
}

/// The text that `chrono` writes for the point in time `secs`, `nanos`, seen
/// from a clock `offset` seconds ahead of UTC; `None` where `chrono` has no
/// date for `secs`, no time of day for `nanos`, or no zone for `offset`.
pub uninterp spec fn rfc3339_text(secs: int, nanos: int, offset: int) -> Option<Seq<char>>;

/// The point in time that `chrono` reads out of `token` as RFC 3339 text;
/// `None` where it rejects the token.
pub uninterp spec fn rfc3339_instant(token: Seq<char>) -> Option<Timestamp>;

/// Reads the clock with `chrono::Local::now` and takes the result apart into
/// seconds, nanoseconds and the local offset.
///
/// Nothing is claimed of the time itself. What is claimed is that the point
/// in time can be written down again: `chrono` made it, so it has a date, a
/// time of day and a zone for these three numbers. `Local::now` panics on a
/// machine whose clock stands before 1970.
#[verifier::external_body]
pub(crate) fn local_now() -> (now: Timestamp)
    ensures
        now.writable(),
{
    let now = Local::now();
    Timestamp {
        secs: now.timestamp(),
        nanos: now.timestamp_subsec_nanos(),
        offset: now.offset().local_minus_utc(),
    }
}

/// Whether every character of `text` is a visible character of ASCII: none
/// is a space, a control character, or a character beyond `~`.
pub open spec fn is_word(text: Seq<char>) -> bool {
    forall|i: int| 0 <= i < text.len() ==> '!' <= #[trigger] text[i] <= '~'
}

/// Builds the `chrono::DateTime` for `at` (`DateTime::from_timestamp`,
/// `FixedOffset::east_opt`, `with_timezone`) and writes it with
/// `DateTime::to_rfc3339`. The result is `None` where one of the first two
/// refuses its argument; `to_rfc3339` itself cannot fail. What it writes is
/// made of digits and of the signs `+`, `-`, `:`, `.` and `T`, so it is one
/// word in visible ASCII.
#[verifier::external_body]
pub(crate) fn write_rfc3339(at: &Timestamp) -> (text: Option<String>)
    ensures
        text.deep_view() == rfc3339_text(at.secs as int, at.nanos as int, at.offset as int),
        text matches Some(stamp) ==> is_word(stamp@),
{
    let utc = DateTime::from_timestamp(at.secs, at.nanos)?;
    let zone = FixedOffset::east_opt(at.offset)?;
    Some(utc.with_timezone(&zone).to_rfc3339())
}

/// Reads `token` with `chrono::DateTime::parse_from_rfc3339` and takes the
/// result apart as `local_now` does. The result is `None` where `chrono`
/// returns an error.
#[verifier::external_body]
pub(crate) fn read_rfc3339(token: &str) -> (at: Option<Timestamp>)
    ensures
        at == rfc3339_instant(token@),
{
    match DateTime::parse_from_rfc3339(token) {
        Ok(t) => Some(
            Timestamp {
                secs: t.timestamp(),
                nanos: t.timestamp_subsec_nanos(),
                offset: t.offset().local_minus_utc(),
            },
        ),
        Err(_) => None,
    }
}

impl Timestamp {
    /// Whether `chrono` can write this point in time as RFC 3339 text.
    pub open spec fn writable(self) -> bool {
        rfc3339_text(self.secs as int, self.nanos as int, self.offset as int) is Some
    }

    /// The RFC 3339 text of a writable point in time.
    pub open spec fn text(self) -> Seq<char>
        recommends
            self.writable(),
    {
        rfc3339_text(self.secs as int, self.nanos as int, self.offset as int).unwrap()
    }

    /// Nanoseconds from `earlier` to `self`.
    pub fn nanos_since(&self, earlier: &Timestamp) -> (r: i128)
        ensures
            r == elapsed_nanos(*self, *earlier),
    {
        let a = day_second(self.secs);
        let b = day_second(earlier.secs);
        let correction: i128 = if a > b && earlier.nanos >= 1_000_000_000 {
            1
        } else if a < b && self.nanos >= 1_000_000_000 {
            -1
        } else {
            0
        };
        let secs: i128 = self.secs as i128 - earlier.secs as i128 + correction;
        secs * 1_000_000_000i128 + (self.nanos as i128 - earlier.nanos as i128)
    }
}

/// Computes `second_of_day`.
fn day_second(secs: i64) -> (r: i64)
    ensures
        r == second_of_day(secs as int),
{
    let r: i64 = secs % 86_400i64;
    if r < 0 {
        r + 86_400
    } else {
        r
    }
}

impl Retention {
    /// The window's length in nanoseconds.
    pub open spec fn nanos(self) -> int {
        self.secs * 1_000_000_000 + self.subsec_nanos
    }

    /// Whether an entry written at `then` is still inside the window at
    /// `now`: it is while less than the window's length has passed.
    pub open spec fn covers(self, now: Timestamp, then: Timestamp) -> bool {
        elapsed_nanos(now, then) < self.nanos()
    }

    /// A window of `days` whole days.
    pub fn days(days: u32) -> (r: Retention)
        ensures
            r.secs == days * 86_400,
            r.subsec_nanos == 0,
    {
        Retention { secs: (days as u64) * 86_400u64, subsec_nanos: 0 }
    }

    /// A window of `secs` whole seconds.
    pub fn seconds(secs: u64) -> (r: Retention)
        ensures
            r.secs == secs,
            r.subsec_nanos == 0,
    {
        Retention { secs, subsec_nanos: 0 }
    }

    /// Decides `covers` for two given points in time.
    pub fn is_within(&self, now: &Timestamp, then: &Timestamp) -> (r: bool)
        ensures
            r == self.covers(*now, *then),
    {
        let window: i128 = (self.secs as i128) * 1_000_000_000i128 + (self.subsec_nanos as i128);
        now.nanos_since(then) < window
    }
}

impl Default for Retention {
    /// The window that the relay keeps its log for: seven days.
    fn default() -> (r: Retention)
        ensures
            r.secs == 604_800,
            r.subsec_nanos == 0,
    {
        Retention { secs: 604_800, subsec_nanos: 0 }
    }
}

} // verus!
