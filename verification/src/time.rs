//! Instants on the UTC time line and whole-day arithmetic on them.
//!
//! A [`Timestamp`] is a count of seconds since 1970-01-01T00:00:00Z together
//! with a count of nanoseconds inside that second. Its view is the instant as
//! one integer: nanoseconds since the epoch. Every contract in this crate that
//! speaks of time speaks of those integers.

use std::time::{SystemTime, UNIX_EPOCH};
use vstd::prelude::*;

verus! {

/// Nanoseconds in one second.
pub const NANOS_PER_SECOND: u32 = 1_000_000_000;

/// Nanoseconds in one day of 86 400 seconds.
pub const NANOS_PER_DAY: i128 = 86_400_000_000_000;

/// Seconds since the epoch of the earliest instant a [`Timestamp`] holds:
/// the first second of the proleptic Gregorian year -262143.
pub const MIN_SECONDS: i64 = -8_334_601_228_800;

/// Seconds since the epoch of the last second a [`Timestamp`] holds:
/// the last second of the year 262142.
pub const MAX_SECONDS: i64 = 8_210_266_876_799;

/// Whether a pair of seconds and nanoseconds is an instant that a
/// [`Timestamp`] holds.
pub open spec fn representable(secs: i64, nanos: u32) -> bool {
    MIN_SECONDS <= secs <= MAX_SECONDS && nanos < NANOS_PER_SECOND
}

/// The instant `secs` seconds and `nanos` nanoseconds after the epoch, in
/// nanoseconds.
pub open spec fn instant(secs: i64, nanos: u32) -> int {
    secs * 1_000_000_000 + nanos
}

/// The number of whole days in a span of `nanos` nanoseconds, rounded towards
/// zero: a span of 47 hours holds one day, and so does a span of -47 hours,
/// counted as -1.
pub open spec fn whole_days(nanos: int) -> int {
    if nanos >= 0 {
        nanos / (NANOS_PER_DAY as int)
    } else {
        -((-nanos) / (NANOS_PER_DAY as int))
    }
}

/// The whole seconds in a span of `nanos` nanoseconds, rounded towards zero.
pub open spec fn whole_seconds(nanos: int) -> int {
    if nanos >= 0 {
        nanos / (NANOS_PER_SECOND as int)
    } else {
        -((-nanos) / (NANOS_PER_SECOND as int))
    }
}

/// The whole days in a span are the whole days in its whole seconds, at
/// 86 400 seconds to the day and rounded towards zero: counting days from
/// nanoseconds loses nothing against counting them from seconds.
pub proof fn law_whole_days_by_seconds(nanos: int)
    ensures
        whole_days(nanos) == if nanos >= 0 {
            whole_seconds(nanos) / 86_400
        } else {
            -((-whole_seconds(nanos)) / 86_400)
        },
{
    let span = if nanos >= 0 {
        nanos
    } else {
        -nanos
    };
    vstd::arithmetic::div_mod::lemma_div_denominator(span, 1_000_000_000, 86_400);
}

/// What `chrono` reads in a piece of text as a date and time with an offset,
/// in its relaxed form of RFC 3339: the seconds since the epoch and the
/// nanoseconds of the instant read, or `None` where the text is no such date.
pub uninterp spec fn rfc3339_reading(text: Seq<char>) -> Option<(i64, u32)>;

/// How `chrono` writes an instant in UTC under a `strftime` pattern.
pub uninterp spec fn formatted(secs: i64, nanos: u32, pattern: Seq<char>) -> Seq<char>;

/// The pattern of an instant shown to the user: date, time of day to the
/// second, and the letters `UTC`.
pub const DISPLAY_PATTERN: &'static str = "%Y-%m-%d %H:%M:%S UTC";

/// The pattern of an instant kept beside stored settings: date and time of
/// day to the second.
pub const STAMP_PATTERN: &'static str = "%Y-%m-%d %H:%M:%S";

/// The pattern of an instant inside a file name: date and time of day to the
/// second, digits and one underscore.
pub const FILE_PATTERN: &'static str = "%Y%m%d_%H%M%S";

/// Whether a pattern is one of those under which this crate writes instants.
pub open spec fn known_pattern(pattern: Seq<char>) -> bool {
    pattern == DISPLAY_PATTERN@ || pattern == STAMP_PATTERN@ || pattern == FILE_PATTERN@
}

/// An instant, given in nanoseconds since the epoch, written under a
/// pattern.
pub open spec fn instant_under(instant: int, pattern: Seq<char>) -> Seq<char> {
    formatted((instant / 1_000_000_000) as i64, (instant % 1_000_000_000) as u32, pattern)
}

/// An instant, given in nanoseconds since the epoch, as text for display.
pub open spec fn instant_text(instant: int) -> Seq<char> {
    instant_under(instant, DISPLAY_PATTERN@)
}

/// Whether a pair of seconds and nanoseconds can be read as an instant that
/// a [`Timestamp`] holds. The nanoseconds may amount to a second and more,
/// which is how `chrono` writes a leap second; they are then counted on, so
/// that a leap second is read as the second that follows it.
pub open spec fn readable(secs: i64, nanos: u32) -> bool {
    MIN_SECONDS <= secs && nanos < 2 * NANOS_PER_SECOND && secs + nanos / NANOS_PER_SECOND
        <= MAX_SECONDS
}

/// The instant that a piece of text denotes, or `None` where it denotes none
/// that a [`Timestamp`] holds.
pub open spec fn parsed_instant(text: Seq<char>) -> Option<int> {
    match rfc3339_reading(text) {
        Some((secs, nanos)) => if readable(secs, nanos) {
            Some(instant(secs, nanos))
        } else {
            None
        },
        None => None,
    }
}

/// Calls `std::time::SystemTime::now` and measures the reading against
/// `UNIX_EPOCH` with `SystemTime::duration_since`: the whole seconds and the
/// nanoseconds since the epoch, or `None` where the clock stands before it.
///
/// Trusted: nothing; whatever comes back is examined by the caller.
#[verifier::external_body]
fn clock_reading() -> (elapsed: Option<(u64, u32)>) {
    match SystemTime::now().duration_since(UNIX_EPOCH) {
        Ok(elapsed) => Some((elapsed.as_secs(), elapsed.subsec_nanos())),
        Err(_) => None,
    }
}

/// Calls `str::parse` for `chrono::DateTime<chrono::Utc>` and takes the
/// result apart with `DateTime::timestamp` and
/// `DateTime::timestamp_subsec_nanos`.
///
/// Trusted: that the result depends on the text alone.
#[verifier::external_body]
fn read_rfc3339(text: &str) -> (parts: Option<(i64, u32)>)
    ensures
        parts == rfc3339_reading(text@),
{
    match text.parse::<chrono::DateTime<chrono::Utc>>() {
        Ok(read) => Some((read.timestamp(), read.timestamp_subsec_nanos())),
        Err(_) => None,
    }
}

/// Calls `chrono::DateTime::from_timestamp` and writes the instant with
/// `DateTime::format` under the given pattern.
///
/// Trusted: that the text depends on the instant and the pattern alone. The
/// `requires` keeps to the instants for which `from_timestamp` returns a
/// value, and to patterns made of the specifiers for year, month, day, hour,
/// minute and second, which `chrono` can write for every such instant.
#[verifier::external_body]
fn write_instant(secs: i64, nanos: u32, pattern: &str) -> (text: String)
    requires
        representable(secs, nanos),
        known_pattern(pattern@),
    ensures
        text@ == formatted(secs, nanos, pattern@),
{
    chrono::DateTime::from_timestamp(secs, nanos).unwrap().format(pattern).to_string()
}

/// An instant in UTC with nanosecond resolution.
#[derive(Clone, Copy, Debug, PartialEq, Eq)]
pub struct Timestamp {
    pub(crate) secs: i64,
    pub(crate) nanos: u32,
}

impl View for Timestamp {
    type V = int;

    /// Nanoseconds since the epoch.
    open spec fn view(&self) -> int {
        instant(self.spec_seconds(), self.spec_subsec_nanos())
    }
}

impl Timestamp {
    #[verifier::type_invariant]
    pub closed spec fn well_formed(self) -> bool {
        representable(self.secs, self.nanos)
    }

    /// Whole seconds since the epoch.
    pub closed spec fn spec_seconds(&self) -> i64 {
        self.secs
    }

    /// Nanoseconds since the last whole second.
    pub closed spec fn spec_subsec_nanos(&self) -> u32 {
        self.nanos
    }

    /// The instant `secs` seconds and `nanos` nanoseconds after the epoch, or
    /// `None` where no `Timestamp` holds it.
    pub fn new(secs: i64, nanos: u32) -> (made: Option<Timestamp>)
        ensures
            made is Some <==> representable(secs, nanos),
            made matches Some(t) ==> t.spec_seconds() == secs && t.spec_subsec_nanos() == nanos,
    {
        if MIN_SECONDS <= secs && secs <= MAX_SECONDS && nanos < NANOS_PER_SECOND {
            Some(Timestamp { secs, nanos })
        } else {
            None
        }
    }

    /// The instant `secs` seconds and `nanos` nanoseconds after the epoch,
    /// where the nanoseconds may amount to a second and more; `None` where no
    /// `Timestamp` holds it. This is the way in for what `chrono` holds: it
    /// writes a leap second as the last second of a minute with a second or
    /// more of nanoseconds, and that is read here as the second that follows.
    pub fn from_reading(secs: i64, nanos: u32) -> (made: Option<Timestamp>)
        ensures
            made is Some <==> readable(secs, nanos),
            made matches Some(t) ==> t@ == instant(secs, nanos),
    {
        if nanos < NANOS_PER_SECOND {
            Timestamp::new(secs, nanos)
        } else if nanos < 2 * NANOS_PER_SECOND && MIN_SECONDS <= secs && secs < MAX_SECONDS {
            Timestamp::new(secs + 1, nanos - NANOS_PER_SECOND)
        } else {
            None
        }
    }

    /// The instant the system clock shows, or `None` where the clock shows
    /// none that a `Timestamp` holds: one before the epoch, or one after the
    /// last year that can be written. Which instant is read, no contract can
    /// say; a reading never lies before the epoch.
    pub fn now() -> (read: Option<Timestamp>)
        ensures
            read matches Some(t) ==> 0 <= t.spec_seconds() <= MAX_SECONDS && t.spec_subsec_nanos()
                < NANOS_PER_SECOND,
    {
        match clock_reading() {
            Some((secs, nanos)) => {
                if secs <= MAX_SECONDS as u64 {
                    Timestamp::new(secs as i64, nanos)
                } else {
                    None
                }
            },
            None => None,
        }
    }

    /// Reads a date and time with an offset, such as
    /// `2031-05-15T08:30:00Z`, as an instant.
    pub fn parse(text: &str) -> (read: Option<Timestamp>)
        ensures
            read is Some <==> parsed_instant(text@) is Some,
            read matches Some(t) ==> Some(t@) == parsed_instant(text@),
    {
        match read_rfc3339(text) {
            Some((secs, nanos)) => Timestamp::from_reading(secs, nanos),
            None => None,
        }
    }

    /// The instant as text for display: date and time of day to the second,
    /// in UTC.
    pub fn display_utc(&self) -> (text: String)
        ensures
            text@ == instant_text(self@),
    {
        self.write(DISPLAY_PATTERN)
    }

    /// The instant as it is kept beside stored settings: date and time of
    /// day to the second.
    pub fn stamp(&self) -> (text: String)
        ensures
            text@ == instant_under(self@, STAMP_PATTERN@),
    {
        self.write(STAMP_PATTERN)
    }

    /// The instant as part of a file name.
    pub fn file_stamp(&self) -> (text: String)
        ensures
            text@ == instant_under(self@, FILE_PATTERN@),
    {
        self.write(FILE_PATTERN)
    }

    /// The instant written under one of the patterns of this crate.
    fn write(&self, pattern: &str) -> (text: String)
        requires
            known_pattern(pattern@),
        ensures
            text@ == instant_under(self@, pattern@),
    {
        proof {
            use_type_invariant(self);
            assert(self@ / 1_000_000_000 == self.secs);
            assert(self@ % 1_000_000_000 == self.nanos);
        }
        write_instant(self.secs, self.nanos, pattern)
    }

    /// Whole seconds since the epoch.
    #[verifier::when_used_as_spec(spec_seconds)]
    pub fn seconds(&self) -> (secs: i64)
        ensures
            secs == self.spec_seconds(),
            MIN_SECONDS <= secs <= MAX_SECONDS,
    {
        proof {
            use_type_invariant(self);
        }
        self.secs
    }

    /// Nanoseconds since the last whole second.
    #[verifier::when_used_as_spec(spec_subsec_nanos)]
    pub fn subsec_nanos(&self) -> (nanos: u32)
        ensures
            nanos == self.spec_subsec_nanos(),
            nanos < NANOS_PER_SECOND,
    {
        proof {
            use_type_invariant(self);
        }
        self.nanos
    }

    /// The instant as nanoseconds since the epoch.
    pub fn total_nanos(&self) -> (nanos: i128)
        ensures
            nanos == self@,
            MIN_SECONDS * 1_000_000_000 <= nanos < (MAX_SECONDS + 1) * 1_000_000_000,
    {
        proof {
            use_type_invariant(self);
        }
        (self.secs as i128) * 1_000_000_000 + (self.nanos as i128)
    }

    /// Whether this instant lies strictly before `other`.
    pub fn is_before(&self, other: &Timestamp) -> (before: bool)
        ensures
            before == (self@ < other@),
    {
        self.total_nanos() < other.total_nanos()
    }

    /// The number of whole days from `earlier` to this instant, rounded
    /// towards zero; negative where `earlier` lies a day or more after it.
    pub fn whole_days_since(&self, earlier: &Timestamp) -> (days: i64)
        ensures
            days == whole_days(self@ - earlier@),
    {
        let span: i128 = self.total_nanos() - earlier.total_nanos();
        if span >= 0 {
            (span / NANOS_PER_DAY) as i64
        } else {
            -(((-span) / NANOS_PER_DAY) as i64)
        }
    }
}

} // verus!
