//! Instants of UTC time, held as plain integers.
//!
//! A [`Timestamp`] stands for a `chrono::DateTime<Utc>`: it holds the two
//! numbers that chrono itself documents as a faithful image of such a value,
//! the count of non-leap seconds since the Unix epoch and the nanoseconds
//! since the last whole second. Ordering is decided on those numbers here;
//! reading and writing RFC 3339 text and moving an instant by days is
//! chrono's work.

use vstd::prelude::*;

verus! {

/// The first second that has an instant: midnight of 1 January of the year -262143.
pub const MIN_SECONDS: i64 = -8_334_601_228_800;

/// The last second that has an instant: 23:59:59 of 31 December of the year 262142.
pub const MAX_SECONDS: i64 = 8_210_266_876_799;

/// The length of a day without a leap second.
pub const SECONDS_PER_DAY: i64 = 86_400;

/// Nanoseconds in a second. A count at or above it marks a leap second.
pub const NANOS_PER_SECOND: u32 = 1_000_000_000;

/// The largest number of days that chrono accepts as one span of time.
pub const MAX_SPAN_DAYS: u64 = 106_751_991_167;

/// The mathematical value of a [`Timestamp`].
pub struct Instant {
    /// Non-leap seconds since 1970-01-01T00:00:00Z.
    pub secs: int,
    /// Nanoseconds since the last whole second; within a leap second, one
    /// thousand million more.
    pub nanos: int,
}

impl Instant {
    /// The instants that a `chrono::DateTime<Utc>` can hold. Only the last
    /// second of a minute can be stretched by a leap second.
    pub open spec fn valid(self) -> bool {
        &&& MIN_SECONDS <= self.secs <= MAX_SECONDS
        &&& 0 <= self.nanos < 2 * NANOS_PER_SECOND
        &&& self.nanos >= NANOS_PER_SECOND ==> self.secs % 60 == 59
    }

    /// Chronological order: by second, then by nanosecond.
    pub open spec fn le(self, other: Instant) -> bool {
        self.secs < other.secs || (self.secs == other.secs && self.nanos <= other.nanos)
    }

    /// The instant `days` days later, where there is one. A move out of a
    /// leap second lands on the ordinary second of that name.
    pub open spec fn plus_days(self, days: int) -> Option<Instant> {
        if days == 0 {
            Some(self)
        } else {
            let moved = Instant {
                secs: self.secs + SECONDS_PER_DAY * days,
                nanos: if self.nanos >= NANOS_PER_SECOND {
                    self.nanos - NANOS_PER_SECOND
                } else {
                    self.nanos
                },
            };
            if moved.secs <= MAX_SECONDS {
                Some(moved)
            } else {
                None
            }
        }
    }
}

/// What `str::parse::<chrono::DateTime<Utc>>` makes of a text: the instant
/// that it names, if it is a date and time in chrono's relaxed RFC 3339 form.
pub uninterp spec fn instant_of_text(text: Seq<char>) -> Option<Instant>;

/// What `chrono::DateTime::<Utc>::to_rfc3339` writes for an instant.
pub uninterp spec fn text_of_instant(at: Instant) -> Seq<char>;

/// chrono's account of why a text is no timestamp. Nothing is read from it.
#[verifier::external_type_specification]
#[verifier::external_body]
pub struct ExParseError(chrono::ParseError);

/// Why a text was not taken as a timestamp.
#[derive(Clone, Copy, Debug, PartialEq, Eq, Structural)]
pub enum TimestampError {
    /// The text is not a date and time with an offset from UTC.
    Malformed,
}

/// An instant of UTC time.
#[derive(Clone, Copy, Debug, PartialEq, Eq, Structural)]
pub struct Timestamp {
    secs: i64,
    nanos: u32,
}

impl View for Timestamp {
    type V = Instant;

    closed spec fn view(&self) -> Instant {
        Instant { secs: self.secs as int, nanos: self.nanos as int }
    }
}

/// `chrono::Utc::now`, taken apart into seconds and nanoseconds. Which
/// instant comes back is the clock's affair; trusted is only that it is one
/// that chrono can hold. Where the system clock stands before 1970, chrono
/// gives up.
#[verifier::external_body]
fn clock() -> (r: Timestamp)
    ensures
        r@.valid(),
{
    let now = chrono::Utc::now();
    Timestamp { secs: now.timestamp(), nanos: now.timestamp_subsec_nanos() }
}

/// `str::parse::<chrono::DateTime<Utc>>`. Trusted: the outcome is a function
/// of the text alone, named [`instant_of_text`], and an instant that was read
/// is one that chrono can hold.
#[verifier::external_body]
fn read_rfc3339(text: &str) -> (r: Result<Timestamp, chrono::ParseError>)
    ensures
        r is Ok <==> instant_of_text(text@) is Some,
        r matches Ok(t) ==> instant_of_text(text@) == Some(t@) && t@.valid(),
{
    let parsed = text.parse::<chrono::DateTime<chrono::Utc>>()?;
    Ok(Timestamp { secs: parsed.timestamp(), nanos: parsed.timestamp_subsec_nanos() })
}

/// `chrono::DateTime::<Utc>::to_rfc3339` on the instant that
/// `DateTime::from_timestamp` builds. Trusted: a valid instant is built
/// without fail, and the text is a function of the instant alone, named
/// [`text_of_instant`].
#[verifier::external_body]
fn write_rfc3339(at: Timestamp) -> (r: String)
    requires
        at@.valid(),
    ensures
        r@ == text_of_instant(at@),
{
    chrono::DateTime::from_timestamp(at.secs, at.nanos).unwrap().to_rfc3339()
}

/// `chrono::DateTime::checked_add_signed` with `chrono::TimeDelta::days`.
/// Trusted: a span of up to [`MAX_SPAN_DAYS`] days is built without fail; the
/// sum is [`Instant::plus_days`], that is the same time of day so many days
/// on, out of a leap second where it started in one, and nothing where the
/// day would lie after the year 262142.
#[verifier::external_body]
fn shift_days(at: Timestamp, days: i64) -> (r: Option<Timestamp>)
    requires
        at@.valid(),
        0 <= days <= MAX_SPAN_DAYS,
    ensures
        r is Some <==> at@.plus_days(days as int) is Some,
        r matches Some(t) ==> at@.plus_days(days as int) == Some(t@) && t@.valid(),
{
    let start = chrono::DateTime::from_timestamp(at.secs, at.nanos).unwrap();
    let moved = start.checked_add_signed(chrono::TimeDelta::days(days));
    moved.map(|m| Timestamp { secs: m.timestamp(), nanos: m.timestamp_subsec_nanos() })
}

impl Timestamp {
    /// Every timestamp holds an instant that chrono can hold.
    #[verifier::type_invariant]
    pub open spec fn holds_an_instant(self) -> bool {
        self@.valid()
    }

    /// Two timestamps of one instant are one timestamp.
    pub proof fn lemma_view_is_injective(self, other: Timestamp)
        requires
            self@ == other@,
        ensures
            self == other,
    {
    }

    /// The timestamp of the given second and nanosecond, if chrono can hold
    /// that instant.
    pub fn new(secs: i64, nanos: u32) -> (r: Option<Timestamp>)
        ensures
            r is Some <==> (Instant { secs: secs as int, nanos: nanos as int }).valid(),
            r matches Some(t) ==> t@ == (Instant { secs: secs as int, nanos: nanos as int }),
    {
        if secs < MIN_SECONDS || secs > MAX_SECONDS || nanos >= 2 * NANOS_PER_SECOND {
            return None;
        }
        let since_min: i64 = secs - MIN_SECONDS;
        assert(since_min % 60 == secs as int % 60) by {
            vstd::arithmetic::div_mod::lemma_mod_multiples_vanish(
                138_910_020_480,
                secs as int,
                60,
            );
        }
        if nanos >= NANOS_PER_SECOND && since_min % 60 != 59 {
            return None;
        }
        Some(Timestamp { secs, nanos })
    }

    /// The present instant, as the system clock has it.
    pub fn now() -> (r: Timestamp)
        ensures
            r@.valid(),
    {
        clock()
    }

    /// Non-leap seconds since 1970-01-01T00:00:00Z.
    pub fn seconds(&self) -> (r: i64)
        ensures
            r == self@.secs,
    {
        self.secs
    }

    /// Nanoseconds since the last whole second.
    pub fn subsec_nanos(&self) -> (r: u32)
        ensures
            r == self@.nanos,
    {
        self.nanos
    }

    /// Reads a timestamp from RFC 3339 text, as chrono reads it.
    pub fn parse(text: &str) -> (r: Result<Timestamp, TimestampError>)
        ensures
            r is Ok <==> instant_of_text(text@) is Some,
            r matches Ok(t) ==> instant_of_text(text@) == Some(t@) && t@.valid(),
    {
        match read_rfc3339(text) {
            Ok(t) => Ok(t),
            Err(_) => Err(TimestampError::Malformed),
        }
    }

    /// The RFC 3339 text of this timestamp, with its offset from UTC.
    pub fn to_rfc3339(&self) -> (r: String)
        ensures
            r@ == text_of_instant(self@),
    {
        proof {
            use_type_invariant(self);
        }
        write_rfc3339(*self)
    }

    /// Whether this instant is `other` or comes before it.
    pub fn le(&self, other: &Timestamp) -> (r: bool)
        ensures
            r == self@.le(other@),
    {
        self.secs < other.secs || (self.secs == other.secs && self.nanos <= other.nanos)
    }

    /// The instant `days` days after this one, or nothing where chrono has
    /// no such instant.
    pub fn plus_days(&self, days: u64) -> (r: Option<Timestamp>)
        ensures
            r is Some <==> self@.plus_days(days as int) is Some,
            r matches Some(t) ==> self@.plus_days(days as int) == Some(t@) && t@.valid(),
    {
        proof {
            use_type_invariant(self);
        }
        if days > MAX_SPAN_DAYS {
            assert(self@.secs + SECONDS_PER_DAY * days > MAX_SECONDS) by (nonlinear_arith)
                requires
                    self@.secs >= MIN_SECONDS,
                    days > MAX_SPAN_DAYS,
            ;
            None
        } else {
            shift_days(*self, days as i64)
        }
    }
}

} // verus!
