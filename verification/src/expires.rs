//! Session expiry: spans of time, instants, and the expiry of a session.
use vstd::prelude::*;

verus! {

/// The earliest instant that can be represented: -9999-01-01T00:00:00Z, in seconds since the
/// Unix epoch.
pub const MIN_UNIX_TIMESTAMP: i64 = -377705116800i64;

/// The latest whole second that can be represented: 9999-12-31T23:59:59Z, in seconds since the
/// Unix epoch.
pub const MAX_UNIX_TIMESTAMP: i64 = 253402300799i64;

/// The earliest instant that can be represented, in nanoseconds since the Unix epoch.
pub const MIN_UNIX_TIMESTAMP_NANOS: i128 = -377705116800000000000i128;

/// The latest instant that can be represented, in nanoseconds since the Unix epoch.
pub const MAX_UNIX_TIMESTAMP_NANOS: i128 = 253402300799999999999i128;

/// Nanoseconds in a second.
pub const NANOS_PER_SECOND: i128 = 1000000000i128;

/// A span of time, which may be negative: whole seconds and the nanoseconds beyond them.
///
/// Both parts have the same sign, and the nanoseconds are fewer than a second.
#[derive(Copy, Clone, Debug, PartialEq, Eq, PartialOrd, Ord, Hash, Structural)]
pub struct Duration {
    seconds: i64,
    nanoseconds: i32,
}

impl Duration {
    #[verifier::type_invariant]
    spec fn well_formed(self) -> bool {
        &&& -1_000_000_000 < self.nanoseconds < 1_000_000_000
        &&& (self.seconds > 0 ==> self.nanoseconds >= 0)
        &&& (self.seconds < 0 ==> self.nanoseconds <= 0)
    }

    /// The whole seconds of the span, rounded toward zero.
    pub closed spec fn spec_whole_seconds(self) -> i64 {
        self.seconds
    }

    /// The nanoseconds of the span beyond its whole seconds.
    pub closed spec fn spec_subsec_nanoseconds(self) -> i32 {
        self.nanoseconds
    }

    /// The length of the span in nanoseconds.
    pub open spec fn total_nanoseconds(self) -> int {
        self.spec_whole_seconds() * 1_000_000_000 + self.spec_subsec_nanoseconds()
    }

    /// A span of the given number of seconds.
    pub fn seconds(seconds: i64) -> (d: Duration)
        ensures
            d.spec_whole_seconds() == seconds,
            d.spec_subsec_nanoseconds() == 0,
            d.total_nanoseconds() == seconds * 1_000_000_000,
    {
        Duration { seconds, nanoseconds: 0 }
    }

    /// A span of the given number of minutes.
    pub fn minutes(minutes: i64) -> (d: Duration)
        requires
            i64::MIN <= minutes * 60 <= i64::MAX,
        ensures
            d.spec_whole_seconds() == minutes * 60,
            d.spec_subsec_nanoseconds() == 0,
    {
        Duration::seconds(minutes * 60)
    }

    /// A span of the given number of hours.
    pub fn hours(hours: i64) -> (d: Duration)
        requires
            i64::MIN <= hours * 3600 <= i64::MAX,
        ensures
            d.spec_whole_seconds() == hours * 3600,
            d.spec_subsec_nanoseconds() == 0,
    {
        Duration::seconds(hours * 3600)
    }

    /// A span of the given number of days.
    pub fn days(days: i64) -> (d: Duration)
        requires
            i64::MIN <= days * 86400 <= i64::MAX,
        ensures
            d.spec_whole_seconds() == days * 86400,
            d.spec_subsec_nanoseconds() == 0,
    {
        Duration::seconds(days * 86400)
    }

    /// A span of the given number of weeks.
    pub fn weeks(weeks: i64) -> (d: Duration)
        requires
            i64::MIN <= weeks * 604800 <= i64::MAX,
        ensures
            d.spec_whole_seconds() == weeks * 604800,
            d.spec_subsec_nanoseconds() == 0,
    {
        Duration::seconds(weeks * 604800)
    }

    /// The whole seconds of the span, rounded toward zero.
    pub fn whole_seconds(&self) -> (s: i64)
        ensures
            s == self.spec_whole_seconds(),
            -1_000_000_000 < self.spec_subsec_nanoseconds() < 1_000_000_000,
            s > 0 ==> self.spec_subsec_nanoseconds() >= 0,
            s < 0 ==> self.spec_subsec_nanoseconds() <= 0,
    {
        proof {
            use_type_invariant(self);
        }
        self.seconds
    }

    /// The nanoseconds of the span beyond its whole seconds; negative for a negative span.
    pub fn subsec_nanoseconds(&self) -> (n: i32)
        ensures
            n == self.spec_subsec_nanoseconds(),
    {
        self.nanoseconds
    }

    /// The span of `nanos` nanoseconds.
    pub fn from_nanoseconds(nanos: i128) -> (d: Duration)
        requires
            -0x8000_0000_0000_0000 * 1_000_000_000 < nanos < 0x8000_0000_0000_0000 * 1_000_000_000,
        ensures
            d.total_nanoseconds() == nanos,
    {
        // Rust's `/` and `%` round toward zero, so both parts take the sign of `nanos`.
        let (seconds, rest) = if nanos >= 0 {
            (nanos / NANOS_PER_SECOND, nanos % NANOS_PER_SECOND)
        } else {
            (-((-nanos) / NANOS_PER_SECOND), -((-nanos) % NANOS_PER_SECOND))
        };
        Duration { seconds: seconds as i64, nanoseconds: rest as i32 }
    }
}

/// An instant, as nanoseconds since the Unix epoch (1970-01-01T00:00:00Z).
///
/// Only instants from the year -9999 to the year 9999 can be represented.
#[derive(Copy, Clone, Debug, PartialEq, Eq, PartialOrd, Ord, Hash, Structural)]
pub struct DateTime {
    unix_timestamp_nanos: i128,
}

/// The instants that a [`DateTime`] can hold.
pub open spec fn in_date_range(nanos: int) -> bool {
    MIN_UNIX_TIMESTAMP_NANOS <= nanos <= MAX_UNIX_TIMESTAMP_NANOS
}

/// The current time, from `time::OffsetDateTime::now_utc`, in nanoseconds since the Unix
/// epoch (`OffsetDateTime::unix_timestamp_nanos`).
///
/// Trusted: the result lies in the range of instants that the `time` crate represents
/// (years -9999 to 9999). What the clock says is not stated.
#[verifier::external_body]
fn now_utc_unix_timestamp_nanos() -> (nanos: i128)
    ensures
        in_date_range(nanos as int),
{
    time::OffsetDateTime::now_utc().unix_timestamp_nanos()
}

impl DateTime {
    #[verifier::type_invariant]
    spec fn well_formed(self) -> bool {
        in_date_range(self.unix_timestamp_nanos as int)
    }

    /// The instant in nanoseconds since the Unix epoch.
    pub closed spec fn spec_unix_timestamp_nanos(self) -> int {
        self.unix_timestamp_nanos as int
    }

    /// The current time.
    pub fn now_utc() -> (now: DateTime)
        ensures
            in_date_range(now.spec_unix_timestamp_nanos()),
    {
        DateTime { unix_timestamp_nanos: now_utc_unix_timestamp_nanos() }
    }

    /// The instant `nanos` nanoseconds after the Unix epoch; `None` outside the representable
    /// range.
    pub fn from_unix_timestamp_nanos(nanos: i128) -> (result: Option<DateTime>)
        ensures
            result is Some <==> in_date_range(nanos as int),
            result matches Some(t) ==> t.spec_unix_timestamp_nanos() == nanos,
    {
        if MIN_UNIX_TIMESTAMP_NANOS <= nanos && nanos <= MAX_UNIX_TIMESTAMP_NANOS {
            Some(DateTime { unix_timestamp_nanos: nanos })
        } else {
            None
        }
    }

    /// The instant `seconds` seconds after the Unix epoch; `None` outside the representable
    /// range.
    pub fn from_unix_timestamp(seconds: i64) -> (result: Option<DateTime>)
        ensures
            result is Some <==> MIN_UNIX_TIMESTAMP <= seconds <= MAX_UNIX_TIMESTAMP,
            result matches Some(t) ==> t.spec_unix_timestamp_nanos() == seconds * 1_000_000_000,
    {
        if MIN_UNIX_TIMESTAMP <= seconds && seconds <= MAX_UNIX_TIMESTAMP {
            Some(DateTime { unix_timestamp_nanos: (seconds as i128) * NANOS_PER_SECOND })
        } else {
            None
        }
    }

    /// The instant in nanoseconds since the Unix epoch.
    pub fn unix_timestamp_nanos(&self) -> (nanos: i128)
        ensures
            nanos == self.spec_unix_timestamp_nanos(),
            in_date_range(nanos as int),
    {
        proof {
            use_type_invariant(self);
        }
        self.unix_timestamp_nanos
    }

    /// The span from `earlier` to `self`: negative when `earlier` is later.
    pub fn since(&self, earlier: DateTime) -> (d: Duration)
        ensures
            d.total_nanoseconds() == self.spec_unix_timestamp_nanos()
                - earlier.spec_unix_timestamp_nanos(),
    {
        proof {
            use_type_invariant(self);
            use_type_invariant(earlier);
        }
        Duration::from_nanoseconds(self.unix_timestamp_nanos - earlier.unix_timestamp_nanos)
    }

    /// The instant `d` after `self`; `None` outside the representable range.
    pub fn checked_add(&self, d: Duration) -> (result: Option<DateTime>)
        ensures
            result is Some <==> in_date_range(
                self.spec_unix_timestamp_nanos() + d.total_nanoseconds(),
            ),
            result matches Some(t) ==> t.spec_unix_timestamp_nanos()
                == self.spec_unix_timestamp_nanos() + d.total_nanoseconds(),
    {
        proof {
            use_type_invariant(self);
            use_type_invariant(d);
        }
        let span = (d.seconds as i128) * NANOS_PER_SECOND + (d.nanoseconds as i128);
        DateTime::from_unix_timestamp_nanos(self.unix_timestamp_nanos + span)
    }
}

/// Session expiry configuration.
#[derive(Copy, Clone, Debug, PartialEq, Eq, PartialOrd, Ord, Hash, Structural)]
pub enum Expiry {
    /// __Browser:__ Expire on current session end, as defined by the browser.
    ///
    /// __Server:__ No expiration is set.
    OnSessionEnd,
    /// Expire after this span of inactivity.
    ///
    /// Reading a session is not considered activity for expiration purposes. Expiration is
    /// computed from the last time the session was modified: when it is created, saved, or
    /// when its id is cycled.
    OnInactivity(Duration),
    /// Expire at a specific date and time.
    AtDateTime(DateTime),
}

/// Types that can expire.
///
/// If a session store does expiration management, it should rely on this trait to access a
/// record's expiration, check it every time a record is saved, and update the record's
/// expiration on the backend accordingly.
pub trait Expires {
    /// The expiration of the record; by default [`Expiry::OnSessionEnd`].
    fn expires(&self) -> (expiry: Expiry)
        default_ensures
            expiry == Expiry::OnSessionEnd,
    {
        Expiry::OnSessionEnd
    }
}

} // verus!
