//! Instants on the UTC time line and the wall clock of the device's time zone.

use chrono::Timelike;
use vstd::prelude::*;

verus! {

/// Earliest second that a [`UtcTime`] can hold: the start of the year -262143.
pub const MIN_SECS: i64 = -8_334_601_228_800;

/// Latest second that a [`UtcTime`] can hold: the last second of the year 262142.
pub const MAX_SECS: i64 = 8_210_266_876_799;

/// Nanoseconds in one second.
pub const NANOS_PER_SEC: u32 = 1_000_000_000;

/// Seconds in one civil day.
pub const SECS_PER_DAY: u32 = 86_400;

/// An instant: whole seconds since 1970-01-01T00:00:00Z and the nanoseconds
/// past that second. Every value lies inside the range of instants that the
/// calendar library can represent.
#[derive(Clone, Copy, Debug, PartialEq, Eq, Structural)]
pub struct UtcTime {
    secs: i64,
    nanos: u32,
}

/// Whether `secs` and `nanos` name an instant that a [`UtcTime`] can hold.
pub open spec fn instant_in_range(secs: int, nanos: int) -> bool {
    MIN_SECS <= secs <= MAX_SECS && 0 <= nanos < NANOS_PER_SEC
}

impl UtcTime {
    /// Whole seconds since the epoch.
    pub closed spec fn secs(self) -> int {
        self.secs as int
    }

    /// Nanoseconds past the whole second.
    pub closed spec fn subsec_nanos(self) -> int {
        self.nanos as int
    }

    /// The instant as one number of nanoseconds since the epoch.
    pub open spec fn total_nanos(self) -> int {
        self.secs() * (NANOS_PER_SEC as int) + self.subsec_nanos()
    }

    /// Validity of an instant: the range that every executable value keeps.
    #[verifier::type_invariant]
    pub open spec fn valid(self) -> bool {
        instant_in_range(self.secs(), self.subsec_nanos())
    }

    /// The instant `secs` seconds and `nanos` nanoseconds after the epoch, or
    /// `None` when that lies outside the representable range.
    pub fn new(secs: i64, nanos: u32) -> (r: Option<UtcTime>)
        ensures
            r is Some <==> instant_in_range(secs as int, nanos as int),
            r matches Some(t) ==> t.secs() == secs && t.subsec_nanos() == nanos,
    {
        if MIN_SECS <= secs && secs <= MAX_SECS && nanos < NANOS_PER_SEC {
            Some(UtcTime { secs, nanos })
        } else {
            None
        }
    }

    /// The instant `secs` seconds and `nanos` nanoseconds after the epoch, as a
    /// mathematical value.
    pub closed spec fn spec_from_parts(secs: int, nanos: int) -> UtcTime {
        UtcTime { secs: secs as i64, nanos: nanos as u32 }
    }

    /// An instant in the representable range has the parts that it was made of.
    pub proof fn lemma_spec_from_parts(secs: int, nanos: int)
        requires
            instant_in_range(secs, nanos),
        ensures
            Self::spec_from_parts(secs, nanos).secs() == secs,
            Self::spec_from_parts(secs, nanos).subsec_nanos() == nanos,
            Self::spec_from_parts(secs, nanos).valid(),
    {
    }

    /// Two instants with the same parts are the same instant.
    pub proof fn lemma_same_parts(a: UtcTime, b: UtcTime)
        requires
            a.secs() == b.secs(),
            a.subsec_nanos() == b.subsec_nanos(),
        ensures
            a == b,
    {
    }

    /// The instant `secs` seconds and `nanos` nanoseconds after the epoch, for
    /// values that are known to lie in the representable range.
    pub(crate) fn from_parts(secs: i64, nanos: u32) -> (t: UtcTime)
        requires
            instant_in_range(secs as int, nanos as int),
        ensures
            t.secs() == secs,
            t.subsec_nanos() == nanos,
    {
        UtcTime { secs, nanos }
    }

    /// The epoch: 1970-01-01T00:00:00Z.
    pub fn epoch() -> (t: UtcTime)
        ensures
            t.secs() == 0,
            t.subsec_nanos() == 0,
    {
        UtcTime { secs: 0, nanos: 0 }
    }

    /// Whole seconds since the epoch.
    pub fn timestamp(&self) -> (r: i64)
        ensures
            r == self.secs(),
            MIN_SECS <= r <= MAX_SECS,
    {
        proof {
            use_type_invariant(self);
        }
        self.secs
    }

    /// Nanoseconds past the whole second.
    pub fn timestamp_subsec_nanos(&self) -> (r: u32)
        ensures
            r == self.subsec_nanos(),
            r < NANOS_PER_SEC,
    {
        proof {
            use_type_invariant(self);
        }
        self.nanos
    }
}

impl UtcTime {
    /// The instant `delta` seconds away from this one, or `None` when that
    /// leaves the representable range.
    pub fn checked_add_seconds(&self, delta: i64) -> (r: Option<UtcTime>)
        ensures
            r is Some <==> MIN_SECS <= self.secs() + delta <= MAX_SECS,
            r matches Some(t) ==> t.secs() == self.secs() + delta && t.subsec_nanos()
                == self.subsec_nanos(),
    {
        proof {
            use_type_invariant(self);
        }
        match self.secs.checked_add(delta) {
            Some(secs) => UtcTime::new(secs, self.nanos),
            None => None,
        }
    }

    /// Signed number of nanoseconds from `earlier` to this instant.
    pub fn nanos_since(&self, earlier: &UtcTime) -> (r: i128)
        ensures
            r == self.total_nanos() - earlier.total_nanos(),
    {
        proof {
            use_type_invariant(self);
            use_type_invariant(earlier);
        }
        let a: i128 = (self.secs as i128) * 1_000_000_000 + (self.nanos as i128);
        let b: i128 = (earlier.secs as i128) * 1_000_000_000 + (earlier.nanos as i128);
        a - b
    }

    /// Whether the two instants lie strictly less than `window_secs` seconds
    /// apart, in either direction.
    pub fn within_seconds(&self, other: &UtcTime, window_secs: u32) -> (r: bool)
        ensures
            r == instants_within(*self, *other, window_secs as int),
    {
        let d: i128 = self.nanos_since(other);
        let w: i128 = (window_secs as i128) * 1_000_000_000;
        -w < d && d < w
    }

    /// Seconds past local midnight on the wall clock of Paris.
    pub fn local_seconds_of_day(&self) -> (n: u32)
        ensures
            n == paris_seconds_of_day(self.secs()),
            n < SECS_PER_DAY,
    {
        proof {
            use_type_invariant(self);
        }
        paris_seconds_from_midnight(self.secs)
    }

    /// Hour of the day, 0 to 23, on the wall clock of Paris.
    pub fn local_hour(&self) -> (h: u32)
        ensures
            h == hour_of(paris_seconds_of_day(self.secs())),
            h < 24,
    {
        self.local_seconds_of_day() / 3600
    }

    /// Minute of the hour, 0 to 59, on the wall clock of Paris.
    pub fn local_minute(&self) -> (m: u32)
        ensures
            m == minute_of(paris_seconds_of_day(self.secs())),
            m < 60,
    {
        self.local_seconds_of_day() / 60 % 60
    }

    /// Second of the minute, 0 to 59, on the wall clock of Paris.
    pub fn local_second(&self) -> (s: u32)
        ensures
            s == second_of(paris_seconds_of_day(self.secs())),
            s < 60,
    {
        self.local_seconds_of_day() % 60
    }
}

/// Whether two instants lie strictly less than `window_secs` seconds apart.
pub open spec fn instants_within(a: UtcTime, b: UtcTime, window_secs: int) -> bool {
    let d = a.total_nanos() - b.total_nanos();
    let w = window_secs * (NANOS_PER_SEC as int);
    -w < d < w
}

/// Hour of the day for a count of seconds past midnight.
pub open spec fn hour_of(seconds_of_day: int) -> int {
    seconds_of_day / 3600
}

/// Minute of the hour for a count of seconds past midnight.
pub open spec fn minute_of(seconds_of_day: int) -> int {
    seconds_of_day / 60 % 60
}

/// Second of the minute for a count of seconds past midnight.
pub open spec fn second_of(seconds_of_day: int) -> int {
    seconds_of_day % 60
}

/// Seconds past local midnight that the wall clock of Paris shows at the
/// instant `secs` seconds after the epoch, as the time zone database gives it.
pub uninterp spec fn paris_seconds_of_day(secs: int) -> int;

/// Calls `chrono::DateTime::from_timestamp`, moves the instant to
/// `chrono_tz::Europe::Paris` with `DateTime::with_timezone` and reads
/// `Timelike::num_seconds_from_midnight`. Trusted: the result is the named wall
/// clock reading, and it is below 86400, the bound that the method documents.
/// The range demanded is the one on which `from_timestamp` returns a value.
#[verifier::external_body]
fn paris_seconds_from_midnight(secs: i64) -> (n: u32)
    requires
        MIN_SECS <= secs <= MAX_SECS,
    ensures
        n == paris_seconds_of_day(secs as int),
        n < SECS_PER_DAY,
{
    chrono::DateTime::from_timestamp(secs, 0)
        .unwrap()
        .with_timezone(&chrono_tz::Europe::Paris)
        .num_seconds_from_midnight()
}

} // verus!
