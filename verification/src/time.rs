//! Instants on the Unix time line, as the token strategies compare and store them.

use vstd::prelude::*;

verus! {

/// Nanoseconds in one second: the exclusive upper bound of a sub-second part.
pub const NANOS_PER_SECOND: u32 = 1_000_000_000;

/// The seconds since the Unix epoch that the system clock stays below, as the
/// calendar reads it: the calendar counts days in 32 bits, and so many days
/// hold so many seconds.
pub const CLOCK_LIMIT: i64 = 185_542_587_187_200;

/// An instant: whole seconds since the Unix epoch and the nanoseconds into
/// that second. The sub-second part is always below one second.
#[derive(Clone, Copy, Debug, PartialEq, Eq, Structural)]
pub struct Timestamp {
    secs: i64,
    nanos: u32,
}

impl Timestamp {
    #[verifier::type_invariant]
    spec fn in_range(self) -> bool {
        self.nanos < NANOS_PER_SECOND
    }

    /// Whole seconds since the Unix epoch.
    pub closed spec fn seconds(self) -> int {
        self.secs as int
    }

    /// Nanoseconds into the second.
    pub closed spec fn subsec(self) -> int {
        self.nanos as int
    }

    /// `self` lies strictly later on the time line than `other`.
    pub open spec fn is_after(self, other: Timestamp) -> bool {
        self.seconds() > other.seconds() || (self.seconds() == other.seconds() && self.subsec()
            > other.subsec())
    }

    /// `self` is an instant that the system clock can show: not before the
    /// Unix epoch and below the limit of the calendar.
    pub open spec fn on_clock(self) -> bool {
        0 <= self.seconds() < CLOCK_LIMIT
    }

    /// Moving `self` by `seconds` stays within what a `Timestamp` can hold.
    pub open spec fn can_shift(self, seconds: int) -> bool {
        i64::MIN <= self.seconds() + seconds <= i64::MAX
    }

    /// `self` moved by `seconds`, as long as `can_shift(seconds)` holds.
    pub closed spec fn shifted(self, seconds: int) -> Timestamp {
        Timestamp { secs: (self.secs + seconds) as i64, nanos: self.nanos }
    }

    /// The instant made of `secs` and `nanos`, or `None` when `nanos` is a
    /// second or more.
    pub fn new(secs: i64, nanos: u32) -> (r: Option<Timestamp>)
        ensures
            r is Some <==> nanos < NANOS_PER_SECOND,
            r matches Some(t) ==> t.seconds() == secs && t.subsec() == nanos,
    {
        if nanos < NANOS_PER_SECOND {
            Some(Timestamp { secs, nanos })
        } else {
            None
        }
    }

    /// The instant made of `secs` and `nanos`, where a sub-second part of a
    /// second or more, as calendars write it during a leap second, is taken
    /// as the last nanosecond of the second.
    pub fn clamped(secs: i64, nanos: u32) -> (r: Timestamp)
        ensures
            r.seconds() == secs,
            r.subsec() == if nanos < NANOS_PER_SECOND {
                nanos as int
            } else {
                NANOS_PER_SECOND - 1
            },
    {
        if nanos < NANOS_PER_SECOND {
            Timestamp { secs, nanos }
        } else {
            Timestamp { secs, nanos: NANOS_PER_SECOND - 1 }
        }
    }

    /// The instant that lies a whole number of seconds after the epoch.
    pub fn from_secs(secs: i64) -> (r: Timestamp)
        ensures
            r.seconds() == secs,
            r.subsec() == 0,
    {
        Timestamp { secs, nanos: 0 }
    }

    /// Whole seconds since the Unix epoch.
    pub fn secs(&self) -> (r: i64)
        ensures
            r == self.seconds(),
    {
        self.secs
    }

    /// Nanoseconds into the second.
    pub fn nanos(&self) -> (r: u32)
        ensures
            r == self.subsec(),
            r < NANOS_PER_SECOND,
    {
        proof {
            use_type_invariant(self);
        }
        self.nanos
    }

    /// Whether `self` is strictly later than `other`.
    pub fn after(&self, other: &Timestamp) -> (r: bool)
        ensures
            r == self.is_after(*other),
    {
        self.secs > other.secs || (self.secs == other.secs && self.nanos > other.nanos)
    }

    /// `self` moved by `seconds`, which may be negative; the sub-second part stays.
    pub fn plus_seconds(self, seconds: i64) -> (r: Timestamp)
        requires
            self.can_shift(seconds as int),
        ensures
            r == self.shifted(seconds as int),
    {
        proof {
            use_type_invariant(self);
        }
        Timestamp { secs: self.secs + seconds, nanos: self.nanos }
    }

    /// `self` moved by `seconds`, or `None` when the result cannot be held.
    pub fn checked_plus_seconds(self, seconds: i64) -> (r: Option<Timestamp>)
        ensures
            r is Some <==> self.can_shift(seconds as int),
            r matches Some(t) ==> t == self.shifted(seconds as int),
    {
        proof {
            use_type_invariant(self);
        }
        match self.secs.checked_add(seconds) {
            Some(secs) => Some(Timestamp { secs, nanos: self.nanos }),
            None => None,
        }
    }

    /// The current instant, read from the system clock.
    pub fn now() -> (r: Timestamp)
        ensures
            r.on_clock(),
    {
        let (secs, nanos) = local_now();
        Timestamp { secs, nanos }
    }
}

/// Within what a `Timestamp` can hold, shifting adds to the seconds and
/// leaves the sub-second part alone.
pub proof fn lemma_shifted(t: Timestamp, seconds: int)
    requires
        t.can_shift(seconds),
    ensures
        t.shifted(seconds).seconds() == t.seconds() + seconds,
        t.shifted(seconds).subsec() == t.subsec(),
{
}

/// Calls `chrono::Local::now` and reads the result with `DateTime::timestamp`
/// and `DateTime::timestamp_subsec_nanos`. Which instant comes back is the
/// clock's affair; the contract claims only the range that chrono's source
/// shows. chrono takes the time that has passed since the Unix epoch from
/// `SystemTime`, so that the seconds are not negative and the sub-second part
/// is below one second (the range from one second up is kept for leap
/// seconds, which the system clock never reports), and it builds the instant
/// with `DateTime::from_timestamp`, which refuses seconds whose days since
/// the year 1 exceed `i32::MAX`. chrono panics when the system clock is set
/// before 1970.
#[verifier::external_body]
fn local_now() -> (r: (i64, u32))
    ensures
        0 <= r.0 < CLOCK_LIMIT,
        r.1 < NANOS_PER_SECOND,
{
    let now = chrono::Local::now();
    (now.timestamp(), now.timestamp_subsec_nanos())
}

} // verus!
