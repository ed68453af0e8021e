//! Points in time, counted in nanoseconds since the Unix epoch.

use std::time::Duration;
use std::time::SystemTime;
use std::time::SystemTimeError;
use vstd::prelude::*;

verus! {

/// Nanoseconds in one second.
pub const NANOS_PER_SEC: u128 = 1_000_000_000;

/// `std::time::SystemTime`: a reading of the system clock, passed on unopened.
#[verifier::external_type_specification]
#[verifier::external_body]
pub struct ExSystemTime(SystemTime);

/// `std::time::SystemTimeError`: the failure of `duration_since`, passed on
/// unopened.
#[verifier::external_type_specification]
#[verifier::external_body]
pub struct ExSystemTimeError(SystemTimeError);

/// `SystemTime::now` reads the system clock. Nothing is claimed of the reading.
pub assume_specification[ SystemTime::now ]() -> SystemTime;

/// `SystemTime::duration_since` measures the distance from `earlier` to `t`, and
/// fails when `earlier` is the later of the two. Nothing is claimed of the result.
pub assume_specification[ SystemTime::duration_since ](
    t: &SystemTime,
    earlier: SystemTime,
) -> Result<Duration, SystemTimeError>;

/// `Duration::as_secs` gives the whole seconds of the duration. Nothing is
/// claimed of the number.
pub assume_specification[ Duration::as_secs ](d: &Duration) -> u64;

/// `Duration::subsec_nanos` gives the nanoseconds of the duration beyond its
/// whole seconds. Nothing is claimed of the number.
pub assume_specification[ Duration::subsec_nanos ](d: &Duration) -> u32;

/// The constant `SystemTime::UNIX_EPOCH`.
#[verifier::external_body]
fn unix_epoch() -> SystemTime {
    SystemTime::UNIX_EPOCH
}

/// A point in time at or after the Unix epoch.
#[derive(Clone, Copy, Debug, PartialEq, Eq, Structural)]
pub struct Timestamp {
    /// Nanoseconds since 1970-01-01T00:00:00Z.
    pub nanos: u128,
}

impl Timestamp {
    /// The point `secs` whole seconds and `subsec_nanos` nanoseconds after the
    /// epoch.
    pub open spec fn at(secs: u64, subsec_nanos: u32) -> Timestamp {
        Timestamp { nanos: (secs * 1_000_000_000 + subsec_nanos) as u128 }
    }

    /// Whether `self` is a point that the clock can give: whole seconds that a
    /// `u64` counts, and nanoseconds on top that a `u32` counts.
    pub open spec fn is_reading(self) -> bool {
        exists|secs: u64, subsec_nanos: u32| self == #[trigger] Timestamp::at(secs, subsec_nanos)
    }

    /// The point `secs` whole seconds after the epoch.
    pub open spec fn at_secs(secs: int) -> Timestamp
        recommends
            0 <= secs <= u64::MAX,
    {
        Timestamp { nanos: (secs * 1_000_000_000) as u128 }
    }

    /// Whether `secs` seconds after `self` is still a representable point.
    pub open spec fn can_add_secs(self, secs: u64) -> bool {
        self.nanos + secs * 1_000_000_000 <= u128::MAX
    }

    /// The point `secs` seconds after `self`.
    pub open spec fn plus_secs(self, secs: u64) -> Timestamp
        recommends
            self.can_add_secs(secs),
    {
        Timestamp { nanos: (self.nanos + secs * 1_000_000_000) as u128 }
    }

    /// The point `secs` whole seconds after the epoch.
    pub fn from_secs(secs: u64) -> (t: Timestamp)
        ensures
            t == Timestamp::at_secs(secs as int),
    {
        Timestamp { nanos: secs as u128 * NANOS_PER_SEC }
    }

    /// The point `nanos` nanoseconds after the epoch.
    pub fn from_nanos(nanos: u128) -> (t: Timestamp)
        ensures
            t.nanos == nanos,
    {
        Timestamp { nanos }
    }

    /// `self` moved `secs` seconds into the future, or `None` when that point
    /// cannot be represented.
    pub fn checked_add_secs(self, secs: u64) -> (r: Option<Timestamp>)
        ensures
            r == if self.can_add_secs(secs) {
                Some(self.plus_secs(secs))
            } else {
                None::<Timestamp>
            },
    {
        let step: u128 = secs as u128 * NANOS_PER_SEC;
        if self.nanos <= u128::MAX - step {
            Some(Timestamp { nanos: self.nanos + step })
        } else {
            None
        }
    }

    /// The point that lies `secs` whole seconds and `subsec_nanos` nanoseconds
    /// after the epoch.
    pub fn from_parts(secs: u64, subsec_nanos: u32) -> (t: Timestamp)
        ensures
            t == Timestamp::at(secs, subsec_nanos),
    {
        Timestamp { nanos: secs as u128 * NANOS_PER_SEC + subsec_nanos as u128 }
    }

    /// Reads the system clock: the time that has passed since the epoch, its
    /// whole seconds and the nanoseconds beyond them counted together. `None`
    /// when the clock stands before the epoch.
    ///
    /// What the clock says is not known here. What is known is how far a reading
    /// can lie from the epoch: far less than a `Timestamp` holds, so that any
    /// number of seconds can be added to a reading.
    pub fn now() -> (r: Option<Timestamp>)
        ensures
            r matches Some(reading) ==> reading.is_reading(),
            r matches Some(reading) ==> forall|secs: u64| #[trigger] reading.can_add_secs(secs),
    {
        let reading = SystemTime::now();
        match reading.duration_since(unix_epoch()) {
            Ok(since_epoch) => {
                let now = Timestamp::from_parts(since_epoch.as_secs(), since_epoch.subsec_nanos());
                proof {
                    lemma_reading_can_advance(now);
                }
                Some(now)
            },
            Err(_) => None,
        }
    }
}

/// A point that the clock can give leaves room for any number of seconds.
pub proof fn lemma_reading_can_advance(t: Timestamp)
    requires
        t.is_reading(),
    ensures
        t.nanos <= u64::MAX * 1_000_000_000 + u32::MAX,
        forall|secs: u64| #[trigger] t.can_add_secs(secs),
{
}

} // verus!
