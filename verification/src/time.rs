//! Points in time, and the microsecond values that are recorded of them.

use vstd::prelude::*;
use std::time::SystemTime;

verus! {

/// A point in time, held as its distance from the Unix epoch in
/// nanoseconds and the side of the epoch on which it lies.
#[derive(Clone, Copy, Debug, PartialEq, Eq)]
pub struct Timestamp {
    before_epoch: bool,
    nanos: u128,
}

/// Whole microseconds in a span of `nanos` nanoseconds, as recorded: zero
/// where the span is negative, and the largest signed 64-bit value where
/// the count exceeds it.
pub open spec fn micros_clamped(nanos: int) -> i64 {
    if nanos <= 0 {
        0
    } else if nanos / 1000 > i64::MAX {
        i64::MAX
    } else {
        (nanos / 1000) as i64
    }
}

impl Timestamp {
    /// Nanoseconds from the Unix epoch to this point: negative before the
    /// epoch.
    pub closed spec fn offset(&self) -> int {
        if self.before_epoch {
            -(self.nanos as int)
        } else {
            self.nanos as int
        }
    }

    /// The point `nanos` nanoseconds after the Unix epoch.
    pub fn from_unix_nanos(nanos: u128) -> (at: Timestamp)
        ensures
            at.offset() == nanos,
    {
        Timestamp { before_epoch: false, nanos }
    }

    /// The point `nanos` nanoseconds before the Unix epoch.
    pub fn before_unix_epoch(nanos: u128) -> (at: Timestamp)
        ensures
            at.offset() == -(nanos as int),
    {
        Timestamp { before_epoch: true, nanos }
    }

    /// Reads the system clock with `SystemTime::now` and measures the
    /// reading against `SystemTime::UNIX_EPOCH`. Nothing is claimed of the
    /// reading: the clock may stand anywhere and may go backwards.
    #[verifier::external_body]
    pub(crate) fn now() -> (at: Timestamp) {
        match SystemTime::now().duration_since(SystemTime::UNIX_EPOCH) {
            Ok(elapsed) => Timestamp { before_epoch: false, nanos: elapsed.as_nanos() },
            Err(early) => Timestamp { before_epoch: true, nanos: early.duration().as_nanos() },
        }
    }

    /// Microseconds from the Unix epoch to this point: zero before the
    /// epoch, and never more than `i64::MAX`.
    pub fn micros_since_epoch(&self) -> (micros: i64)
        ensures
            micros == micros_clamped(self.offset()),
    {
        if self.before_epoch {
            0
        } else {
            clamp_micros(self.nanos)
        }
    }

    /// Microseconds from `earlier` to this point: zero where this point is
    /// not after `earlier`, and never more than `i64::MAX`.
    pub fn micros_since(&self, earlier: &Timestamp) -> (micros: i64)
        ensures
            micros == micros_clamped(self.offset() - earlier.offset()),
    {
        if self.before_epoch {
            if earlier.before_epoch && earlier.nanos > self.nanos {
                clamp_micros(earlier.nanos - self.nanos)
            } else {
                0
            }
        } else if earlier.before_epoch {
            match self.nanos.checked_add(earlier.nanos) {
                Some(apart) => clamp_micros(apart),
                None => i64::MAX,
            }
        } else if self.nanos > earlier.nanos {
            clamp_micros(self.nanos - earlier.nanos)
        } else {
            0
        }
    }
}

/// Whole microseconds in `nanos` nanoseconds, capped at `i64::MAX`.
fn clamp_micros(nanos: u128) -> (micros: i64)
    ensures
        micros == micros_clamped(nanos as int),
{
    let whole: u128 = nanos / 1000;
    if whole > 0x7fff_ffff_ffff_ffff {
        i64::MAX
    } else {
        whole as i64
    }
}

/// A recorded microsecond count is never negative.
pub proof fn lemma_micros_clamped_bounds(nanos: int)
    ensures
        0 <= micros_clamped(nanos) <= i64::MAX,
        nanos <= 0 ==> micros_clamped(nanos) == 0,
{
}

/// A longer span never records fewer microseconds.
pub proof fn lemma_micros_clamped_monotonic(shorter: int, longer: int)
    requires
        shorter <= longer,
    ensures
        micros_clamped(shorter) <= micros_clamped(longer),
{
}

} // verus!
