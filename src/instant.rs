//! Monotonic timestamps with microsecond precision.
//!
//! Durations are counted in whole microseconds (`u64`), the resolution of the
//! engine's clock.

use vstd::prelude::*;

verus! {

/// A monotonic clock timestamp used to stamp network table values.
///
/// Two instants are only meaningfully compared when both come from the same
/// engine instance.
#[derive(Debug, Clone, Copy, PartialEq, Eq, Structural, PartialOrd, Ord, Hash)]
pub struct NetworkTablesInstant {
    micros: u64,
}

impl NetworkTablesInstant {
    /// Microseconds since the engine's epoch.
    pub closed spec fn micros_spec(&self) -> u64 {
        self.micros
    }

    /// The instant `micros` microseconds after the engine's epoch.
    pub fn from_micros(micros: u64) -> (r: Self)
        ensures
            r.micros_spec() == micros,
    {
        Self { micros }
    }

    /// Microseconds since the engine's epoch.
    pub fn as_micros(&self) -> (r: u64)
        ensures
            r == self.micros_spec(),
    {
        self.micros
    }

    /// Time elapsed from `self` until `now` (a reading of the engine clock),
    /// zero when `now` is not later than `self`.
    pub fn elapsed(&self, now: Self) -> (r: u64)
        ensures
            r == if now.micros_spec() >= self.micros_spec() {
                (now.micros_spec() - self.micros_spec()) as u64
            } else {
                0u64
            },
    {
        now.saturating_duration_since(*self)
    }

    /// Microseconds from `earlier` to `self`; `earlier` must not be later.
    pub fn duration_since(&self, earlier: Self) -> (r: u64)
        requires
            earlier.micros_spec() <= self.micros_spec(),
        ensures
            r == self.micros_spec() - earlier.micros_spec(),
    {
        self.micros - earlier.micros
    }

    /// The instant `duration` microseconds later, or `None` on overflow.
    pub fn checked_add(&self, duration: u64) -> (r: Option<Self>)
        ensures
            r.is_some() == (self.micros_spec() + duration <= u64::MAX),
            r.is_some() ==> r.unwrap().micros_spec() == self.micros_spec() + duration,
    {
        match self.micros.checked_add(duration) {
            Some(micros) => Some(Self { micros }),
            None => None,
        }
    }

    /// The instant `duration` microseconds earlier, or `None` before the epoch.
    pub fn checked_sub(&self, duration: u64) -> (r: Option<Self>)
        ensures
            r.is_some() == (duration <= self.micros_spec()),
            r.is_some() ==> r.unwrap().micros_spec() == self.micros_spec() - duration,
    {
        match self.micros.checked_sub(duration) {
            Some(micros) => Some(Self { micros }),
            None => None,
        }
    }

    /// Microseconds from `earlier` to `self`, or `None` when `earlier` is later.
    pub fn checked_duration_since(&self, earlier: Self) -> (r: Option<u64>)
        ensures
            earlier.micros_spec() <= self.micros_spec() ==> r == Some(
                (self.micros_spec() - earlier.micros_spec()) as u64,
            ),
            earlier.micros_spec() > self.micros_spec() ==> r.is_none(),
    {
        self.micros.checked_sub(earlier.micros)
    }

    /// Microseconds from `earlier` to `self`, zero when `earlier` is later.
    pub fn saturating_duration_since(&self, earlier: Self) -> (r: u64)
        ensures
            r == if earlier.micros_spec() <= self.micros_spec() {
                (self.micros_spec() - earlier.micros_spec()) as u64
            } else {
                0u64
            },
    {
        match self.checked_duration_since(earlier) {
            Some(d) => d,
            None => 0,
        }
    }
}

} // verus!
