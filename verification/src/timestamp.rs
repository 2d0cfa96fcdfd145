//! Points in time, in nanoseconds since the epoch.

use vstd::prelude::*;

verus! {

/// Nanoseconds in one second.
pub const NANOS_PER_SECOND: u64 = 1_000_000_000;

/// A point in time with nanosecond precision. Its view is the number of
/// nanoseconds since the epoch.
#[derive(Clone, Copy, Debug, PartialEq, Eq, PartialOrd, Ord, Structural)]
pub struct Timestamp {
    nanos: u64,
}

impl View for Timestamp {
    type V = nat;

    open spec fn view(&self) -> nat {
        self.spec_nanos() as nat
    }
}

/// The time `seconds` seconds after `start`, in nanoseconds.
pub open spec fn plus_seconds(start: nat, seconds: nat) -> nat {
    start + seconds * 1_000_000_000
}

impl Timestamp {
    pub closed spec fn spec_nanos(&self) -> u64 {
        self.nanos
    }

    /// Whether the time `seconds` seconds after `self` can still be
    /// represented.
    pub open spec fn can_add_seconds(&self, seconds: u64) -> bool {
        plus_seconds(self@, seconds as nat) <= u64::MAX
    }

    /// The time `nanos` nanoseconds after the epoch.
    pub fn from_nanos(nanos: u64) -> (r: Timestamp)
        ensures
            r@ == nanos,
    {
        Timestamp { nanos }
    }

    /// The time `seconds` seconds after the epoch.
    pub fn from_seconds(seconds: u64) -> (r: Timestamp)
        requires
            seconds * 1_000_000_000 <= u64::MAX,
        ensures
            r@ == seconds * 1_000_000_000,
    {
        Timestamp { nanos: seconds * NANOS_PER_SECOND }
    }

    /// Nanoseconds since the epoch.
    pub fn nanos(&self) -> (r: u64)
        ensures
            r == self@,
    {
        self.nanos
    }

    /// Whole seconds since the epoch.
    pub fn seconds(&self) -> (r: u64)
        ensures
            r == self@ / 1_000_000_000,
    {
        self.nanos / NANOS_PER_SECOND
    }

    /// The time `seconds` seconds later, or `None` where that is past the
    /// last representable time.
    pub fn checked_plus_seconds(&self, seconds: u64) -> (r: Option<Timestamp>)
        ensures
            self.can_add_seconds(seconds) <==> r is Some,
            r matches Some(t) ==> t@ == plus_seconds(self@, seconds as nat),
    {
        match seconds.checked_mul(NANOS_PER_SECOND) {
            Some(addition) => match self.nanos.checked_add(addition) {
                Some(nanos) => Some(Timestamp { nanos }),
                None => None,
            },
            None => None,
        }
    }

    /// The time `seconds` seconds later.
    pub fn plus_seconds(&self, seconds: u64) -> (r: Timestamp)
        requires
            self.can_add_seconds(seconds),
        ensures
            r@ == plus_seconds(self@, seconds as nat),
    {
        Timestamp { nanos: self.nanos + seconds * NANOS_PER_SECOND }
    }

    /// The time `nanos` nanoseconds later.
    pub fn plus_nanos(&self, nanos: u64) -> (r: Timestamp)
        requires
            self@ + nanos <= u64::MAX,
        ensures
            r@ == self@ + nanos,
    {
        Timestamp { nanos: self.nanos + nanos }
    }

    /// Whether `self` is strictly earlier than `other`.
    pub fn lt(&self, other: &Timestamp) -> (r: bool)
        ensures
            r == (self@ < other@),
    {
        self.nanos < other.nanos
    }

    /// Whether `self` is `other` or later.
    pub fn ge(&self, other: &Timestamp) -> (r: bool)
        ensures
            r == (self@ >= other@),
    {
        self.nanos >= other.nanos
    }
}

} // verus!
