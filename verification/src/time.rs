//! Time-related types based on the DW3000's system time

use vstd::prelude::*;

verus! {

/// The maximum value of 40-bit system time stamps.
pub const TIME_MAX: u64 = 0xffffffffff;

/// Represents an instant in time, as a 40-bit DW3000 system time stamp
#[derive(Copy, Clone, Debug, PartialEq, Eq, Structural)]
pub struct Instant(pub(crate) u64);

/// A duration between two instants in DW3000 system time
#[derive(Copy, Clone, Debug, PartialEq, Eq, Structural)]
pub struct Duration(pub(crate) u64);

impl Instant {
    /// The time stamp
    pub closed spec fn spec_value(self) -> u64 {
        self.0
    }

    /// Creates a new instance of `Instant`
    ///
    /// Returns `None` if the value does not fit into 40 bits.
    pub fn new(value: u64) -> (r: Option<Self>)
        ensures
            match r {
                Some(i) => value <= TIME_MAX && i.spec_value() == value,
                None => value > TIME_MAX,
            },
    {
        if value <= TIME_MAX {
            Some(Instant(value))
        } else {
            None
        }
    }

    /// The instant of a time stamp that the chip reports, which takes at
    /// most 40 bits
    pub(crate) fn from_ticks(value: u64) -> (i: Self)
        ensures
            i.spec_value() == value,
    {
        Instant(value)
    }

    /// Returns the raw 40-bit time stamp
    pub fn value(&self) -> (v: u64)
        ensures
            v == self.spec_value(),
    {
        self.0
    }
}

impl Duration {
    /// The duration value
    pub closed spec fn spec_value(self) -> u64 {
        self.0
    }

    /// Creates a new instance of `Duration`
    ///
    /// Returns `None` if the value does not fit into 40 bits.
    pub fn new(value: u64) -> (r: Option<Self>)
        ensures
            match r {
                Some(d) => value <= TIME_MAX && d.spec_value() == value,
                None => value > TIME_MAX,
            },
    {
        if value <= TIME_MAX {
            Some(Duration(value))
        } else {
            None
        }
    }

    /// The duration of a delay that the chip reports, which takes at most 40
    /// bits
    pub(crate) fn from_ticks(value: u64) -> (d: Self)
        ensures
            d.spec_value() == value,
    {
        Duration(value)
    }

    /// Returns the raw 40-bit duration value
    pub fn value(&self) -> (v: u64)
        ensures
            v == self.spec_value(),
    {
        self.0
    }
}

} // verus!
