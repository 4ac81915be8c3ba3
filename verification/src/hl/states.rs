//! The states of the high-level driver

use vstd::prelude::*;

use crate::configs::Config;
use crate::time::Duration;

verus! {

/// Indicates that the `DW3000` instance is not initialized yet
#[derive(Copy, Clone, Debug)]
pub struct Uninitialized;

/// Indicates that the `DW3000` instance is ready to be used
#[derive(Copy, Clone, Debug)]
pub struct Ready;

/// Indicates that the `DW3000` instance is currently sending
#[derive(Copy, Clone, Debug)]
pub struct Sending {
    /// Whether the transmission has finished
    pub finished: bool,
}

/// Indicates that the `DW3000` instance is currently receiving in single buffer mode
#[derive(Copy, Clone, Debug)]
pub struct SingleBufferReceiving {
    /// Whether the reception has finished
    pub finished: bool,
    /// The configuration used for receiving
    pub config: Config,
}

/// Indicates that the `DW3000` instance is currently receiving in double buffer mode
#[derive(Copy, Clone, Debug)]
pub struct AutoDoubleBufferReceiving {
    /// Whether the reception has finished
    pub finished: bool,
    /// The configuration used for receiving
    pub config: Config,
}

/// Indicates that the `DW3000` instance is sleeping
#[derive(Copy, Clone, Debug)]
pub struct Sleeping {
    /// Tx antenna delay isn't stored in AON, so we'll do it ourselves.
    pub tx_antenna_delay: Duration,
}

/// Any state struct that implements this trait signals that the radio is
/// awake
pub trait Awake {}

impl Awake for Uninitialized {}

impl Awake for Ready {}

impl Awake for Sending {}

impl Awake for SingleBufferReceiving {}

impl Awake for AutoDoubleBufferReceiving {}

impl Sending {
    /// Records that the transmission has finished
    pub fn mark_finished(&mut self)
        ensures
            final(self).finished,
    {
        self.finished = true;
    }

    /// Whether the transmission has finished
    pub fn is_finished(&self) -> (b: bool)
        ensures
            b == self.finished,
    {
        self.finished
    }
}

} // verus!
