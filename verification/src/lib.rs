//! Driver library for the DW3000 UWB transceiver.
//!
//! The register layer (`ll`) encodes and decodes register contents bit by
//! bit, with every field read and write specified against a bit-level model
//! of the register bytes. The high-level layer (`hl`) computes what the
//! driver writes to the chip and how it interprets what it reads back.

pub mod configs;
pub mod fast_command;
pub mod hl;
pub mod ll;
pub mod ranging;
pub mod time;


pub use crate::configs::Config;
pub use crate::fast_command::FastCommand;
pub use crate::hl::error::Error;
pub use crate::hl::states::{
    AutoDoubleBufferReceiving, Ready, Sending, SingleBufferReceiving, Sleeping, Uninitialized,
};
pub use crate::hl::DW3000;
