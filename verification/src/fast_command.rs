//! Enumeration for fast commands

use vstd::prelude::*;

verus! {

/// Fast command enumeration to easily control the module
#[allow(non_camel_case_types)]
#[derive(Copy, Clone, Debug, PartialEq, Eq, Structural)]
pub enum FastCommand {
    /// Fast command to go to IDLE state and clears any events
    CMD_TXRXOFF,
    /// Fast command to Immediate start of transmission
    CMD_TX,
    /// Fast command to Enable RX immediately
    CMD_RX,
    /// Fast command to Delayed TX w.r.t. DX_TIME
    CMD_DTX,
    /// Fast command to Delayed RX w.r.t. DX_TIME
    CMD_DRX,
    /// Fast command to Delayed TX w.r.t. TX timestamp + DX_TIME
    CMD_DTX_TS,
    /// Fast command to Delayed RX w.r.t. TX timestamp + DX_TIME
    CMD_DRX_TS,
    /// Fast command to Delayed TX w.r.t. RX timestamp + DX_TIME
    CMD_DTX_RS,
    /// Fast command to Delayed RX w.r.t. RX timestamp + DX_TIME
    CMD_DRX_RS,
    /// Fast command to Delayed TX w.r.t. DREF_TIME + DX_TIME
    CMD_DTX_REF,
    /// Fast command to Delayed RX w.r.t. DREF_TIME + DX_TIME
    CMD_DRX_REF,
    /// Fast command to TX if no preamble detected
    CMD_CCA_TX,
    /// Fast command to Start TX immediately, then when TX is done, enable the receiver
    CMD_TX_W4R,
    /// Fast command to Delayed TX w.r.t. DX_TIME, then enable receiver
    CMD_DTX_W4R,
    /// Fast command to Delayed TX w.r.t. TX timestamp + DX_TIME, then enable receiver
    CMD_DTX_TS_W4R,
    /// Fast command to Delayed TX w.r.t. RX timestamp + DX_TIME, then enable receiver
    CMD_DTX_RS_W4R,
    /// Fast command to Delayed TX w.r.t. DREF_TIME + DX_TIME, then enable receiver
    CMD_DTX_REF_W4R,
    /// Fast command to TX packet if no preamble detected, then enable receiver
    CMD_CCA_TX_W4R,
    /// Fast command to Clear all interrupt events
    CMD_CLR_IRQS,
    /// Fast command to Toggle double buffer pointer / notify the device that the host has finished processing the received buffer/data.
    CMD_DB_TOGGLE,
}

impl FastCommand {
    /// The command code of a fast command
    pub open spec fn code(self) -> u8 {
        match self {
            FastCommand::CMD_TXRXOFF => 0x0,
            FastCommand::CMD_TX => 0x1,
            FastCommand::CMD_RX => 0x2,
            FastCommand::CMD_DTX => 0x3,
            FastCommand::CMD_DRX => 0x4,
            FastCommand::CMD_DTX_TS => 0x5,
            FastCommand::CMD_DRX_TS => 0x6,
            FastCommand::CMD_DTX_RS => 0x7,
            FastCommand::CMD_DRX_RS => 0x8,
            FastCommand::CMD_DTX_REF => 0x9,
            FastCommand::CMD_DRX_REF => 0xA,
            FastCommand::CMD_CCA_TX => 0xB,
            FastCommand::CMD_TX_W4R => 0xC,
            FastCommand::CMD_DTX_W4R => 0xD,
            FastCommand::CMD_DTX_TS_W4R => 0xE,
            FastCommand::CMD_DTX_RS_W4R => 0xF,
            FastCommand::CMD_DTX_REF_W4R => 0x10,
            FastCommand::CMD_CCA_TX_W4R => 0x11,
            FastCommand::CMD_CLR_IRQS => 0x12,
            FastCommand::CMD_DB_TOGGLE => 0x13,
        }
    }

    /// The command code of this fast command
    pub fn value(&self) -> (v: u8)
        ensures
            v == self.code(),
            v < 0x20,
    {
        match self {
            FastCommand::CMD_TXRXOFF => 0x0,
            FastCommand::CMD_TX => 0x1,
            FastCommand::CMD_RX => 0x2,
            FastCommand::CMD_DTX => 0x3,
            FastCommand::CMD_DRX => 0x4,
            FastCommand::CMD_DTX_TS => 0x5,
            FastCommand::CMD_DRX_TS => 0x6,
            FastCommand::CMD_DTX_RS => 0x7,
            FastCommand::CMD_DRX_RS => 0x8,
            FastCommand::CMD_DTX_REF => 0x9,
            FastCommand::CMD_DRX_REF => 0xA,
            FastCommand::CMD_CCA_TX => 0xB,
            FastCommand::CMD_TX_W4R => 0xC,
            FastCommand::CMD_DTX_W4R => 0xD,
            FastCommand::CMD_DTX_TS_W4R => 0xE,
            FastCommand::CMD_DTX_RS_W4R => 0xF,
            FastCommand::CMD_DTX_REF_W4R => 0x10,
            FastCommand::CMD_CCA_TX_W4R => 0x11,
            FastCommand::CMD_CLR_IRQS => 0x12,
            FastCommand::CMD_DB_TOGGLE => 0x13,
        }
    }
}

} // verus!
