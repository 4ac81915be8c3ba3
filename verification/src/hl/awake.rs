//! Readings of an awake radio

use vstd::prelude::*;

use crate::fast_command::FastCommand;
use crate::hl::states::Awake;
use crate::hl::DW3000;
use crate::ll::registers::{CIA_CONF, FCMD_STAT, PANADR, SYS_STATE, SYS_STATUS, SYS_TIME, TX_ANTD};
use crate::ll::{fast_command_byte, fast_command_spec, R};
use crate::time::{Duration, Instant};

verus! {

impl<SPI, CS, State: Awake> DW3000<SPI, CS, State> {
    /// Returns the current system time (accurate to the upper 32-bit): the
    /// 32 bits read are the top of the 40-bit timer
    pub fn sys_time(&self, r: &R<SYS_TIME>) -> (t: Instant)
        requires
            r.wf(),
        ensures
            t.spec_value() == r.field(0, 31) * 256,
    {
        proof {
            SYS_TIME::layout();
        }
        let v: u32 = r.value();
        let t: u64 = (v as u64) << 8;
        proof {
            assert((v as u64) << 8 == (v as u64) * 256) by (bit_vector)
                requires v <= 0xffff_ffffu32;
        }
        Instant::from_ticks(t)
    }

    /// Returns the TX antenna delay
    ///
    /// The delay is a `u16`, so it always fits a [`Duration`].
    pub fn get_tx_antenna_delay(&self, r: &R<TX_ANTD>) -> (d: Duration)
        requires
            r.wf(),
        ensures
            d.spec_value() == r.field(0, 15),
    {
        proof {
            TX_ANTD::layout();
        }
        let v: u16 = r.value();
        Duration::from_ticks(v as u64)
    }

    /// Returns the RX antenna delay
    ///
    /// The delay is a `u16`, so it always fits a [`Duration`].
    pub fn get_rx_antenna_delay(&self, r: &R<CIA_CONF>) -> (d: Duration)
        requires
            r.wf(),
        ensures
            d.spec_value() == r.field(0, 15),
    {
        proof {
            CIA_CONF::layout();
        }
        let v: u16 = r.rxantd();
        Duration::from_ticks(v as u64)
    }

    /// Returns the network id and the short address used for sending and
    /// receiving, the address as its big-endian bytes
    pub fn get_address(&self, r: &R<PANADR>) -> (a: (u16, [u8; 2]))
        requires
            r.wf(),
        ensures
            a.0 == r.field(16, 31),
            a.1[0] == r.field(0, 15) / 256,
            a.1[1] == r.field(0, 15) % 256,
    {
        proof {
            PANADR::layout();
        }
        let pan: u16 = r.pan_id();
        let short: u16 = r.short_addr();
        (pan, [(short / 256) as u8, (short % 256) as u8])
    }

    /// Returns the state of the DW3000: the PMSC state machine
    pub fn state(&self, r: &R<SYS_STATE>) -> (s: u8)
        requires
            r.wf(),
        ensures
            s == r.field(16, 23),
    {
        proof {
            SYS_STATE::layout();
        }
        r.pmsc_state()
    }

    /// Returns the current fast command of the DW3000
    pub fn cmd_status(&self, r: &R<FCMD_STAT>) -> (s: u8)
        requires
            r.wf(),
        ensures
            s == r.field(0, 4),
    {
        proof {
            FCMD_STAT::layout();
        }
        r.value()
    }

    /// Returns true if the DW3000 has been in init_rc
    pub fn init_rc_passed(&self, r: &R<SYS_STATUS>) -> (b: bool)
        requires
            r.wf(),
        ensures
            b == (r.field(24, 24) == 1),
    {
        proof {
            SYS_STATUS::layout();
        }
        r.rcinit() == 0x1
    }

    /// Returns true if the DW3000 has been in idle_rc
    pub fn idle_rc_passed(&self, r: &R<SYS_STATUS>) -> (b: bool)
        requires
            r.wf(),
        ensures
            b == (r.field(23, 23) == 1),
    {
        proof {
            SYS_STATUS::layout();
        }
        r.spirdy() == 0x1
    }

    /// Returns true if the DW3000 pll is lock
    pub fn idle_pll_passed(&self, r: &R<SYS_STATUS>) -> (b: bool)
        requires
            r.wf(),
        ensures
            b == (r.field(1, 1) == 1),
    {
        proof {
            SYS_STATUS::layout();
        }
        r.cplock() == 0x1
    }

    /// The byte to send for fast command `fc`
    pub fn fast_cmd(&self, fc: FastCommand) -> (b: u8)
        ensures
            b == fast_command_spec(fc.code()),
    {
        fast_command_byte(fc.value())
    }

    /// The byte that forces the DW3000 into IDLE mode: fast command
    /// CMD_TXRXOFF, which aborts any ongoing RX/TX operations
    pub fn force_idle(&self) -> (b: u8)
        ensures
            b == fast_command_spec(FastCommand::CMD_TXRXOFF.code()),
    {
        self.fast_cmd(FastCommand::CMD_TXRXOFF)
    }
}

} // verus!
