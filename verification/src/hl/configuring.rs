//! The register values that `init` and `config` write
//!
//! Each function gives the fields of a register the values that one step
//! of the initialization or configuration writes: a register that the
//! step modifies starts from the value read, one that it writes starts
//! from zero.

use vstd::prelude::*;

use crate::hl::states::Uninitialized;
use crate::hl::uninitialized::ConfigPlan;
use crate::hl::DW3000;
use crate::ll::registers::{
    CHAN_CTRL, CLK_CTRL, DGC_CFG, DTUNE0, DTUNE3, DTUNE4, IP_CONF, IP_CONF_HI, LDO_CTRL, LDO_RLOAD, OTP_CFG, PLL_CAL,
    PLL_CC, PLL_CFG, RF_TX_CTRL_1, RF_TX_CTRL_2, RX_CAL, RX_CAL_STS, RX_SFD_TOC, SEQ_CTRL,
    STS_CFG, STS_CONF_0, STS_CONF_1, SYS_CFG, SYS_STATUS, XTAL,
};
use crate::ll::{fields_written, zero_buffer, FieldWrite, Writable, R, W};

verus! {

/// DGC_CFG0 as the digital gain control is configured: the value that the
/// OTP memory holds where it holds the configuration
pub const DGC_CFG0_VALUE: u32 = 0x10000240;

/// DGC_CFG1 as the digital gain control is configured
pub const DGC_CFG1_VALUE: u32 = 0x1b6da489;

/// The low half of LDO_CTRL during the PGF calibration
pub const PGF_CAL_LDO_LOW: u16 = 0x105;

/// SYS_CFG: PHR mode and rate, STS packet configuration and PDoA mode of
/// the plan, no STS with the SDC
pub open spec fn sys_cfg_writes(plan: ConfigPlan) -> Seq<FieldWrite> {
    seq![
        (4int, 4int, plan.phr_mode as nat),
        (5, 5, plan.phr_6m8 as nat),
        (12, 13, plan.cp_spc as nat),
        (16, 17, plan.pdoa_mode as nat),
        (15, 15, 0),
    ]
}

/// OTP_CFG: the operating parameter set of the plan, loaded (kicked)
pub open spec fn operating_set_writes(plan: ConfigPlan) -> Seq<FieldWrite> {
    seq![(11int, 12int, plan.ops_sel as nat), (10, 10, 1)]
}

/// DTUNE0: PAC size and tuning bit 4 of the plan
pub open spec fn dtune0_writes(plan: ConfigPlan) -> Seq<FieldWrite> {
    seq![(0int, 1int, plan.pac as nat), (4, 4, plan.dt0b4 as nat)]
}

/// TX_FCTRL: fine preamble length, bitrate and preamble length code of the
/// plan
pub open spec fn config_tx_fctrl_writes(plan: ConfigPlan) -> Seq<FieldWrite> {
    seq![(40int, 47int, plan.fine_plen as nat), (10, 10, plan.txbr as nat), (12, 15, plan.txpsr as nat)]
}

/// CHAN_CTRL: channel, SFD type and the two preamble codes of the plan
pub open spec fn chan_ctrl_writes(plan: ConfigPlan) -> Seq<FieldWrite> {
    seq![
        (0int, 0int, plan.rf_chan as nat),
        (1, 2, plan.sfd_type as nat),
        (3, 7, plan.tx_preamble_code as nat),
        (8, 12, plan.rx_preamble_code as nat),
    ]
}

/// CLK_CTRL: system, receive and transmit clocks on auto, the
/// accumulator, CIA and SAR clock enables cleared
pub open spec fn clocks_auto_writes() -> Seq<FieldWrite> {
    seq![(0int, 1int, 0nat), (2, 3, 0), (4, 5, 0), (6, 6, 0), (8, 8, 0), (10, 10, 0), (15, 15, 0)]
}

/// SYS_STATUS: the clock PLL lock flag cleared (it is cleared by writing
/// 1), the other flags of the low byte written 0
pub open spec fn cplock_clear_writes() -> Seq<FieldWrite> {
    seq![(0int, 0int, 0nat), (1, 1, 1), (2, 2, 0), (3, 3, 0), (4, 4, 0), (5, 5, 0), (6, 6, 0), (7, 7, 0)]
}

impl<SPI, CS> DW3000<SPI, CS, Uninitialized> {
    /// The kick that loads the LDO and bias tuning values from the OTP
    /// memory (OTP_CFG is written, not modified)
    pub fn ldo_bias_kick(&self) -> (w: W<OTP_CFG>)
        ensures
            w.wf(),
            fields_written(zero_buffer(2), w@, seq![(7int, 7int, 1nat), (8, 8, 1)]),
    {
        proof {
            OTP_CFG::layout();
        }
        let mut w = OTP_CFG::write();
        let fields = [(7usize, 7usize, 1u128), (8, 8, 1)];
        w.write_fields(&fields);
        proof {
            assert(W::<OTP_CFG>::as_field_writes(fields@) =~= seq![(7int, 7int, 1nat), (8, 8, 1)]);
        }
        w
    }

    /// The crystal trim value
    pub fn xtal_trim(&self, w: &mut W<XTAL>, trim: u8)
        requires
            old(w).wf(),
        ensures
            final(w).wf(),
            fields_written(old(w)@, final(w)@, seq![(0int, 7int, trim as nat)]),
    {
        proof {
            XTAL::layout();
        }
        let fields = [(0usize, 7usize, trim as u128)];
        w.write_fields(&fields);
        proof {
            assert(W::<XTAL>::as_field_writes(fields@) =~= seq![(0int, 7int, trim as nat)]);
        }
    }

    /// The PLL coarse code loaded from the OTP memory: it fills the 24 bits
    /// of PLL_CC, which is written, not modified
    pub fn pll_coarse_code(&self, code: u32) -> (w: W<PLL_CC>)
        ensures
            w.wf(),
            fields_written(zero_buffer(3), w@, seq![(0int, 23int, code as nat)]),
    {
        proof {
            PLL_CC::layout();
        }
        let mut w = PLL_CC::write();
        let fields = [(0usize, 23usize, code as u128)];
        w.write_fields(&fields);
        proof {
            assert(W::<PLL_CC>::as_field_writes(fields@) =~= seq![(0int, 23int, code as nat)]);
        }
        w
    }

    /// SYS_CFG as `config` sets it
    pub fn config_sys_cfg(&self, w: &mut W<SYS_CFG>, plan: &ConfigPlan)
        requires
            old(w).wf(),
        ensures
            final(w).wf(),
            fields_written(old(w)@, final(w)@, sys_cfg_writes(*plan)),
    {
        proof {
            SYS_CFG::layout();
        }
        let fields = [
            (4usize, 4usize, plan.phr_mode as u128),
            (5, 5, plan.phr_6m8 as u128),
            (12, 13, plan.cp_spc as u128),
            (16, 17, plan.pdoa_mode as u128),
            (15, 15, 0),
        ];
        w.write_fields(&fields);
        proof {
            assert(W::<SYS_CFG>::as_field_writes(fields@) =~= sys_cfg_writes(*plan));
        }
    }

    /// The operating parameter set of the plan, kicked into use
    pub fn config_operating_set(&self, w: &mut W<OTP_CFG>, plan: &ConfigPlan)
        requires
            old(w).wf(),
        ensures
            final(w).wf(),
            fields_written(old(w)@, final(w)@, operating_set_writes(*plan)),
    {
        proof {
            OTP_CFG::layout();
        }
        let fields = [(11usize, 12usize, plan.ops_sel as u128), (10, 10, 1)];
        w.write_fields(&fields);
        proof {
            assert(W::<OTP_CFG>::as_field_writes(fields@) =~= operating_set_writes(*plan));
        }
    }

    /// The CIA thresholds of the SCP mode, all written, not modified:
    /// IP_CONF with preamble noise threshold multiplier 6 and SCP threshold
    /// 3, the upper word of the preamble configuration zero, STS_CONF_0
    /// with STS noise threshold multiplier 0xA, SCP threshold 0x5A and
    /// replica threshold multiplier 0xC
    pub fn scp_thresholds(&self) -> (r: (W<IP_CONF>, W<IP_CONF_HI>, W<STS_CONF_0>))
        ensures
            r.0.wf(),
            r.1.wf(),
            r.2.wf(),
            fields_written(zero_buffer(4), r.0@, seq![(0int, 4int, 6nat), (8, 9, 3)]),
            fields_written(zero_buffer(4), r.1@, seq![(0int, 31int, 0nat)]),
            fields_written(zero_buffer(4), r.2@, seq![(0int, 4int, 0xAnat), (8, 15, 0x5A), (16, 22, 0xC)]),
    {
        proof {
            IP_CONF::layout();
            IP_CONF_HI::layout();
            STS_CONF_0::layout();
        }
        let mut ip = IP_CONF::write();
        let ip_fields = [(0usize, 4usize, 6u128), (8, 9, 3)];
        ip.write_fields(&ip_fields);
        let mut ip_hi = IP_CONF_HI::write();
        let hi_fields = [(0usize, 31usize, 0u128)];
        ip_hi.write_fields(&hi_fields);
        let mut sts = STS_CONF_0::write();
        let sts_fields = [(0usize, 4usize, 0xAu128), (8, 15, 0x5A), (16, 22, 0xC)];
        sts.write_fields(&sts_fields);
        proof {
            assert(W::<IP_CONF>::as_field_writes(ip_fields@) =~= seq![(0int, 4int, 6nat), (8, 9, 3)]);
            assert(W::<IP_CONF_HI>::as_field_writes(hi_fields@) =~= seq![(0int, 31int, 0nat)]);
            assert(W::<STS_CONF_0>::as_field_writes(sts_fields@) =~= seq![(0int, 4int, 0xAnat), (8, 15, 0x5A), (16, 22, 0xC)]);
        }
        (ip, ip_hi, sts)
    }

    /// DTUNE4 with the SFD detection hold-off of the plan (0x20 for a
    /// preamble and STS over 64 symbols, else 0x14)
    pub fn config_dtune4(&self, w: &mut W<DTUNE4>, plan: &ConfigPlan)
        requires
            old(w).wf(),
        ensures
            final(w).wf(),
            fields_written(old(w)@, final(w)@, seq![(24int, 31int, plan.dtune4 as nat)]),
    {
        proof {
            DTUNE4::layout();
        }
        let fields = [(24usize, 31usize, plan.dtune4 as u128)];
        w.write_fields(&fields);
        proof {
            assert(W::<DTUNE4>::as_field_writes(fields@) =~= seq![(24int, 31int, plan.dtune4 as nat)]);
        }
    }

    /// The STS replica threshold multiplier outside the SCP mode: the STS
    /// minimum threshold of the plan
    pub fn sts_threshold(&self, w: &mut W<STS_CONF_0>, sts_mnth: u8)
        requires
            old(w).wf(),
        ensures
            final(w).wf(),
            fields_written(old(w)@, final(w)@, seq![(16int, 22int, sts_mnth as nat)]),
    {
        proof {
            STS_CONF_0::layout();
        }
        let fields = [(16usize, 22usize, sts_mnth as u128)];
        w.write_fields(&fields);
        proof {
            assert(W::<STS_CONF_0>::as_field_writes(fields@) =~= seq![(16int, 22int, sts_mnth as nat)]);
        }
    }

    /// The STS tuning value: 0x9D in the SCP mode, else 0x94
    pub fn sts_tuning(&self, w: &mut W<STS_CONF_1>, scp: bool)
        requires
            old(w).wf(),
        ensures
            final(w).wf(),
            fields_written(old(w)@, final(w)@, seq![(0int, 7int, if scp { 0x9Dnat } else { 0x94nat })]),
    {
        proof {
            STS_CONF_1::layout();
        }
        let v: u128 = if scp {
            0x9D
        } else {
            0x94
        };
        let fields = [(0usize, 7usize, v)];
        w.write_fields(&fields);
        proof {
            assert(W::<STS_CONF_1>::as_field_writes(fields@) =~= seq![(0int, 7int, if scp { 0x9Dnat } else { 0x94nat })]);
        }
    }

    /// The receiver tuning of the plan: PAC size and tuning bit 4 in
    /// DTUNE0, STS length in STS_CFG, the recommended DTUNE3 value
    /// 0xAF5F35CC, and the SFD timeout
    pub fn config_rx_tuning(
        &self,
        plan: &ConfigPlan,
        dtune0: &mut W<DTUNE0>,
        sts_cfg: &mut W<STS_CFG>,
        dtune3: &mut W<DTUNE3>,
        sfd_toc: &mut W<RX_SFD_TOC>,
    )
        requires
            old(dtune0).wf(),
            old(sts_cfg).wf(),
            old(dtune3).wf(),
            old(sfd_toc).wf(),
        ensures
            final(dtune0).wf(),
            final(sts_cfg).wf(),
            final(dtune3).wf(),
            final(sfd_toc).wf(),
            fields_written(old(dtune0)@, final(dtune0)@, dtune0_writes(*plan)),
            fields_written(old(sts_cfg)@, final(sts_cfg)@, seq![(0int, 7int, plan.cps_len as nat)]),
            fields_written(old(dtune3)@, final(dtune3)@, seq![(0int, 31int, 0xAF5F35CCnat)]),
            fields_written(old(sfd_toc)@, final(sfd_toc)@, seq![(0int, 15int, plan.sfd_toc as nat)]),
    {
        proof {
            DTUNE0::layout();
            STS_CFG::layout();
            DTUNE3::layout();
            RX_SFD_TOC::layout();
        }
        let d0 = [(0usize, 1usize, plan.pac as u128), (4, 4, plan.dt0b4 as u128)];
        dtune0.write_fields(&d0);
        let sc = [(0usize, 7usize, plan.cps_len as u128)];
        sts_cfg.write_fields(&sc);
        let d3 = [(0usize, 31usize, 0xAF5F35CCu128)];
        dtune3.write_fields(&d3);
        let st = [(0usize, 15usize, plan.sfd_toc as u128)];
        sfd_toc.write_fields(&st);
        proof {
            assert(W::<DTUNE0>::as_field_writes(d0@) =~= dtune0_writes(*plan));
            assert(W::<STS_CFG>::as_field_writes(sc@) =~= seq![(0int, 7int, plan.cps_len as nat)]);
            assert(W::<DTUNE3>::as_field_writes(d3@) =~= seq![(0int, 31int, 0xAF5F35CCnat)]);
            assert(W::<RX_SFD_TOC>::as_field_writes(st@) =~= seq![(0int, 15int, plan.sfd_toc as nat)]);
        }
    }

    /// TX_FCTRL as `config` sets it
    pub fn config_tx_fctrl(&self, w: &mut W<crate::ll::registers::TX_FCTRL>, plan: &ConfigPlan)
        requires
            old(w).wf(),
        ensures
            final(w).wf(),
            fields_written(old(w)@, final(w)@, config_tx_fctrl_writes(*plan)),
    {
        proof {
            crate::ll::registers::TX_FCTRL::layout();
        }
        let fields = [(40usize, 47usize, plan.fine_plen as u128), (10, 10, plan.txbr as u128), (12, 15, plan.txpsr as u128)];
        w.write_fields(&fields);
        proof {
            assert(W::<crate::ll::registers::TX_FCTRL>::as_field_writes(fields@) =~= config_tx_fctrl_writes(*plan));
        }
    }

    /// CHAN_CTRL as `config` sets it
    pub fn config_channel(&self, w: &mut W<CHAN_CTRL>, plan: &ConfigPlan)
        requires
            old(w).wf(),
        ensures
            final(w).wf(),
            fields_written(old(w)@, final(w)@, chan_ctrl_writes(*plan)),
    {
        proof {
            CHAN_CTRL::layout();
        }
        let fields = [
            (0usize, 0usize, plan.rf_chan as u128),
            (1, 2, plan.sfd_type as u128),
            (3, 7, plan.tx_preamble_code as u128),
            (8, 12, plan.rx_preamble_code as u128),
        ];
        w.write_fields(&fields);
        proof {
            assert(W::<CHAN_CTRL>::as_field_writes(fields@) =~= chan_ctrl_writes(*plan));
        }
    }

    /// The RF and PLL settings of the plan: RF_TX_CTRL_2 and PLL_CFG for
    /// the channel, LDO_RLOAD 0x14 and RF_TX_CTRL_1 0x0E
    pub fn config_rf(
        &self,
        plan: &ConfigPlan,
        rf_tx_ctrl_2: &mut W<RF_TX_CTRL_2>,
        pll_cfg: &mut W<PLL_CFG>,
        ldo_rload: &mut W<LDO_RLOAD>,
        rf_tx_ctrl_1: &mut W<RF_TX_CTRL_1>,
    )
        requires
            old(rf_tx_ctrl_2).wf(),
            old(pll_cfg).wf(),
            old(ldo_rload).wf(),
            old(rf_tx_ctrl_1).wf(),
        ensures
            final(rf_tx_ctrl_2).wf(),
            final(pll_cfg).wf(),
            final(ldo_rload).wf(),
            final(rf_tx_ctrl_1).wf(),
            fields_written(old(rf_tx_ctrl_2)@, final(rf_tx_ctrl_2)@, seq![(0int, 31int, plan.rf_tx_ctrl_2 as nat)]),
            fields_written(old(pll_cfg)@, final(pll_cfg)@, seq![(0int, 15int, plan.pll_conf as nat)]),
            fields_written(old(ldo_rload)@, final(ldo_rload)@, seq![(0int, 7int, 0x14nat)]),
            fields_written(old(rf_tx_ctrl_1)@, final(rf_tx_ctrl_1)@, seq![(0int, 7int, 0x0Enat)]),
    {
        proof {
            RF_TX_CTRL_2::layout();
            PLL_CFG::layout();
            LDO_RLOAD::layout();
            RF_TX_CTRL_1::layout();
        }
        let f2 = [(0usize, 31usize, plan.rf_tx_ctrl_2 as u128)];
        rf_tx_ctrl_2.write_fields(&f2);
        let fp = [(0usize, 15usize, plan.pll_conf as u128)];
        pll_cfg.write_fields(&fp);
        let fl = [(0usize, 7usize, 0x14u128)];
        ldo_rload.write_fields(&fl);
        let f1 = [(0usize, 7usize, 0x0Eu128)];
        rf_tx_ctrl_1.write_fields(&f1);
        proof {
            assert(W::<RF_TX_CTRL_2>::as_field_writes(f2@) =~= seq![(0int, 31int, plan.rf_tx_ctrl_2 as nat)]);
            assert(W::<PLL_CFG>::as_field_writes(fp@) =~= seq![(0int, 15int, plan.pll_conf as nat)]);
            assert(W::<LDO_RLOAD>::as_field_writes(fl@) =~= seq![(0int, 7int, 0x14nat)]);
            assert(W::<RF_TX_CTRL_1>::as_field_writes(f1@) =~= seq![(0int, 7int, 0x0Enat)]);
        }
    }

    /// The system clock source: 0 for auto, 3 for the IDLE RC oscillator
    pub fn sys_clock(&self, w: &mut W<CLK_CTRL>, source: u8)
        requires
            old(w).wf(),
        ensures
            final(w).wf(),
            fields_written(old(w)@, final(w)@, seq![(0int, 1int, source as nat)]),
    {
        proof {
            CLK_CTRL::layout();
        }
        let fields = [(0usize, 1usize, source as u128)];
        w.write_fields(&fields);
        proof {
            assert(W::<CLK_CTRL>::as_field_writes(fields@) =~= seq![(0int, 1int, source as nat)]);
        }
    }

    /// All clocks back on auto (see [`clocks_auto_writes`])
    pub fn clocks_auto(&self, w: &mut W<CLK_CTRL>)
        requires
            old(w).wf(),
        ensures
            final(w).wf(),
            fields_written(old(w)@, final(w)@, clocks_auto_writes()),
    {
        proof {
            CLK_CTRL::layout();
        }
        let fields = [(0usize, 1usize, 0u128), (2, 3, 0), (4, 5, 0), (6, 6, 0), (8, 8, 0), (10, 10, 0), (15, 15, 0)];
        w.write_fields(&fields);
        proof {
            assert(W::<CLK_CTRL>::as_field_writes(fields@) =~= clocks_auto_writes());
        }
    }

    /// The FORCE2INIT bit, which forces the PLL to unlock while it is set
    pub fn force_to_init(&self, w: &mut W<SEQ_CTRL>, on: bool)
        requires
            old(w).wf(),
        ensures
            final(w).wf(),
            fields_written(old(w)@, final(w)@, seq![(23int, 23int, if on { 1nat } else { 0nat })]),
    {
        proof {
            SEQ_CTRL::layout();
        }
        let v: u128 = if on {
            1
        } else {
            0
        };
        let fields = [(23usize, 23usize, v)];
        w.write_fields(&fields);
        proof {
            assert(W::<SEQ_CTRL>::as_field_writes(fields@) =~= seq![(23int, 23int, if on { 1nat } else { 0nat })]);
        }
    }

    /// The AINIT2IDLE bit set: the chip goes from INIT to IDLE by itself
    pub fn auto_init_to_idle(&self, w: &mut W<SEQ_CTRL>)
        requires
            old(w).wf(),
        ensures
            final(w).wf(),
            fields_written(old(w)@, final(w)@, seq![(8int, 8int, 1nat)]),
    {
        proof {
            SEQ_CTRL::layout();
        }
        let fields = [(8usize, 8usize, 1u128)];
        w.write_fields(&fields);
        proof {
            assert(W::<SEQ_CTRL>::as_field_writes(fields@) =~= seq![(8int, 8int, 1nat)]);
        }
    }

    /// PLL_CAL before the calibration: the coarse code is not used as the
    /// starting point, calibration configuration 8
    pub fn pll_cal_setup(&self, w: &mut W<PLL_CAL>)
        requires
            old(w).wf(),
        ensures
            final(w).wf(),
            fields_written(old(w)@, final(w)@, seq![(1int, 1int, 0nat), (4, 7, 8)]),
    {
        proof {
            PLL_CAL::layout();
        }
        let fields = [(1usize, 1usize, 0u128), (4, 7, 8)];
        w.write_fields(&fields);
        proof {
            assert(W::<PLL_CAL>::as_field_writes(fields@) =~= seq![(1int, 1int, 0nat), (4, 7, 8)]);
        }
    }

    /// PLL_CAL that starts the calibration from the coarse code
    pub fn pll_cal_start(&self, w: &mut W<PLL_CAL>)
        requires
            old(w).wf(),
        ensures
            final(w).wf(),
            fields_written(old(w)@, final(w)@, seq![(1int, 1int, 1nat), (8, 8, 1)]),
    {
        proof {
            PLL_CAL::layout();
        }
        let fields = [(1usize, 1usize, 1u128), (8, 8, 1)];
        w.write_fields(&fields);
        proof {
            assert(W::<PLL_CAL>::as_field_writes(fields@) =~= seq![(1int, 1int, 1nat), (8, 8, 1)]);
        }
    }

    /// SYS_STATUS that clears the clock PLL lock flag (see
    /// [`cplock_clear_writes`])
    pub fn cplock_clear(&self, w: &mut W<SYS_STATUS>)
        requires
            old(w).wf(),
        ensures
            final(w).wf(),
            fields_written(old(w)@, final(w)@, cplock_clear_writes()),
    {
        proof {
            SYS_STATUS::layout();
        }
        let fields = [(0usize, 0usize, 0u128), (1, 1, 1), (2, 2, 0), (3, 3, 0), (4, 4, 0), (5, 5, 0), (6, 6, 0), (7, 7, 0)];
        w.write_fields(&fields);
        proof {
            assert(W::<SYS_STATUS>::as_field_writes(fields@) =~= cplock_clear_writes());
        }
    }

    /// OTP_CFG that loads the digital gain control configuration of the
    /// plan's channel from the OTP memory
    pub fn dgc_kick(&self, w: &mut W<OTP_CFG>, plan: &ConfigPlan)
        requires
            old(w).wf(),
        ensures
            final(w).wf(),
            fields_written(old(w)@, final(w)@, seq![(6int, 6int, 1nat), (13, 13, plan.rf_chan as nat)]),
    {
        proof {
            OTP_CFG::layout();
        }
        let fields = [(6usize, 6usize, 1u128), (13, 13, plan.rf_chan as u128)];
        w.write_fields(&fields);
        proof {
            assert(W::<OTP_CFG>::as_field_writes(fields@) =~= seq![(6int, 6int, 1nat), (13, 13, plan.rf_chan as nat)]);
        }
    }

    /// DGC_CFG at the end of the gain control setup: threshold 0x32 where
    /// the gain control is tuned, else receiver tuning disabled
    pub fn dgc_threshold(&self, w: &mut W<DGC_CFG>, tuned: bool)
        requires
            old(w).wf(),
        ensures
            final(w).wf(),
            fields_written(
                old(w)@,
                final(w)@,
                if tuned { seq![(9int, 14int, 0x32nat)] } else { seq![(0int, 0int, 0nat)] },
            ),
    {
        proof {
            DGC_CFG::layout();
        }
        let fields = if tuned {
            [(9usize, 14usize, 0x32u128)]
        } else {
            [(0usize, 0usize, 0u128)]
        };
        w.write_fields(&fields);
        proof {
            assert(W::<DGC_CFG>::as_field_writes(fields@) =~= if tuned {
                seq![(9int, 14int, 0x32nat)]
            } else {
                seq![(0int, 0int, 0nat)]
            });
        }
    }

    /// The low half of LDO_CTRL: [`PGF_CAL_LDO_LOW`] during the PGF
    /// calibration, the value read before it afterwards
    pub fn ldo_ctrl_low(&self, w: &mut W<LDO_CTRL>, low: u16)
        requires
            old(w).wf(),
        ensures
            final(w).wf(),
            fields_written(old(w)@, final(w)@, seq![(0int, 15int, low as nat)]),
    {
        proof {
            LDO_CTRL::layout();
        }
        let fields = [(0usize, 15usize, low as u128)];
        w.write_fields(&fields);
        proof {
            assert(W::<LDO_CTRL>::as_field_writes(fields@) =~= seq![(0int, 15int, low as nat)]);
        }
    }

    /// RX_CAL for the steps of the PGF calibration: 0 sets the comparator
    /// delay 2 and calibration mode 1, 1 enables the calibration, 2 ends it
    /// (mode and enable back to 0)
    pub fn pgf_cal_step(&self, w: &mut W<RX_CAL>, step: u8)
        requires
            old(w).wf(),
            step <= 2,
        ensures
            final(w).wf(),
            fields_written(old(w)@, final(w)@, pgf_cal_writes(step)),
    {
        proof {
            RX_CAL::layout();
        }
        if step == 0 {
            let fields = [(16usize, 19usize, 2u128), (0, 1, 1)];
            w.write_fields(&fields);
            proof {
                assert(W::<RX_CAL>::as_field_writes(fields@) =~= pgf_cal_writes(step));
            }
        } else if step == 1 {
            let fields = [(4usize, 7usize, 1u128)];
            w.write_fields(&fields);
            proof {
                assert(W::<RX_CAL>::as_field_writes(fields@) =~= pgf_cal_writes(step));
            }
        } else {
            let fields = [(0usize, 1usize, 0u128), (4, 7, 0)];
            w.write_fields(&fields);
            proof {
                assert(W::<RX_CAL>::as_field_writes(fields@) =~= pgf_cal_writes(step));
            }
        }
    }

    /// RX_CAL_STS that acknowledges the calibration result
    pub fn pgf_cal_status_clear(&self, w: &mut W<RX_CAL_STS>)
        requires
            old(w).wf(),
        ensures
            final(w).wf(),
            fields_written(old(w)@, final(w)@, seq![(0int, 0int, 1nat)]),
    {
        proof {
            RX_CAL_STS::layout();
        }
        let fields = [(0usize, 0usize, 1u128)];
        w.write_fields(&fields);
        proof {
            assert(W::<RX_CAL_STS>::as_field_writes(fields@) =~= seq![(0int, 0int, 1nat)]);
        }
    }

    /// RX_CAL after the calibration: the comparator delay read, with its
    /// low bit set
    pub fn pgf_comp_delay(&self, r: &R<RX_CAL>) -> (w: W<RX_CAL>)
        requires
            r.wf(),
        ensures
            w.wf(),
            fields_written(r@, w@, seq![(16int, 19int, (r.field(16, 19) as u8 | 1u8) as nat)]),
    {
        proof {
            RX_CAL::layout();
        }
        let mut w = W::from_read(r);
        let d: u8 = r.comp_dly() | 1;
        let fields = [(16usize, 19usize, d as u128)];
        w.write_fields(&fields);
        proof {
            assert(W::<RX_CAL>::as_field_writes(fields@) =~= seq![(16int, 19int, (r.field(16, 19) as u8 | 1u8) as nat)]);
        }
        w
    }
}

/// The RX_CAL writes of PGF calibration step `step` (see
/// [`DW3000::pgf_cal_step`])
pub open spec fn pgf_cal_writes(step: u8) -> Seq<FieldWrite> {
    if step == 0 {
        seq![(16int, 19int, 2nat), (0, 1, 1)]
    } else if step == 1 {
        seq![(4int, 7int, 1nat)]
    } else {
        seq![(0int, 1int, 0nat), (4, 7, 0)]
    }
}

} // verus!
