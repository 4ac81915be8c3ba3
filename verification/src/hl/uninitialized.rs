//! Initialization and configuration of the radio
//!
//! `init` and `config` read calibration values and the state of the chip,
//! and decide from them, and from the [`Config`], what to write. These
//! decisions are made here.

use vstd::prelude::*;

use crate::configs::{
    isqrt, lemma_isqrt, BitRate, Config, PdoaMode, PhrMode, PreambleLength, StsMode, UwbChannel,
};
use crate::hl::configuring::DGC_CFG0_VALUE;
use crate::hl::states::Uninitialized;
use crate::hl::DW3000;
use crate::ll::registers::{BIAS_CTRL, DEV_ID, OTP_ADDR, OTP_CFG, RX_CAL_RESI, RX_CAL_RESQ};
use crate::ll::{fields_written, zero_buffer, Writable, R, W};

verus! {

/// What `init` loads from the OTP memory
#[derive(Copy, Clone, Debug, PartialEq, Eq, Structural)]
pub struct InitCalibration {
    /// Whether the LDO and bias tuning values are loaded (the OTP memory
    /// holds valid values for both)
    pub load_ldo_bias: bool,
    /// The BIASTUNE_CAL value (bits 16 to 20 of OTP word 0x0A)
    pub biastune_cal: u16,
    /// The crystal trim: the low six bits of OTP word 0x1E, or 0x2E where
    /// these are zero
    pub xtal_trim: u8,
    /// The PLL lock code of OTP word 0x35, where it is not zero
    pub pll_lock_code: Option<u32>,
}

/// The calibration that `init` loads from the OTP words it reads
pub open spec fn init_calibration_spec(
    ldo_tune_l: u32,
    ldo_tune_h: u32,
    bias_otp: u32,
    xtal_otp: u32,
    pll_lock_code: u32,
) -> InitCalibration {
    let biastune = (bias_otp / 0x1_0000) % 0x20;
    let xtrim = xtal_otp % 0x40;
    InitCalibration {
        load_ldo_bias: ldo_tune_l != 0 && ldo_tune_h != 0 && biastune != 0,
        biastune_cal: biastune as u16,
        xtal_trim: if xtrim != 0 { xtrim as u8 } else { 0x2E },
        pll_lock_code: if pll_lock_code != 0 { Some(pll_lock_code) } else { None },
    }
}

/// The settings that `config` writes, derived from a [`Config`]
#[derive(Copy, Clone, Debug, PartialEq, Eq, Structural)]
pub struct ConfigPlan {
    /// The preamble code used for transmitting
    pub tx_preamble_code: u8,
    /// The preamble code used for receiving
    pub rx_preamble_code: u8,
    /// Whether a preamble code above 24 selects the SCP mode
    pub scp: bool,
    /// The PHR_MODE bit: 1 for the extended PHR mode
    pub phr_mode: u8,
    /// The PHR_6M8 bit
    pub phr_6m8: u8,
    /// The STS packet configuration
    pub cp_spc: u8,
    /// The PDoA mode
    pub pdoa_mode: u8,
    /// The STS minimum threshold, at most 0x7F, where STS is used outside
    /// the SCP mode
    pub sts_mnth: Option<u8>,
    /// The operating parameter set: 1 in SCP mode, else 0 (long) for a
    /// preamble and STS over 256 symbols, else 2 (short)
    pub ops_sel: u8,
    /// The length of the preamble, STS included, in symbols
    pub preamble_length_actual: usize,
    /// The PAC size code
    pub pac: u8,
    /// Tuning bit 4 of DTUNE0: 0 in PDoA mode 1, else 1
    pub dt0b4: u8,
    /// The STS length in blocks of eight, minus one
    pub cps_len: u8,
    /// The fine preamble length: 8 for 72 symbols, else 0
    pub fine_plen: u8,
    /// The channel
    pub rf_chan: u8,
    /// The SFD type
    pub sfd_type: u8,
    /// The transmit bitrate bit
    pub txbr: u8,
    /// The preamble length code
    pub txpsr: u8,
    /// The SFD timeout
    pub sfd_toc: u16,
    /// RF_TX_CTRL_2 for the channel
    pub rf_tx_ctrl_2: u32,
    /// PLL_CFG for the channel
    pub pll_conf: u16,
    /// Whether the digital gain control is tuned: the receive preamble code
    /// is in 9 ..= 24
    pub dgc_tuned: bool,
    /// DTUNE4: 0x20 for a preamble and STS over 64 symbols, else 0x14
    pub dtune4: u8,
}

/// What a wait of `init` or `config` does after one poll of a status flag
#[derive(Copy, Clone, Debug, PartialEq, Eq, Structural)]
pub enum PollStep {
    /// The flag is set: the wait ends
    Done,
    /// Not yet: poll again, with this many polls left
    Again(u32),
    /// No polls are left: the wait fails
    TimedOut,
}

/// How many times `init` reads RCINIT before it gives up
pub const RCINIT_POLLS: u32 = 1000;

/// How many more times `config` polls CPLOCK, 20 µs apart, once the first
/// poll found the PLL unlocked
pub const CPLOCK_POLLS: u32 = 1000;

/// How many times `config` polls the PGF calibration status
pub const PGF_CAL_POLLS: u32 = 3;

/// The preamble code used where the configuration names none
pub open spec fn preamble_code(code: Option<u8>, config: Config) -> u8 {
    match code {
        Some(c) => c,
        None => UwbChannel::recommended_preamble_code(config.pulse_repetition_frequency),
    }
}

/// The number of preamble and STS symbols: the STS counts outside the SCP
/// mode, where STS is used
pub open spec fn preamble_symbols(config: Config, scp: bool) -> nat {
    config.preamble_length.num_of_symbols() + if !scp && config.sts_mode != StsMode::StsModeOff {
        8 * config.sts_len.blocks()
    } else {
        0
    }
}

/// The STS minimum threshold that `config` writes, at most 0x7F, where STS
/// is used outside the SCP mode
pub open spec fn sts_mnth_setting(config: Config, scp: bool) -> Option<u8> {
    let mnth = isqrt(0x10 * 0x10 * config.sts_len.blocks() as int / config.pdoa_mode.sts_divisor());
    if !scp && config.sts_mode != StsMode::StsModeOff {
        Some((if mnth > 0x7F { 0x7F } else { mnth }) as u8)
    } else {
        None
    }
}

/// The settings that `config` derives from a [`Config`]
pub open spec fn config_plan(config: Config) -> ConfigPlan {
    let tx = preamble_code(config.tx_preamble_code, config);
    let rx = preamble_code(config.rx_preamble_code, config);
    let scp = rx > 24 || tx > 24;
    let symbols = preamble_symbols(config, scp);
    ConfigPlan {
        tx_preamble_code: tx,
        rx_preamble_code: rx,
        scp,
        phr_mode: if config.phr_mode == PhrMode::Extended { 1 } else { 0 },
        phr_6m8: match config.phr_rate {
            crate::configs::PhrRate::Standard => 0,
            crate::configs::PhrRate::DataRate => 1,
        },
        cp_spc: match config.sts_mode {
            StsMode::StsModeOff => 0,
            StsMode::StsMode1 => 1,
            StsMode::StsMode2 => 2,
            StsMode::StsModeND => 3,
        },
        pdoa_mode: match config.pdoa_mode {
            PdoaMode::Mode0 => 0,
            PdoaMode::Mode1 => 1,
            PdoaMode::Mode3 => 3,
        },
        sts_mnth: sts_mnth_setting(config, scp),
        ops_sel: if scp { 1 } else if symbols > 256 { 0 } else { 2 },
        preamble_length_actual: symbols as usize,
        pac: match config.preamble_length {
            PreambleLength::Symbols32 => 3,
            PreambleLength::Symbols64 => 0,
            _ => 1,
        },
        dt0b4: if config.pdoa_mode == PdoaMode::Mode1 { 0 } else { 1 },
        cps_len: ((config.sts_len.blocks() + 255) % 256) as u8,
        fine_plen: if config.preamble_length == PreambleLength::Symbols72 { 8 } else { 0 },
        rf_chan: if config.channel == UwbChannel::Channel9 { 1 } else { 0 },
        sfd_type: match config.sfd_sequence {
            crate::configs::SfdSequence::IeeeShort => 0,
            crate::configs::SfdSequence::Decawave8 => 1,
            crate::configs::SfdSequence::Decawave16 => 2,
            crate::configs::SfdSequence::Ieee => 3,
        },
        txbr: if config.bitrate == BitRate::Kbps6800 { 1 } else { 0 },
        txpsr: match config.preamble_length {
            PreambleLength::Symbols64 => 0b0001,
            PreambleLength::Symbols1024 => 0b0010,
            PreambleLength::Symbols4096 => 0b0011,
            PreambleLength::Symbols32 => 0b0100,
            PreambleLength::Symbols128 => 0b0101,
            PreambleLength::Symbols1536 => 0b0110,
            PreambleLength::Symbols256 => 0b1001,
            PreambleLength::Symbols2048 => 0b1010,
            PreambleLength::Symbols512 => 0b1101,
            PreambleLength::Symbols72 => 0b0111,
        },
        sfd_toc: (config.sfd_timeout % 0x1_0000) as u16,
        rf_tx_ctrl_2: if config.channel == UwbChannel::Channel9 { 0x1C010034 } else { 0x1C071134 },
        pll_conf: if config.channel == UwbChannel::Channel9 { 0x0F3C } else { 0x1F3C },
        dgc_tuned: 9 <= rx <= 24,
        dtune4: if symbols > 64 { 0x20 } else { 0x14 },
    }
}

/// DTUNE4 follows the length of the preamble: 0x14 where the preamble's
/// symbols, with those of the STS where STS is used outside the SCP mode
/// (both preamble codes at most 24), are at most 64, else 0x20; and that
/// sum is the plan's actual preamble length.
pub proof fn lemma_dtune4_follows_preamble_length(config: Config)
    ensures
        ({
            let tx = preamble_code(config.tx_preamble_code, config);
            let rx = preamble_code(config.rx_preamble_code, config);
            let sts: nat = if tx <= 24 && rx <= 24 && config.sts_mode != StsMode::StsModeOff {
                8 * config.sts_len.blocks()
            } else {
                0
            };
            let symbols = config.preamble_length.num_of_symbols() + sts;
            &&& config_plan(config).preamble_length_actual == symbols
            &&& config_plan(config).dtune4 == (if symbols <= 64 { 0x14u8 } else { 0x20u8 })
        }),
{
}

/// The SFD type that `config` writes to CHAN_CTRL is the two-bit code of
/// the configured SFD sequence, and TXPSR/PE the code of the configured
/// preamble length, as [`SfdSequence::value`] and [`PreambleLength::value`]
/// give them.
pub proof fn lemma_plan_codes(config: Config)
    ensures
        config_plan(config).sfd_type == config.sfd_sequence.code(),
        config_plan(config).txpsr == config.preamble_length.code(),
        config_plan(config).sfd_type < 4,
        config_plan(config).txpsr < 16,
{
}

/// The STS threshold, the number of preamble and STS symbols, and the
/// operating parameter set of a configuration
fn sts_settings(config: &Config, is_scp: bool) -> (r: (Option<u8>, usize, u8))
    ensures
        r.0 == sts_mnth_setting(*config, is_scp),
        r.1 == preamble_symbols(*config, is_scp),
        r.2 == (if is_scp { 1u8 } else if preamble_symbols(*config, is_scp) > 256 { 0u8 } else { 2u8 }),
{
    let mut preamble_length_actual: usize = config.preamble_length.get_num_of_symbols();
    let mut sts_mnth: Option<u8> = None;
    let ops_sel: u8;
    if is_scp {
        ops_sel = 0x1;
    } else {
        if config.sts_mode != StsMode::StsModeOff {
            // Configure CIA STS minimum thresholds for security
            let mut mnth: u16 = config.sts_len.get_sts_mnth(config.pdoa_mode);
            proof {
                lemma_isqrt(
                    0x10 * 0x10 * config.sts_len.blocks() as int / config.pdoa_mode.sts_divisor(),
                    mnth as int,
                );
            }
            if mnth > 0x7F {
                mnth = 0x7F;
            }
            preamble_length_actual = preamble_length_actual + config.sts_len.get_sts_length() as usize;
            sts_mnth = Some(mnth as u8);
        }
        if preamble_length_actual > 256 {
            ops_sel = 0x0;  // long operating parameter set
        } else {
            ops_sel = 0x2;  // short operating parameter set
        }
    }
    (sts_mnth, preamble_length_actual, ops_sel)
}

impl<SPI, CS> DW3000<SPI, CS, Uninitialized> {
    /// Read the OTP memory: the OTP_CFG values (written, not modified) that
    /// enable manual control, written first, and that start the read,
    /// written once the address is in OTP_ADDR (see
    /// [`DW3000::otp_address`]); the data is then read from OTP_RDATA
    pub fn read_otp(&self) -> (r: (W<OTP_CFG>, W<OTP_CFG>))
        ensures
            r.0.wf(),
            r.1.wf(),
            fields_written(zero_buffer(2), r.0@, seq![(0int, 0int, 1nat)]),
            fields_written(zero_buffer(2), r.1@, seq![(1int, 1int, 1nat)]),
    {
        proof {
            OTP_CFG::layout();
        }
        let mut manual = OTP_CFG::write();
        let man = [(0usize, 0usize, 1u128)];
        manual.write_fields(&man);
        let mut read = OTP_CFG::write();
        let rd = [(1usize, 1usize, 1u128)];
        read.write_fields(&rd);
        proof {
            assert(W::<OTP_CFG>::as_field_writes(man@) =~= seq![(0int, 0int, 1nat)]);
            assert(W::<OTP_CFG>::as_field_writes(rd@) =~= seq![(1int, 1int, 1nat)]);
        }
        (manual, read)
    }

    /// The 11-bit OTP address of a read, in OTP_ADDR
    pub fn otp_address(&self, otp_addr: &mut W<OTP_ADDR>, addr: u16)
        requires
            old(otp_addr).wf(),
        ensures
            final(otp_addr).wf(),
            fields_written(old(otp_addr)@, final(otp_addr)@, seq![(0int, 10int, addr as nat)]),
    {
        proof {
            OTP_ADDR::layout();
        }
        let a = [(0usize, 10usize, addr as u128)];
        otp_addr.write_fields(&a);
        proof {
            assert(W::<OTP_ADDR>::as_field_writes(a@) =~= seq![(0int, 10int, addr as nat)]);
        }
    }

    /// Whether the device identifier is that of a DW3000: RIDTAG 0xDECA and
    /// model 3
    pub fn device_id_valid(&self, r: &R<DEV_ID>) -> (b: bool)
        requires
            r.wf(),
        ensures
            b == (r.field(16, 31) == 0xDECA && r.field(8, 15) == 3),
    {
        proof {
            DEV_ID::layout();
        }
        r.ridtag() == 0xDECA && r.model() == 0x3
    }

    /// What `init` loads, from the OTP words LDO_TUNE (low and high),
    /// BIASTUNE_CAL, XTAL_TRIM and the PLL lock code
    pub fn init_calibration(
        &self,
        ldo_tune_l: u32,
        ldo_tune_h: u32,
        bias_otp: u32,
        xtal_otp: u32,
        pll_lock_code: u32,
    ) -> (c: InitCalibration)
        ensures
            c == init_calibration_spec(ldo_tune_l, ldo_tune_h, bias_otp, xtal_otp, pll_lock_code),
    {
        let biastune_cal: u32 = bias_otp >> 0x10 & 0x1F;
        let xtrim: u32 = xtal_otp & 0x3F;
        proof {
            assert(bias_otp >> 0x10 & 0x1F == (bias_otp / 0x1_0000) % 0x20) by (bit_vector);
            assert(xtal_otp & 0x3F == xtal_otp % 0x40) by (bit_vector);
        }
        InitCalibration {
            load_ldo_bias: ldo_tune_l != 0 && ldo_tune_h != 0 && (biastune_cal != 0),
            biastune_cal: biastune_cal as u16,
            xtal_trim: if xtrim != 0 {
                xtrim as u8
            } else {
                0x2E
            },
            pll_lock_code: if pll_lock_code != 0 {
                Some(pll_lock_code)
            } else {
                None
            },
        }
    }

    /// BIAS_CTRL with the BIASTUNE_CAL value in its low five bits: the read
    /// value with bits 0 to 4 cleared, or-ed with the calibration value
    pub fn bias_ctrl_update(&self, r: &R<BIAS_CTRL>, biastune_cal: u16) -> (w: W<BIAS_CTRL>)
        requires
            r.wf(),
        ensures
            w.wf(),
            fields_written(r@, w@, seq![(0int, 13int, ((r.field(0, 13) as u16 & 0xFFE0u16) | biastune_cal) as nat)]),
    {
        proof {
            BIAS_CTRL::layout();
        }
        let mut w = W::from_read(r);
        let v: u16 = r.value() & 0xFFE0 | biastune_cal;
        let fields = [(0usize, 13usize, v as u128)];
        w.write_fields(&fields);
        proof {
            assert(W::<BIAS_CTRL>::as_field_writes(fields@) =~= seq![(0int, 13int, ((r.field(0, 13) as u16 & 0xFFE0u16) | biastune_cal) as nat)]);
        }
        w
    }

    /// The settings that `config` writes for `config`
    #[verifier::rlimit(50)]
    pub fn plan_config(&self, config: &Config) -> (p: ConfigPlan)
        ensures
            p == config_plan(*config),
    {
        let channel = config.channel;
        let tx_preamble_code: u8 = match config.tx_preamble_code {
            Some(c) => c,
            None => channel.get_recommended_preamble_code(config.pulse_repetition_frequency),
        };
        let rx_preamble_code: u8 = match config.rx_preamble_code {
            Some(c) => c,
            None => channel.get_recommended_preamble_code(config.pulse_repetition_frequency),
        };
        // Check if the channel is SCP or not
        let is_scp = rx_preamble_code > 24 || tx_preamble_code > 24;
        // Are we using the special PHR mode?
        let is_extended_phr = config.phr_mode == PhrMode::Extended;
        let (sts_mnth, preamble_length_actual, ops_sel) = sts_settings(config, is_scp);
        let sts_blocks: u16 = config.sts_len.value();
        // The STS length in blocks of eight, minus one
        let cps_len: u8 = (sts_blocks - 1) as u8;
        let t: u32 = config.sfd_timeout;
        let sfd_toc: u16 = #[verifier::truncate] (t as u16);
        proof {
            assert(#[verifier::truncate] (t as u16) == t % 0x1_0000) by (bit_vector);
        }
        let p = ConfigPlan {
            tx_preamble_code,
            rx_preamble_code,
            scp: is_scp,
            phr_mode: if is_extended_phr {
                1
            } else {
                0
            },
            phr_6m8: config.phr_rate.value(),
            cp_spc: config.sts_mode.value(),
            pdoa_mode: config.pdoa_mode.value(),
            sts_mnth,
            ops_sel,
            preamble_length_actual,
            pac: config.preamble_length.get_recommended_pac_size(),
            dt0b4: if config.pdoa_mode == PdoaMode::Mode1 {
                0x0
            } else {
                0x1
            },
            cps_len,
            fine_plen: if config.preamble_length == PreambleLength::Symbols72 {
                0x8
            } else {
                0x0
            },
            rf_chan: config.channel.value(),
            sfd_type: config.sfd_sequence.value(),
            txbr: config.bitrate.value(),
            txpsr: config.preamble_length.value(),
            sfd_toc,
            rf_tx_ctrl_2: config.channel.get_recommended_rf_tx_ctrl_2(),
            pll_conf: config.channel.get_recommended_pll_conf(),
            dgc_tuned: 9 <= rx_preamble_code && rx_preamble_code <= 24,
            dtune4: if preamble_length_actual > 64 {
                0x20
            } else {
                0x14
            },
        };
        p
    }

    /// One poll of CPLOCK while `config` waits for the PLL to lock, with
    /// `left` polls left: done once the flag is set, timed out when none
    /// is left, else one poll fewer
    pub fn cplock_poll(&self, left: u32, cplock: bool) -> (s: PollStep)
        ensures
            s == (if cplock {
                PollStep::Done
            } else if left == 0 {
                PollStep::TimedOut
            } else {
                PollStep::Again((left - 1) as u32)
            }),
    {
        if cplock {
            PollStep::Done
        } else if left == 0 {
            PollStep::TimedOut
        } else {
            PollStep::Again(left - 1)
        }
    }

    /// One poll of RX_CAL_STS during the PGF calibration, with `retries`
    /// polls counted down from [`PGF_CAL_POLLS`]: done once the status is not
    /// zero, else one retry is used up, and the calibration fails when none
    /// is left
    pub fn pgf_cal_poll(&self, retries: u32, status: u8) -> (s: PollStep)
        ensures
            s == (if status != 0 {
                PollStep::Done
            } else if retries <= 1 {
                PollStep::TimedOut
            } else {
                PollStep::Again((retries - 1) as u32)
            }),
    {
        if status != 0 {
            PollStep::Done
        } else if retries <= 1 {
            PollStep::TimedOut
        } else {
            PollStep::Again(retries - 1)
        }
    }

    /// Whether the PLL has to be unlocked before it is configured: the PMSC
    /// state machine is in state 3, the PLL locked
    pub fn pll_unlock_needed(&self, pmsc_state: u8) -> (b: bool)
        ensures
            b == (pmsc_state == 3),
    {
        pmsc_state == 0x3
    }

    /// Whether the digital gain control is configured from the OTP memory:
    /// the OTP word 0x20 holds the expected DGC_CFG0 value
    pub fn dgc_from_otp(&self, dgc_otp: u32) -> (b: bool)
        ensures
            b == (dgc_otp == DGC_CFG0_VALUE),
    {
        dgc_otp == DGC_CFG0_VALUE
    }

    /// Whether the PGF calibration succeeded: neither result reads the
    /// saturated value 0x1fffffff
    pub fn pgf_calibration_ok(&self, resi: &R<RX_CAL_RESI>, resq: &R<RX_CAL_RESQ>) -> (b: bool)
        requires
            resi.wf(),
            resq.wf(),
        ensures
            b == (resi.field(0, 28) != 0x1fffffff && resq.field(0, 28) != 0x1fffffff),
    {
        proof {
            RX_CAL_RESI::layout();
            RX_CAL_RESQ::layout();
        }
        let i = resi.value();
        let q = resq.value();
        !(i == 0x1fffffff || q == 0x1fffffff)
    }
}

} // verus!
