//! The order of the steps of `config`, as a state machine
//!
//! `config` writes the settings of its [`ConfigPlan`], unlocks the PLL if
//! it is locked, sets up its calibration and waits for it to lock, sets up
//! the digital gain control and DTUNE4, then runs the PGF calibration with
//! LDO_CTRL raised, and restores LDO_CTRL before it reports the outcome.
//! The driver performs each [`ConfigAction`] with the register functions of
//! this crate and hands the outcome back as a [`ConfigEvent`];
//! [`DW3000::config_step`] decides what comes next.

use vstd::prelude::*;

use crate::hl::configuring::DGC_CFG0_VALUE;
use crate::hl::error::Error;
use crate::hl::states::Uninitialized;
use crate::hl::uninitialized::{ConfigPlan, PollStep, CPLOCK_POLLS, PGF_CAL_POLLS};
use crate::hl::DW3000;

verus! {

/// Where `config` stands
#[derive(Copy, Clone, Debug, PartialEq, Eq, Structural)]
pub enum ConfigState {
    /// SYS_CFG is being written
    SysCfg,
    /// The SCP thresholds and operating set are being written
    ScpSettings,
    /// The STS threshold and tuning are being written
    StsThreshold { sts_mnth: u8 },
    /// The operating parameter set is being written
    OperatingSet,
    /// The receiver tuning, channel and frame control are being written
    Tuning,
    /// The PMSC state is being read
    CheckingPll,
    /// The PLL is being unlocked
    UnlockingPll,
    /// The RF, PLL and PLL calibration settings are being written
    RfAndPll,
    /// CPLOCK is read, with this many polls left after a clear one
    CheckingLock { left: u32 },
    /// CPLOCK is read again 20 µs after a clear read
    WaitingLock { left: u32 },
    /// The OTP word of the gain control configuration is being read
    ReadingDgcOtp,
    /// The gain control configuration is being loaded from the OTP memory
    DgcFromOtp,
    /// The gain control tables are being written
    DgcTables,
    /// DGC_CFG is being written
    DgcThreshold { tuned: bool },
    /// DTUNE4 is being written
    Dtune4,
    /// LDO_CTRL is being raised and the PGF calibration started
    StartingPgf,
    /// The PGF calibration status is read, with `retries` polls counted
    /// down, after a 20 µs delay where `delay`
    PollingPgf { retries: u32, delay: bool },
    /// The PGF calibration is being ended and its results read
    FinishingPgf,
    /// LDO_CTRL is being restored; the calibration succeeded where
    /// `calibrated`
    RestoringLdo { calibrated: bool },
    /// `config` has succeeded
    Configured,
    /// `config` has failed: the PGF calibration where `pgf`, else the PLL
    /// did not lock
    Failed { pgf: bool },
}

/// What the driver learnt from the action it performed
#[derive(Copy, Clone, Debug, PartialEq, Eq, Structural)]
pub enum ConfigEvent {
    /// The values of the action were written
    Written,
    /// SYS_STATE was read: the PMSC state
    PmscState { state: u8 },
    /// SYS_STATUS was read: whether CPLOCK is set
    Lock { locked: bool },
    /// The OTP word of the gain control configuration was read
    DgcOtp { word: u32 },
    /// RX_CAL_STS was read
    PgfStatus { status: u8 },
    /// The PGF calibration results were read: whether neither is saturated
    PgfResult { ok: bool },
}

/// What the driver does next
pub enum ConfigAction<E> {
    /// Write SYS_CFG ([`DW3000::config_sys_cfg`])
    WriteSysCfg,
    /// Write the operating set, then the SCP thresholds and STS tuning
    /// ([`DW3000::config_operating_set`], [`DW3000::scp_thresholds`],
    /// [`DW3000::sts_tuning`])
    WriteScpSettings,
    /// Write this STS threshold and the STS tuning
    /// ([`DW3000::sts_threshold`], [`DW3000::sts_tuning`])
    WriteStsThreshold(u8),
    /// Write the operating set ([`DW3000::config_operating_set`])
    WriteOperatingSet,
    /// Write the receiver tuning, channel and frame control
    /// ([`DW3000::config_rx_tuning`], [`DW3000::config_channel`],
    /// [`DW3000::config_tx_fctrl`])
    WriteTuning,
    /// Read SYS_STATE
    ReadPmscState,
    /// Unlock the PLL: IDLE RC clock, FORCE2INIT set then cleared, clocks
    /// on auto
    UnlockPll,
    /// Write the RF and PLL settings, clear CPLOCK and start the PLL
    /// calibration
    WriteRfAndPll,
    /// Read SYS_STATUS for CPLOCK
    ReadLock,
    /// Wait 20 µs, then read SYS_STATUS for CPLOCK
    DelayThenReadLock,
    /// Read the OTP word of the gain control configuration (at 0x20)
    ReadDgcOtp,
    /// Load the gain control configuration from the OTP memory
    /// ([`DW3000::dgc_kick`])
    WriteDgcFromOtp,
    /// Write the gain control tables of the channel, DGC_CFG0 and DGC_CFG1
    WriteDgcTables,
    /// Write DGC_CFG ([`DW3000::dgc_threshold`] with this flag)
    WriteDgcThreshold(bool),
    /// Write DTUNE4 ([`DW3000::config_dtune4`])
    WriteDtune4,
    /// Keep the low half of LDO_CTRL, raise it, wait 20 µs, start the PGF
    /// calibration (steps 0 and 1) and wait 20 µs
    StartPgf,
    /// Read RX_CAL_STS
    ReadPgfStatus,
    /// Wait 20 µs, then read RX_CAL_STS
    DelayThenReadPgfStatus,
    /// End the PGF calibration (step 2, status cleared, comparator delay)
    /// and read its results
    FinishPgf,
    /// Restore the low half of LDO_CTRL that was kept
    RestoreLdo,
    /// `config` ends successfully
    Done,
    /// `config` ends with this error
    Fail(Error<E>),
}

/// Where `config` starts
pub open spec fn config_start_state() -> ConfigState {
    ConfigState::SysCfg
}

/// The state that follows the gain control OTP word: loaded from the
/// OTP memory where it holds the configuration, else from the tables
pub open spec fn dgc_source(word: u32) -> ConfigState {
    if word == DGC_CFG0_VALUE {
        ConfigState::DgcFromOtp
    } else {
        ConfigState::DgcTables
    }
}

/// The state once the PLL is locked: the gain control setup, which reads
/// the OTP memory where the receive preamble code is tuned
pub open spec fn after_lock(plan: ConfigPlan) -> ConfigState {
    if plan.dgc_tuned {
        ConfigState::ReadingDgcOtp
    } else {
        ConfigState::DgcThreshold { tuned: false }
    }
}

/// The state after `ev` in state `st`, for the configuration plan `plan`;
/// an event that the state did not ask for changes nothing
pub open spec fn config_next(plan: ConfigPlan, st: ConfigState, ev: ConfigEvent) -> ConfigState {
    match (st, ev) {
        (ConfigState::SysCfg, ConfigEvent::Written) => if plan.scp {
            ConfigState::ScpSettings
        } else {
            match plan.sts_mnth {
                Some(m) => ConfigState::StsThreshold { sts_mnth: m },
                None => ConfigState::OperatingSet,
            }
        },
        (ConfigState::ScpSettings, ConfigEvent::Written) => ConfigState::Tuning,
        (ConfigState::StsThreshold { .. }, ConfigEvent::Written) => ConfigState::OperatingSet,
        (ConfigState::OperatingSet, ConfigEvent::Written) => ConfigState::Tuning,
        (ConfigState::Tuning, ConfigEvent::Written) => ConfigState::CheckingPll,
        (ConfigState::CheckingPll, ConfigEvent::PmscState { state }) => if state == 3 {
            ConfigState::UnlockingPll
        } else {
            ConfigState::RfAndPll
        },
        (ConfigState::UnlockingPll, ConfigEvent::Written) => ConfigState::RfAndPll,
        (ConfigState::RfAndPll, ConfigEvent::Written) => ConfigState::CheckingLock { left: CPLOCK_POLLS },
        (ConfigState::CheckingLock { left }, ConfigEvent::Lock { locked }) => if locked {
            after_lock(plan)
        } else {
            ConfigState::WaitingLock { left }
        },
        (ConfigState::WaitingLock { left }, ConfigEvent::Lock { locked }) => if locked {
            after_lock(plan)
        } else if left == 0 {
            ConfigState::Failed { pgf: false }
        } else {
            ConfigState::CheckingLock { left: (left - 1) as u32 }
        },
        (ConfigState::ReadingDgcOtp, ConfigEvent::DgcOtp { word }) => dgc_source(word),
        (ConfigState::DgcFromOtp, ConfigEvent::Written) => ConfigState::DgcThreshold { tuned: true },
        (ConfigState::DgcTables, ConfigEvent::Written) => ConfigState::DgcThreshold { tuned: true },
        (ConfigState::DgcThreshold { .. }, ConfigEvent::Written) => ConfigState::Dtune4,
        (ConfigState::Dtune4, ConfigEvent::Written) => ConfigState::StartingPgf,
        (ConfigState::StartingPgf, ConfigEvent::Written) => ConfigState::PollingPgf {
            retries: PGF_CAL_POLLS,
            delay: false,
        },
        (ConfigState::PollingPgf { retries, .. }, ConfigEvent::PgfStatus { status }) => if status != 0 {
            ConfigState::FinishingPgf
        } else if retries <= 1 {
            ConfigState::RestoringLdo { calibrated: false }
        } else {
            ConfigState::PollingPgf { retries: (retries - 1) as u32, delay: true }
        },
        (ConfigState::FinishingPgf, ConfigEvent::PgfResult { ok }) => ConfigState::RestoringLdo { calibrated: ok },
        (ConfigState::RestoringLdo { calibrated }, ConfigEvent::Written) => if calibrated {
            ConfigState::Configured
        } else {
            ConfigState::Failed { pgf: true }
        },
        _ => st,
    }
}

/// The action that state `st` asks for
pub open spec fn config_action<E>(st: ConfigState) -> ConfigAction<E> {
    match st {
        ConfigState::SysCfg => ConfigAction::WriteSysCfg,
        ConfigState::ScpSettings => ConfigAction::WriteScpSettings,
        ConfigState::StsThreshold { sts_mnth } => ConfigAction::WriteStsThreshold(sts_mnth),
        ConfigState::OperatingSet => ConfigAction::WriteOperatingSet,
        ConfigState::Tuning => ConfigAction::WriteTuning,
        ConfigState::CheckingPll => ConfigAction::ReadPmscState,
        ConfigState::UnlockingPll => ConfigAction::UnlockPll,
        ConfigState::RfAndPll => ConfigAction::WriteRfAndPll,
        ConfigState::CheckingLock { .. } => ConfigAction::ReadLock,
        ConfigState::WaitingLock { .. } => ConfigAction::DelayThenReadLock,
        ConfigState::ReadingDgcOtp => ConfigAction::ReadDgcOtp,
        ConfigState::DgcFromOtp => ConfigAction::WriteDgcFromOtp,
        ConfigState::DgcTables => ConfigAction::WriteDgcTables,
        ConfigState::DgcThreshold { tuned } => ConfigAction::WriteDgcThreshold(tuned),
        ConfigState::Dtune4 => ConfigAction::WriteDtune4,
        ConfigState::StartingPgf => ConfigAction::StartPgf,
        ConfigState::PollingPgf { delay, .. } => if delay {
            ConfigAction::DelayThenReadPgfStatus
        } else {
            ConfigAction::ReadPgfStatus
        },
        ConfigState::FinishingPgf => ConfigAction::FinishPgf,
        ConfigState::RestoringLdo { .. } => ConfigAction::RestoreLdo,
        ConfigState::Configured => ConfigAction::Done,
        ConfigState::Failed { pgf } => ConfigAction::Fail(
            if pgf {
                Error::PGFCalibrationFailed
            } else {
                Error::InitializationFailed
            },
        ),
    }
}

/// One step of `config`: the next state, and the action it asks for
pub open spec fn config_step_spec<E>(plan: ConfigPlan, st: ConfigState, ev: ConfigEvent) -> (ConfigState, ConfigAction<E>) {
    (config_next(plan, st, ev), config_action(config_next(plan, st, ev)))
}

/// `config` reports a failed PGF calibration only once LDO_CTRL is
/// restored: the failure follows the write of the restoring step.
pub proof fn lemma_pgf_failure_after_restore(plan: ConfigPlan, st: ConfigState, ev: ConfigEvent)
    requires
        config_next(plan, st, ev) == (ConfigState::Failed { pgf: true }),
    ensures
        st == (ConfigState::Failed { pgf: true }) || (st is RestoringLdo && ev == ConfigEvent::Written),
{
}

/// A PLL that does not lock fails `config` with `InitializationFailed`,
/// and only in the wait for the lock, once no poll is left.
pub proof fn lemma_lock_timeout(plan: ConfigPlan, st: ConfigState, ev: ConfigEvent)
    requires
        config_next(plan, st, ev) == (ConfigState::Failed { pgf: false }),
    ensures
        st == (ConfigState::Failed { pgf: false }) || (st == (ConfigState::WaitingLock { left: 0 }) && ev
            == (ConfigEvent::Lock { locked: false })),
        config_action::<()>(config_next(plan, st, ev)) == ConfigAction::<()>::Fail(Error::InitializationFailed),
{
}

/// The DGC threshold step follows the gain control setup: entered from
/// the gain control loaded from OTP or from the tables, it writes
/// THR_64 (`WriteDgcThreshold(true)`); entered otherwise, it writes
/// RX_TUNE_EN = 0 (`WriteDgcThreshold(false)`), and only for a plan whose
/// receive preamble code is outside the tuned codes. A tuned plan reaches
/// the gain control setup from the PLL lock through the OTP read, which
/// loads it from OTP exactly where the OTP word is `DGC_CFG0_VALUE`, else
/// from the tables.
pub proof fn lemma_dgc_threshold_follows_gain_control<E>(plan: ConfigPlan, st: ConfigState, ev: ConfigEvent)
    ensures
        (st is DgcFromOtp || st is DgcTables) && ev == ConfigEvent::Written ==> config_step_spec::<E>(
            plan,
            st,
            ev,
        ).1 matches ConfigAction::WriteDgcThreshold(true),
        st !is DgcThreshold ==> (config_step_spec::<E>(plan, st, ev).1 matches ConfigAction::WriteDgcThreshold(
            tuned,
        ) ==> (tuned <==> (st is DgcFromOtp || st is DgcTables)) && (!tuned ==> !plan.dgc_tuned)),
        plan.dgc_tuned && (st is CheckingLock || st is WaitingLock) && ev == (ConfigEvent::Lock { locked: true })
            ==> config_next(plan, st, ev) == ConfigState::ReadingDgcOtp,
        st is ReadingDgcOtp && ev is DgcOtp ==> (config_next(plan, st, ev) is DgcFromOtp || config_next(
            plan,
            st,
            ev,
        ) is DgcTables),
        st is ReadingDgcOtp && ev is DgcOtp ==> (config_next(plan, st, ev) is DgcFromOtp <==> ev->word
            == DGC_CFG0_VALUE),
{
}

impl<SPI, CS> DW3000<SPI, CS, Uninitialized> {
    /// The start of `config`: its first state, and the SYS_CFG write
    pub fn config_start<E>(&self) -> (r: (ConfigState, ConfigAction<E>))
        ensures
            r == (config_start_state(), config_action::<E>(config_start_state())),
    {
        (ConfigState::SysCfg, ConfigAction::WriteSysCfg)
    }

    /// One step of `config` for the plan `plan`: from state `st` and the
    /// outcome `ev` of the last action, the next state and the action it
    /// asks for
    pub fn config_step<E>(&self, plan: &ConfigPlan, st: ConfigState, ev: ConfigEvent) -> (r: (
        ConfigState,
        ConfigAction<E>,
    ))
        ensures
            r == config_step_spec::<E>(*plan, st, ev),
    {
        let next = match (st, ev) {
            (ConfigState::SysCfg, ConfigEvent::Written) => if plan.scp {
                ConfigState::ScpSettings
            } else {
                match plan.sts_mnth {
                    Some(m) => ConfigState::StsThreshold { sts_mnth: m },
                    None => ConfigState::OperatingSet,
                }
            },
            (ConfigState::ScpSettings, ConfigEvent::Written) => ConfigState::Tuning,
            (ConfigState::StsThreshold { .. }, ConfigEvent::Written) => ConfigState::OperatingSet,
            (ConfigState::OperatingSet, ConfigEvent::Written) => ConfigState::Tuning,
            (ConfigState::Tuning, ConfigEvent::Written) => ConfigState::CheckingPll,
            (ConfigState::CheckingPll, ConfigEvent::PmscState { state }) => if self.pll_unlock_needed(state) {
                ConfigState::UnlockingPll
            } else {
                ConfigState::RfAndPll
            },
            (ConfigState::UnlockingPll, ConfigEvent::Written) => ConfigState::RfAndPll,
            (ConfigState::RfAndPll, ConfigEvent::Written) => ConfigState::CheckingLock { left: CPLOCK_POLLS },
            (ConfigState::CheckingLock { left }, ConfigEvent::Lock { locked }) => if locked {
                self.after_lock(plan)
            } else {
                ConfigState::WaitingLock { left }
            },
            (ConfigState::WaitingLock { left }, ConfigEvent::Lock { locked }) => match self.cplock_poll(left, locked) {
                PollStep::Done => self.after_lock(plan),
                PollStep::TimedOut => ConfigState::Failed { pgf: false },
                PollStep::Again(l) => ConfigState::CheckingLock { left: l },
            },
            (ConfigState::ReadingDgcOtp, ConfigEvent::DgcOtp { word }) => if self.dgc_from_otp(word) {
                ConfigState::DgcFromOtp
            } else {
                ConfigState::DgcTables
            },
            (ConfigState::DgcFromOtp, ConfigEvent::Written) => ConfigState::DgcThreshold { tuned: true },
            (ConfigState::DgcTables, ConfigEvent::Written) => ConfigState::DgcThreshold { tuned: true },
            (ConfigState::DgcThreshold { .. }, ConfigEvent::Written) => ConfigState::Dtune4,
            (ConfigState::Dtune4, ConfigEvent::Written) => ConfigState::StartingPgf,
            (ConfigState::StartingPgf, ConfigEvent::Written) => ConfigState::PollingPgf {
                retries: PGF_CAL_POLLS,
                delay: false,
            },
            (ConfigState::PollingPgf { retries, .. }, ConfigEvent::PgfStatus { status }) => match self.pgf_cal_poll(retries, status) {
                PollStep::Done => ConfigState::FinishingPgf,
                PollStep::TimedOut => ConfigState::RestoringLdo { calibrated: false },
                PollStep::Again(r) => ConfigState::PollingPgf { retries: r, delay: true },
            },
            (ConfigState::FinishingPgf, ConfigEvent::PgfResult { ok }) => ConfigState::RestoringLdo { calibrated: ok },
            (ConfigState::RestoringLdo { calibrated }, ConfigEvent::Written) => if calibrated {
                ConfigState::Configured
            } else {
                ConfigState::Failed { pgf: true }
            },
            _ => st,
        };
        let action = match next {
            ConfigState::SysCfg => ConfigAction::WriteSysCfg,
            ConfigState::ScpSettings => ConfigAction::WriteScpSettings,
            ConfigState::StsThreshold { sts_mnth } => ConfigAction::WriteStsThreshold(sts_mnth),
            ConfigState::OperatingSet => ConfigAction::WriteOperatingSet,
            ConfigState::Tuning => ConfigAction::WriteTuning,
            ConfigState::CheckingPll => ConfigAction::ReadPmscState,
            ConfigState::UnlockingPll => ConfigAction::UnlockPll,
            ConfigState::RfAndPll => ConfigAction::WriteRfAndPll,
            ConfigState::CheckingLock { .. } => ConfigAction::ReadLock,
            ConfigState::WaitingLock { .. } => ConfigAction::DelayThenReadLock,
            ConfigState::ReadingDgcOtp => ConfigAction::ReadDgcOtp,
            ConfigState::DgcFromOtp => ConfigAction::WriteDgcFromOtp,
            ConfigState::DgcTables => ConfigAction::WriteDgcTables,
            ConfigState::DgcThreshold { tuned } => ConfigAction::WriteDgcThreshold(tuned),
            ConfigState::Dtune4 => ConfigAction::WriteDtune4,
            ConfigState::StartingPgf => ConfigAction::StartPgf,
            ConfigState::PollingPgf { delay, .. } => if delay {
                ConfigAction::DelayThenReadPgfStatus
            } else {
                ConfigAction::ReadPgfStatus
            },
            ConfigState::FinishingPgf => ConfigAction::FinishPgf,
            ConfigState::RestoringLdo { .. } => ConfigAction::RestoreLdo,
            ConfigState::Configured => ConfigAction::Done,
            ConfigState::Failed { pgf } => ConfigAction::Fail(
                if pgf {
                    Error::PGFCalibrationFailed
                } else {
                    Error::InitializationFailed
                },
            ),
        };
        (next, action)
    }

    /// The state once the PLL is locked (see [`after_lock`])
    fn after_lock(&self, plan: &ConfigPlan) -> (s: ConfigState)
        ensures
            s == after_lock(*plan),
    {
        if plan.dgc_tuned {
            ConfigState::ReadingDgcOtp
        } else {
            ConfigState::DgcThreshold { tuned: false }
        }
    }
}

} // verus!
