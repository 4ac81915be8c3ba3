use dw3000_ng::configs::{PreambleLength, StsLen, StsMode, UwbChannel, PdoaMode};
use dw3000_ng::hl::config_steps::{ConfigAction, ConfigEvent, ConfigState};
use dw3000_ng::hl::configuring::DGC_CFG0_VALUE;
use dw3000_ng::hl::uninitialized::{ConfigPlan, CPLOCK_POLLS, PGF_CAL_POLLS};
use dw3000_ng::{Config, Error, Uninitialized, DW3000};

fn uninitialized() -> DW3000<(), (), Uninitialized> {
    DW3000::new((), ())
}

/// Runs the `config` machine on the plan and events, returning the last
/// state and every action
fn run_config(plan: &ConfigPlan, events: &[ConfigEvent]) -> (ConfigState, Vec<ConfigAction<()>>) {
    let dw3000 = uninitialized();
    let (mut state, action) = dw3000.config_start::<()>();
    let mut actions = vec![action];
    for ev in events {
        let (next, a) = dw3000.config_step::<()>(plan, state, *ev);
        state = next;
        actions.push(a);
    }
    (state, actions)
}

/// The events of a configuration up to the first check of the PLL lock,
/// with the PLL found locked (PMSC state 3) or not
fn events_to_lock(locked: bool) -> Vec<ConfigEvent> {
    let mut events = vec![
        ConfigEvent::Written,
        ConfigEvent::Written,
        ConfigEvent::Written,
        ConfigEvent::PmscState { state: if locked { 3 } else { 2 } },
    ];
    if locked {
        events.push(ConfigEvent::Written);
    }
    events.push(ConfigEvent::Written);
    events
}

#[test]
fn config_default_plan_runs_to_configured() {
    let plan = uninitialized().plan_config(&Config::default());
    assert!(plan.dgc_tuned);
    let mut events = events_to_lock(true);
    events.extend([
        ConfigEvent::Lock { locked: true },
        ConfigEvent::DgcOtp { word: DGC_CFG0_VALUE },
        ConfigEvent::Written,
        ConfigEvent::Written,
        ConfigEvent::Written,
        ConfigEvent::Written,
        ConfigEvent::PgfStatus { status: 1 },
        ConfigEvent::PgfResult { ok: true },
        ConfigEvent::Written,
    ]);
    let (state, actions) = run_config(&plan, &events);
    assert_eq!(state, ConfigState::Configured);
    assert!(matches!(actions[0], ConfigAction::WriteSysCfg));
    assert!(matches!(actions[1], ConfigAction::WriteOperatingSet));
    assert!(matches!(actions[2], ConfigAction::WriteTuning));
    assert!(matches!(actions[3], ConfigAction::ReadPmscState));
    // PMSC state 3: the PLL is locked and must be unlocked first
    assert!(matches!(actions[4], ConfigAction::UnlockPll));
    assert!(matches!(actions[5], ConfigAction::WriteRfAndPll));
    assert!(matches!(actions[6], ConfigAction::ReadLock));
    assert!(matches!(actions[7], ConfigAction::ReadDgcOtp));
    assert!(matches!(actions[8], ConfigAction::WriteDgcFromOtp));
    assert!(matches!(actions[9], ConfigAction::WriteDgcThreshold(true)));
    assert!(matches!(actions[10], ConfigAction::WriteDtune4));
    assert!(matches!(actions[11], ConfigAction::StartPgf));
    assert!(matches!(actions[12], ConfigAction::ReadPgfStatus));
    assert!(matches!(actions[13], ConfigAction::FinishPgf));
    assert!(matches!(actions[14], ConfigAction::RestoreLdo));
    assert!(matches!(actions[15], ConfigAction::Done));
    assert_eq!(actions.len(), 16);
}

#[test]
fn config_skips_pll_unlock_and_loads_dgc_tables() {
    let plan = uninitialized().plan_config(&Config::default());
    let mut events = events_to_lock(false);
    events.extend([
        ConfigEvent::Lock { locked: false },
        ConfigEvent::Lock { locked: true },
        ConfigEvent::DgcOtp { word: 0 },
    ]);
    let (state, actions) = run_config(&plan, &events);
    assert_eq!(state, ConfigState::DgcTables);
    // no unlock: straight to the RF and PLL settings
    assert!(matches!(actions[4], ConfigAction::WriteRfAndPll));
    assert!(matches!(actions[5], ConfigAction::ReadLock));
    assert!(matches!(actions[6], ConfigAction::DelayThenReadLock));
    assert!(matches!(actions[7], ConfigAction::ReadDgcOtp));
    assert!(matches!(actions[8], ConfigAction::WriteDgcTables));
}

#[test]
fn config_fails_when_pll_never_locks() {
    let plan = uninitialized().plan_config(&Config::default());
    let mut events = events_to_lock(false);
    // one read before each wait and one after it, for every poll
    let polls = 2 * (CPLOCK_POLLS as usize + 1);
    for _ in 0..polls - 1 {
        events.push(ConfigEvent::Lock { locked: false });
    }
    let (state, actions) = run_config(&plan, &events);
    assert_eq!(state, ConfigState::WaitingLock { left: 0 });
    assert!(matches!(actions.last(), Some(ConfigAction::DelayThenReadLock)));
    events.push(ConfigEvent::Lock { locked: false });
    let (state, actions) = run_config(&plan, &events);
    assert_eq!(state, ConfigState::Failed { pgf: false });
    assert!(matches!(actions.last(), Some(ConfigAction::Fail(Error::InitializationFailed))));
}

#[test]
fn config_restores_ldo_before_pgf_failure() {
    let plan = uninitialized().plan_config(&Config::default());
    let mut events = events_to_lock(false);
    events.extend([
        ConfigEvent::Lock { locked: true },
        ConfigEvent::DgcOtp { word: DGC_CFG0_VALUE },
        ConfigEvent::Written,
        ConfigEvent::Written,
        ConfigEvent::Written,
        ConfigEvent::Written,
    ]);
    for _ in 0..PGF_CAL_POLLS {
        events.push(ConfigEvent::PgfStatus { status: 0 });
    }
    let (state, actions) = run_config(&plan, &events);
    assert_eq!(state, ConfigState::RestoringLdo { calibrated: false });
    let n = actions.len();
    assert!(matches!(actions[n - 4], ConfigAction::ReadPgfStatus));
    assert!(matches!(actions[n - 3], ConfigAction::DelayThenReadPgfStatus));
    assert!(matches!(actions[n - 2], ConfigAction::DelayThenReadPgfStatus));
    assert!(matches!(actions[n - 1], ConfigAction::RestoreLdo));
    events.push(ConfigEvent::Written);
    let (state, actions) = run_config(&plan, &events);
    assert_eq!(state, ConfigState::Failed { pgf: true });
    assert!(matches!(actions.last(), Some(ConfigAction::Fail(Error::PGFCalibrationFailed))));
}

#[test]
fn config_bad_pgf_result_fails_after_restore() {
    let plan = uninitialized().plan_config(&Config::default());
    let mut events = events_to_lock(false);
    events.extend([
        ConfigEvent::Lock { locked: true },
        ConfigEvent::DgcOtp { word: DGC_CFG0_VALUE },
        ConfigEvent::Written,
        ConfigEvent::Written,
        ConfigEvent::Written,
        ConfigEvent::Written,
        ConfigEvent::PgfStatus { status: 1 },
        ConfigEvent::PgfResult { ok: false },
    ]);
    let (state, actions) = run_config(&plan, &events);
    assert_eq!(state, ConfigState::RestoringLdo { calibrated: false });
    assert!(matches!(actions.last(), Some(ConfigAction::RestoreLdo)));
}

#[test]
fn config_scp_plan_writes_scp_settings() {
    let config = Config {
        sts_mode: StsMode::StsMode1,
        rx_preamble_code: Some(25),
        sfd_timeout: 0x1_0081,
        preamble_length: PreambleLength::Symbols72,
        ..Config::default()
    };
    let plan = uninitialized().plan_config(&config);
    assert!(plan.scp);
    let mut events = events_to_lock(false);
    events.push(ConfigEvent::Lock { locked: true });
    let (state, actions) = run_config(&plan, &events);
    assert!(matches!(actions[1], ConfigAction::WriteScpSettings));
    assert!(matches!(actions[2], ConfigAction::WriteTuning));
    // code 25 is outside the tuned gain control codes: no OTP read
    assert_eq!(state, ConfigState::DgcThreshold { tuned: false });
    assert!(matches!(actions.last(), Some(ConfigAction::WriteDgcThreshold(false))));
}

#[test]
fn config_sts_plan_writes_sts_threshold() {
    let config = Config {
        sts_mode: StsMode::StsMode1,
        sts_len: StsLen::StsLen64,
        preamble_length: PreambleLength::Symbols64,
        channel: UwbChannel::Channel9,
        pdoa_mode: PdoaMode::Mode1,
        ..Config::default()
    };
    let plan = uninitialized().plan_config(&config);
    let (state, actions) = run_config(&plan, &[ConfigEvent::Written, ConfigEvent::Written]);
    assert!(matches!(actions[1], ConfigAction::WriteStsThreshold(0x10)));
    assert!(matches!(actions[2], ConfigAction::WriteOperatingSet));
    assert_eq!(state, ConfigState::OperatingSet);
}

#[test]
fn config_ignores_unexpected_events() {
    let plan = uninitialized().plan_config(&Config::default());
    let (state, actions) = run_config(&plan, &[ConfigEvent::Lock { locked: true }]);
    assert_eq!(state, ConfigState::SysCfg);
    assert!(matches!(actions[1], ConfigAction::WriteSysCfg));
}
