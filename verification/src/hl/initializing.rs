//! The decisions of `init`, as a state machine
//!
//! `init` waits for the INIT_RC state, confirms it, checks the device
//! identifier, then reads each calibration word of the OTP memory and
//! writes what it calls for: the LDO and bias tuning, the crystal trim, the
//! PLL coarse code. The driver performs each [`InitAction`] and hands the
//! outcome back as an [`InitEvent`]; [`DW3000::init_step`] decides what
//! comes next.

use vstd::prelude::*;

use crate::hl::error::Error;
use crate::hl::states::Uninitialized;
use crate::hl::uninitialized::{init_calibration_spec, PollStep, RCINIT_POLLS};
use crate::hl::DW3000;

verus! {

/// Where `init` stands
#[derive(Copy, Clone, Debug, PartialEq, Eq, Structural)]
pub enum InitState {
    /// Waiting for the INIT_RC state, with this many status reads of the
    /// wait left after the current one
    WaitingForRcinit { left: u32 },
    /// The wait is over: the next status read decides
    ConfirmingRcinit,
    /// The device identifier is being read
    Identifying,
    /// The OTP words LDO_TUNE (low, high) and BIASTUNE_CAL are being read
    ReadingLdoBias,
    /// The LDO and bias tuning values are being loaded, with this
    /// BIASTUNE_CAL value
    LoadingLdoBias { biastune_cal: u16 },
    /// The OTP word XTAL_TRIM is being read
    ReadingXtal,
    /// The crystal trim is being written
    TrimmingXtal { trim: u8 },
    /// The OTP word of the PLL lock code is being read
    ReadingPllCode,
    /// The PLL coarse code is being written
    LoadingPllCode { code: u32 },
    /// `init` has succeeded
    Initialized,
    /// `init` has failed: with `InvalidConfiguration` where the device
    /// identifier was wrong, else with `InitializationFailed`
    Failed { wrong_device: bool },
}

/// What the driver learnt from the action it performed
#[derive(Copy, Clone, Debug, PartialEq, Eq, Structural)]
pub enum InitEvent {
    /// SYS_STATUS was read: whether RCINIT is set
    Status { rcinit: bool },
    /// DEV_ID was read: whether it is that of a DW3000
    DeviceId { valid: bool },
    /// The OTP words LDO_TUNE (low, high) and BIASTUNE_CAL were read
    LdoBiasWords { ldo_tune_l: u32, ldo_tune_h: u32, bias: u32 },
    /// The OTP word XTAL_TRIM was read
    XtalWord { xtal: u32 },
    /// The OTP word of the PLL lock code was read
    PllWord { pll_lock_code: u32 },
    /// The values of the last action were written
    Written,
}

/// What the driver does next
pub enum InitAction<E> {
    /// Read SYS_STATUS
    ReadStatus,
    /// Read DEV_ID
    ReadDeviceId,
    /// Read the OTP words LDO_TUNE (low, high, at 0x04 and 0x05) and
    /// BIASTUNE_CAL (at 0x0A)
    ReadLdoBiasWords,
    /// Load the LDO and bias tuning values (the OTP_CFG kick) and put this
    /// BIASTUNE_CAL value into BIAS_CTRL
    WriteLdoBias { biastune_cal: u16 },
    /// Read the OTP word XTAL_TRIM (at 0x1E)
    ReadXtalWord,
    /// Write this crystal trim
    WriteXtalTrim(u8),
    /// Read the OTP word of the PLL lock code (at 0x35)
    ReadPllWord,
    /// Write this PLL coarse code
    WritePllCode(u32),
    /// `init` ends successfully
    Done,
    /// `init` ends with this error
    Fail(Error<E>),
}

/// Where `init` starts: waiting for the INIT_RC state, with
/// `RCINIT_POLLS` status reads in the wait
pub open spec fn init_start_state() -> InitState {
    InitState::WaitingForRcinit { left: (RCINIT_POLLS - 1) as u32 }
}

/// One poll of RCINIT during the wait, with `left` more reads of the wait
pub open spec fn rcinit_poll_spec(left: u32, rcinit: bool) -> PollStep {
    if rcinit {
        PollStep::Done
    } else if left == 0 {
        PollStep::TimedOut
    } else {
        PollStep::Again((left - 1) as u32)
    }
}

/// The state after `ev` in state `st`; an event that the state did not ask
/// for changes nothing
pub open spec fn init_next(st: InitState, ev: InitEvent) -> InitState {
    match (st, ev) {
        (InitState::WaitingForRcinit { left }, InitEvent::Status { rcinit }) => match rcinit_poll_spec(left, rcinit) {
            PollStep::Again(l) => InitState::WaitingForRcinit { left: l },
            _ => InitState::ConfirmingRcinit,
        },
        (InitState::ConfirmingRcinit, InitEvent::Status { rcinit }) => if rcinit {
            InitState::Identifying
        } else {
            InitState::Failed { wrong_device: false }
        },
        (InitState::Identifying, InitEvent::DeviceId { valid }) => if valid {
            InitState::ReadingLdoBias
        } else {
            InitState::Failed { wrong_device: true }
        },
        (InitState::ReadingLdoBias, InitEvent::LdoBiasWords { ldo_tune_l, ldo_tune_h, bias }) => {
            let c = init_calibration_spec(ldo_tune_l, ldo_tune_h, bias, 0, 0);
            if c.load_ldo_bias {
                InitState::LoadingLdoBias { biastune_cal: c.biastune_cal }
            } else {
                InitState::ReadingXtal
            }
        },
        (InitState::LoadingLdoBias { .. }, InitEvent::Written) => InitState::ReadingXtal,
        (InitState::ReadingXtal, InitEvent::XtalWord { xtal }) => InitState::TrimmingXtal {
            trim: init_calibration_spec(0, 0, 0, xtal, 0).xtal_trim,
        },
        (InitState::TrimmingXtal { .. }, InitEvent::Written) => InitState::ReadingPllCode,
        (InitState::ReadingPllCode, InitEvent::PllWord { pll_lock_code }) => if pll_lock_code != 0 {
            InitState::LoadingPllCode { code: pll_lock_code }
        } else {
            InitState::Initialized
        },
        (InitState::LoadingPllCode { .. }, InitEvent::Written) => InitState::Initialized,
        _ => st,
    }
}

/// The action that state `st` asks for
pub open spec fn init_action<E>(st: InitState) -> InitAction<E> {
    match st {
        InitState::WaitingForRcinit { .. } => InitAction::ReadStatus,
        InitState::ConfirmingRcinit => InitAction::ReadStatus,
        InitState::Identifying => InitAction::ReadDeviceId,
        InitState::ReadingLdoBias => InitAction::ReadLdoBiasWords,
        InitState::LoadingLdoBias { biastune_cal } => InitAction::WriteLdoBias { biastune_cal },
        InitState::ReadingXtal => InitAction::ReadXtalWord,
        InitState::TrimmingXtal { trim } => InitAction::WriteXtalTrim(trim),
        InitState::ReadingPllCode => InitAction::ReadPllWord,
        InitState::LoadingPllCode { code } => InitAction::WritePllCode(code),
        InitState::Initialized => InitAction::Done,
        InitState::Failed { wrong_device } => InitAction::Fail(
            if wrong_device {
                Error::InvalidConfiguration
            } else {
                Error::InitializationFailed
            },
        ),
    }
}

/// One step of `init`: the next state, and the action it asks for
pub open spec fn init_step_spec<E>(st: InitState, ev: InitEvent) -> (InitState, InitAction<E>) {
    (init_next(st, ev), init_action(init_next(st, ev)))
}

/// The state after the events `evs`, in order, from state `st`
pub open spec fn init_run(st: InitState, evs: Seq<InitEvent>) -> InitState
    decreases evs.len(),
{
    if evs.len() == 0 {
        st
    } else {
        init_run(init_next(st, evs[0]), evs.drop_first())
    }
}

/// The device identifier has been checked (or is being checked): every
/// state from `Identifying` on, the failure on a wrong device included
pub open spec fn past_rcinit(st: InitState) -> bool {
    match st {
        InitState::WaitingForRcinit { .. } => false,
        InitState::ConfirmingRcinit => false,
        InitState::Failed { wrong_device } => wrong_device,
        _ => true,
    }
}

/// The status read events of the readings `ss`
pub open spec fn status_events(ss: Seq<bool>) -> Seq<InitEvent> {
    Seq::new(ss.len(), |i: int| InitEvent::Status { rcinit: ss[i] })
}

/// How many of the status readings `ss` a wait of at most `n` reads takes:
/// up to the first with RCINIT set
pub open spec fn wait_reads(ss: Seq<bool>, n: nat) -> nat
    decreases n,
{
    if n == 0 || ss.len() == 0 {
        0
    } else if ss[0] {
        1
    } else {
        1 + wait_reads(ss.drop_first(), (n - 1) as nat)
    }
}

/// The state machine reaches the device check only through a status read
/// with RCINIT set: wherever a run of `init` is past the wait, some event
/// was such a read in the confirming state.
pub proof fn lemma_device_id_after_rcinit(st: InitState, evs: Seq<InitEvent>)
    requires
        !past_rcinit(st),
        past_rcinit(init_run(st, evs)),
    ensures
        exists|j: int|
            0 <= j < evs.len() && evs[j] == (InitEvent::Status { rcinit: true }) && #[trigger] init_run(
                st,
                evs.take(j),
            ) == InitState::ConfirmingRcinit,
    decreases evs.len(),
{
    let s1 = init_next(st, evs[0]);
    if past_rcinit(s1) {
        assert(evs.take(0) =~= Seq::<InitEvent>::empty());
        assert(init_run(st, evs.take(0)) == st);
    } else {
        lemma_device_id_after_rcinit(s1, evs.drop_first());
        let j = choose|j: int|
            0 <= j < evs.drop_first().len() && evs.drop_first()[j] == (InitEvent::Status { rcinit: true })
                && #[trigger] init_run(s1, evs.drop_first().take(j)) == InitState::ConfirmingRcinit;
        assert(evs.take(j + 1).drop_first() =~= evs.drop_first().take(j));
        assert(evs.take(j + 1)[0] == evs[0]);
        assert(init_run(st, evs.take(j + 1)) == init_run(s1, evs.drop_first().take(j)));
    }
}

proof fn lemma_run_append(st: InitState, a: Seq<InitEvent>, b: Seq<InitEvent>)
    ensures
        init_run(st, a + b) == init_run(init_run(st, a), b),
    decreases a.len(),
{
    if a.len() == 0 {
        assert(a + b =~= b);
    } else {
        assert((a + b).drop_first() =~= a.drop_first() + b);
        lemma_run_append(init_next(st, a[0]), a.drop_first(), b);
    }
}

proof fn lemma_wait_phase(left: u32, ss: Seq<bool>)
    requires
        ss.len() >= left + 1,
    ensures
        1 <= wait_reads(ss, (left + 1) as nat) <= left + 1,
        init_run(
            InitState::WaitingForRcinit { left },
            status_events(ss.take(wait_reads(ss, (left + 1) as nat) as int)),
        ) == InitState::ConfirmingRcinit,
    decreases left,
{
    reveal_with_fuel(init_run, 2);
    let n = wait_reads(ss, (left + 1) as nat);
    let evs = status_events(ss.take(n as int));
    if ss[0] || left == 0 {
        if !ss[0] {
            assert(wait_reads(ss.drop_first(), 0) == 0);
        }
        assert(n == 1);
        assert(evs.drop_first() =~= Seq::<InitEvent>::empty());
        assert(evs[0] == (InitEvent::Status { rcinit: ss[0] }));
        assert(init_next(InitState::WaitingForRcinit { left }, evs[0]) == InitState::ConfirmingRcinit);
        assert(init_run(InitState::ConfirmingRcinit, evs.drop_first()) == InitState::ConfirmingRcinit);
    } else {
        let rest = ss.drop_first();
        lemma_wait_phase((left - 1) as u32, rest);
        assert(n == 1 + wait_reads(rest, left as nat));
        assert(evs.drop_first() =~= status_events(rest.take(wait_reads(rest, left as nat) as int)));
        assert(evs[0] == (InitEvent::Status { rcinit: false }));
        assert(init_next(InitState::WaitingForRcinit { left }, evs[0]) == InitState::WaitingForRcinit {
            left: (left - 1) as u32,
        });
    }
}

/// `init` fails as it waits for the INIT_RC state exactly as the wait loop
/// of at most `RCINIT_POLLS` status reads, ended by the first read with
/// RCINIT set, followed by one more read: with `InitializationFailed` where
/// that read has RCINIT clear; otherwise the device identifier decides,
/// with `InvalidConfiguration` for a wrong one. `ss` are the RCINIT bits of
/// the successive status reads.
pub proof fn lemma_init_outcome(ss: Seq<bool>, valid: bool)
    requires
        ss.len() > RCINIT_POLLS,
    ensures
        ({
            let c = wait_reads(ss, RCINIT_POLLS as nat) as int;
            let st = init_run(init_start_state(), status_events(ss.take(c + 1)));
            &&& 1 <= c <= RCINIT_POLLS
            &&& !ss[c] ==> st == InitState::Failed { wrong_device: false }
            &&& ss[c] ==> st == InitState::Identifying
            &&& ss[c] ==> init_next(st, InitEvent::DeviceId { valid }) == if valid {
                InitState::ReadingLdoBias
            } else {
                InitState::Failed { wrong_device: true }
            }
        }),
{
    let c = wait_reads(ss, RCINIT_POLLS as nat) as int;
    lemma_wait_phase((RCINIT_POLLS - 1) as u32, ss);
    let a = status_events(ss.take(c));
    let b = seq![InitEvent::Status { rcinit: ss[c] }];
    assert(status_events(ss.take(c + 1)) =~= a + b);
    lemma_run_append(init_start_state(), a, b);
    assert(b.drop_first() =~= Seq::<InitEvent>::empty());
    reveal_with_fuel(init_run, 2);
    assert(init_run(InitState::ConfirmingRcinit, b) == init_next(InitState::ConfirmingRcinit, b[0]));
}

impl<SPI, CS> DW3000<SPI, CS, Uninitialized> {
    /// One poll of RCINIT while `init` waits for the INIT_RC state, with
    /// `left` more reads of the wait: done once the flag is set, timed out
    /// when no read is left, else one read fewer
    pub fn rcinit_poll(&self, left: u32, rcinit: bool) -> (s: PollStep)
        ensures
            s == rcinit_poll_spec(left, rcinit),
    {
        if rcinit {
            PollStep::Done
        } else if left == 0 {
            PollStep::TimedOut
        } else {
            PollStep::Again(left - 1)
        }
    }

    /// The start of `init`: its first state, and a status read
    pub fn init_start<E>(&self) -> (r: (InitState, InitAction<E>))
        ensures
            r == (init_start_state(), init_action::<E>(init_start_state())),
    {
        (InitState::WaitingForRcinit { left: RCINIT_POLLS - 1 }, InitAction::ReadStatus)
    }

    /// One step of `init`: from state `st` and the outcome `ev` of the last
    /// action, the next state and the action it asks for
    pub fn init_step<E>(&self, st: InitState, ev: InitEvent) -> (r: (InitState, InitAction<E>))
        ensures
            r == init_step_spec::<E>(st, ev),
    {
        let next = match (st, ev) {
            (InitState::WaitingForRcinit { left }, InitEvent::Status { rcinit }) => match self.rcinit_poll(left, rcinit) {
                PollStep::Again(l) => InitState::WaitingForRcinit { left: l },
                _ => InitState::ConfirmingRcinit,
            },
            (InitState::ConfirmingRcinit, InitEvent::Status { rcinit }) => if rcinit {
                InitState::Identifying
            } else {
                InitState::Failed { wrong_device: false }
            },
            (InitState::Identifying, InitEvent::DeviceId { valid }) => if valid {
                InitState::ReadingLdoBias
            } else {
                InitState::Failed { wrong_device: true }
            },
            (InitState::ReadingLdoBias, InitEvent::LdoBiasWords { ldo_tune_l, ldo_tune_h, bias }) => {
                let c = self.init_calibration(ldo_tune_l, ldo_tune_h, bias, 0, 0);
                if c.load_ldo_bias {
                    InitState::LoadingLdoBias { biastune_cal: c.biastune_cal }
                } else {
                    InitState::ReadingXtal
                }
            },
            (InitState::LoadingLdoBias { .. }, InitEvent::Written) => InitState::ReadingXtal,
            (InitState::ReadingXtal, InitEvent::XtalWord { xtal }) => InitState::TrimmingXtal {
                trim: self.init_calibration(0, 0, 0, xtal, 0).xtal_trim,
            },
            (InitState::TrimmingXtal { .. }, InitEvent::Written) => InitState::ReadingPllCode,
            (InitState::ReadingPllCode, InitEvent::PllWord { pll_lock_code }) => if pll_lock_code != 0 {
                InitState::LoadingPllCode { code: pll_lock_code }
            } else {
                InitState::Initialized
            },
            (InitState::LoadingPllCode { .. }, InitEvent::Written) => InitState::Initialized,
            _ => st,
        };
        let action = match next {
            InitState::WaitingForRcinit { .. } => InitAction::ReadStatus,
            InitState::ConfirmingRcinit => InitAction::ReadStatus,
            InitState::Identifying => InitAction::ReadDeviceId,
            InitState::ReadingLdoBias => InitAction::ReadLdoBiasWords,
            InitState::LoadingLdoBias { biastune_cal } => InitAction::WriteLdoBias { biastune_cal },
            InitState::ReadingXtal => InitAction::ReadXtalWord,
            InitState::TrimmingXtal { trim } => InitAction::WriteXtalTrim(trim),
            InitState::ReadingPllCode => InitAction::ReadPllWord,
            InitState::LoadingPllCode { code } => InitAction::WritePllCode(code),
            InitState::Initialized => InitAction::Done,
            InitState::Failed { wrong_device } => InitAction::Fail(
                if wrong_device {
                    Error::InvalidConfiguration
                } else {
                    Error::InitializationFailed
                },
            ),
        };
        (next, action)
    }
}

} // verus!
