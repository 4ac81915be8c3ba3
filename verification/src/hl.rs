//! High-level interface to the DW3000
//!
//! The entry point to this API is the [DW3000] struct. Its type records the
//! state the radio is in; the methods of each state compute the register
//! values that an operation writes and interpret the values it reads.

use vstd::prelude::*;

pub mod awake;
pub mod config_steps;
pub mod configuring;
pub mod error;
pub mod framing;
pub mod initializing;
pub mod ready;
pub mod sending;
pub mod states;
pub mod uninitialized;

use crate::configs::Config;
pub use crate::hl::error::Error;
pub use crate::hl::framing::{tx_buffer_for_send, tx_buffer_framed, tx_buffer_with, TX_DATA_LEN};
pub use crate::hl::ready::{ConfigGPIOs, IrqPolarity, SendTime, SyncBehaviour};
pub use crate::hl::states::{
    AutoDoubleBufferReceiving, Awake, Ready, Sending, SingleBufferReceiving, Sleeping, Uninitialized,
};
pub use crate::hl::uninitialized::{ConfigPlan, InitCalibration, PollStep};
use crate::ll;

verus! {

/// An operation of the driver, as far as the frame sequence number goes
#[derive(Copy, Clone, Debug, PartialEq, Eq, Structural)]
pub enum RadioCall {
    /// `init`
    Init,
    /// `config`
    Config,
    /// `receive`
    Receive,
    /// `send_raw`
    SendRaw,
    /// `send_frame`
    SendFrame,
    /// `send`
    Send,
    /// `s_wait`
    SWait,
    /// `finish_sending`
    FinishSending,
    /// `abort_sending`
    AbortSending,
}

/// The sequence number after `call`: `send` takes it with
/// [`DW3000::next_seq`], which steps it by one, wrapping after 255; every
/// other operation keeps it (their functions here all keep `spec_seq`)
pub open spec fn seq_after(s: u8, call: RadioCall) -> u8 {
    if call == RadioCall::Send {
        if s == 255 {
            0
        } else {
            (s + 1) as u8
        }
    } else {
        s
    }
}

/// The sequence number after the calls `calls`, in order, from `s`
pub open spec fn seq_after_calls(s: u8, calls: Seq<RadioCall>) -> u8
    decreases calls.len(),
{
    if calls.len() == 0 {
        s
    } else {
        seq_after_calls(seq_after(s, calls[0]), calls.drop_first())
    }
}

/// How many of `calls` are `send`
pub open spec fn send_count(calls: Seq<RadioCall>) -> nat
    decreases calls.len(),
{
    if calls.len() == 0 {
        0
    } else {
        (if calls[0] == RadioCall::Send { 1nat } else { 0nat }) + send_count(calls.drop_first())
    }
}

/// Successive sends carry successive sequence numbers: after any calls
/// from a new radio (whose number is 0), the next `send` takes the number
/// of sends made so far, modulo 256, and puts it in byte 2 of its frame.
pub proof fn lemma_send_sequence_numbers(calls: Seq<RadioCall>, pan_id: u16, short_addr: Seq<u8>)
    ensures
        seq_after_calls(0, calls) == send_count(calls) % 256,
        crate::hl::framing::data_frame_header(seq_after_calls(0, calls), pan_id, short_addr)[2]
            == send_count(calls) % 256,
{
    lemma_seq_after_calls(0, calls);
}

proof fn lemma_seq_after_calls(s: u8, calls: Seq<RadioCall>)
    ensures
        seq_after_calls(s, calls) == (s + send_count(calls)) % 256,
    decreases calls.len(),
{
    if calls.len() > 0 {
        let s1 = seq_after(s, calls[0]);
        lemma_seq_after_calls(s1, calls.drop_first());
        let n = send_count(calls.drop_first());
        if calls[0] == RadioCall::Send {
            assert((s1 + n) % 256 == (s + 1 + n) % 256) by {
                if s == 255 {
                    vstd::arithmetic::div_mod::lemma_mod_add_multiples_vanish((n as int), 256);
                }
            }
        }
    }
}

/// Entry point to the DW3000 driver API
pub struct DW3000<SPI, CS, State> {
    ll: ll::DW3000<SPI, CS>,
    seq: u8,
    state: State,
}

impl<SPI, CS, State> DW3000<SPI, CS, State> {
    /// The register-level driver
    pub closed spec fn spec_ll(&self) -> ll::DW3000<SPI, CS> {
        self.ll
    }

    /// The sequence number of the next frame that `send` emits
    pub closed spec fn spec_seq(&self) -> u8 {
        self.seq
    }

    /// The state the radio is in
    pub closed spec fn spec_state(&self) -> State {
        self.state
    }

    /// Provides direct access to the register-level API
    ///
    /// Be aware that by using the register-level API, you can invalidate
    /// various assumptions that the high-level API makes about the operation of
    /// the DW3000. Don't use the register-level and high-level APIs in tandem,
    /// unless you know what you're doing.
    pub fn ll(&mut self) -> (r: &mut ll::DW3000<SPI, CS>)
        ensures
            *r == old(self).spec_ll(),
            final(self).spec_ll() == *final(r),
            final(self).spec_seq() == old(self).spec_seq(),
            final(self).spec_state() == old(self).spec_state(),
    {
        &mut self.ll
    }

    /// The sequence number of the next frame that `send` emits
    pub fn seq(&self) -> (s: u8)
        ensures
            s == self.spec_seq(),
    {
        self.seq
    }

    /// The state the radio is in
    pub fn radio_state(&self) -> (s: &State)
        ensures
            *s == self.spec_state(),
    {
        &self.state
    }

    /// The same radio, moved to another state
    fn with_state<Next>(self, state: Next) -> (r: DW3000<SPI, CS, Next>)
        ensures
            r.spec_ll() == self.spec_ll(),
            r.spec_seq() == self.spec_seq(),
            r.spec_state() == state,
    {
        DW3000 { ll: self.ll, seq: self.seq, state }
    }
}

impl<SPI, CS> DW3000<SPI, CS, Uninitialized> {
    /// Create a new instance of `DW3000`
    ///
    /// Requires the SPI peripheral and the chip select pin that are connected
    /// to the DW3000.
    pub fn new(spi: SPI, chip_select: CS) -> (r: Self)
        ensures
            r.spec_ll().spec_bus() == spi,
            r.spec_ll().spec_chip_select() == chip_select,
            r.spec_seq() == 0,
    {
        DW3000 { ll: ll::DW3000::new(spi, chip_select), seq: 0, state: Uninitialized }
    }

    /// The radio once its configuration has been written: `config` ends here
    pub fn configured(self) -> (r: DW3000<SPI, CS, Ready>)
        ensures
            r.spec_ll() == self.spec_ll(),
            r.spec_seq() == self.spec_seq(),
    {
        self.with_state(Ready)
    }
}

impl<SPI, CS> DW3000<SPI, CS, Ready> {
    /// The radio once a transmission has been started: every `send` ends here
    pub fn start_sending(self) -> (r: DW3000<SPI, CS, Sending>)
        ensures
            r.spec_ll() == self.spec_ll(),
            r.spec_seq() == self.spec_seq(),
            r.spec_state() == (Sending { finished: false }),
    {
        self.with_state(Sending { finished: false })
    }

    /// Attempt to receive a single IEEE 802.15.4 MAC frame
    ///
    /// Consumes this instance of `DW3000` and returns another instance which
    /// is in the [SingleBufferReceiving] state, not yet finished, with the
    /// given configuration. This is the change of state; the receiver is
    /// started by the fast command of [`DW3000::receive_command`].
    pub fn receive(self, config: Config) -> (r: DW3000<SPI, CS, SingleBufferReceiving>)
        ensures
            r.spec_ll() == self.spec_ll(),
            r.spec_seq() == self.spec_seq(),
            r.spec_state() == (SingleBufferReceiving { finished: false, config }),
    {
        self.with_state(SingleBufferReceiving { finished: false, config })
    }

    /// Takes the sequence number for the next frame and advances it,
    /// wrapping around after 255
    pub fn next_seq(&mut self) -> (s: u8)
        ensures
            s == old(self).spec_seq(),
            final(self).spec_seq() == (if s == 255 { 0 } else { s + 1 }),
            final(self).spec_seq() == seq_after(s, RadioCall::Send),
            final(self).spec_ll() == old(self).spec_ll(),
            final(self).spec_state() == old(self).spec_state(),
    {
        let s = self.seq;
        self.seq = s.wrapping_add(1);
        s
    }
}

impl<SPI, CS> DW3000<SPI, CS, Sending> {
    /// Records that the transmission has finished
    pub fn mark_finished(&mut self)
        ensures
            final(self).spec_state() == (Sending { finished: true }),
            final(self).spec_ll() == old(self).spec_ll(),
            final(self).spec_seq() == old(self).spec_seq(),
    {
        self.state.mark_finished();
    }

    /// Whether leaving the sending state has to force the radio idle first:
    /// a transmission that has not finished is aborted
    pub fn needs_abort(&self) -> (b: bool)
        ensures
            b == !self.spec_state().finished,
    {
        !self.state.is_finished()
    }

    /// Finishes sending and returns to the `Ready` state
    ///
    /// If the send operation has not finished, it is aborted (see
    /// [`DW3000::needs_abort`]) before this is called.
    pub fn abort_sending(self) -> (r: DW3000<SPI, CS, Ready>)
        ensures
            r.spec_ll() == self.spec_ll(),
            r.spec_seq() == self.spec_seq(),
    {
        self.with_state(Ready)
    }

    /// Finishes sending and returns to the `Ready` state.
    ///
    /// If the send operation has finished, as indicated by `wait`, this is a
    /// no-op. If the send operation is still ongoing, it is aborted first.
    /// The sending state holds no continuation, so there is none to check:
    /// the radio always returns to `Ready`.
    pub fn finish_sending(self) -> (r: DW3000<SPI, CS, Ready>)
        ensures
            r.spec_ll() == self.spec_ll(),
            r.spec_seq() == self.spec_seq(),
    {
        self.abort_sending()
    }
}

} // verus!
