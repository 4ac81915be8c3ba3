//! Operations of the radio in the `Sending` state

use vstd::prelude::*;

use crate::hl::error::Error;
use crate::hl::states::Sending;
use crate::hl::DW3000;
use crate::ll::registers::{EVC_HPW, SYS_STATE, SYS_STATUS, TX_TIME};
use crate::ll::{fields_written, Writable, R, W};
use crate::time::{Instant, TIME_MAX};

verus! {

/// The flags that `reset_flags` clears by writing ones: transmit frame
/// begins, preamble sent, PHY header sent, frame sent
pub open spec fn tx_flag_writes() -> Seq<crate::ll::FieldWrite> {
    seq![(4int, 4int, 1nat), (5, 5, 1), (6, 6, 1), (7, 7, 1)]
}

/// What `s_wait` learnt from its last read
#[derive(Copy, Clone, Debug, PartialEq, Eq, Structural)]
pub enum WaitEvent {
    /// EVC_HPW was read: whether a delayed transmission was sent too late
    Warnings { late: bool },
    /// SYS_STATUS was read: whether the frame has been sent
    Status { sent: bool },
}

/// What `s_wait` does next
pub enum WaitAction<E> {
    /// Read SYS_STATUS
    ReadStatus,
    /// Return `WouldBlock`: the transmission is still ongoing, nothing is
    /// written
    Block,
    /// Clear the transmit flags, mark the transmission finished and read
    /// its time stamp
    Finish,
    /// Return this error
    Fail(Error<E>),
}

/// What `s_wait` does after `ev`: a delayed transmission sent too late is
/// an error, otherwise SYS_STATUS is read; an unsent frame blocks, a sent
/// one finishes the wait
pub open spec fn s_wait_step_spec<E>(ev: WaitEvent) -> WaitAction<E> {
    match ev {
        WaitEvent::Warnings { late } => if late {
            WaitAction::Fail(Error::DelayedSendTooLate)
        } else {
            WaitAction::ReadStatus
        },
        WaitEvent::Status { sent } => if sent {
            WaitAction::Finish
        } else {
            WaitAction::Block
        },
    }
}

impl<SPI, CS> DW3000<SPI, CS, Sending> {
    /// One step of `s_wait` (which starts by reading EVC_HPW): what it does
    /// after the read that gave `ev`
    pub fn s_wait_step<E>(&self, ev: WaitEvent) -> (a: WaitAction<E>)
        ensures
            a == s_wait_step_spec::<E>(ev),
    {
        match ev {
            WaitEvent::Warnings { late } => if late {
                WaitAction::Fail(Error::DelayedSendTooLate)
            } else {
                WaitAction::ReadStatus
            },
            WaitEvent::Status { sent } => if sent {
                WaitAction::Finish
            } else {
                WaitAction::Block
            },
        }
    }

    /// Returns the TX state of the DW3000
    pub fn tx_state(&self, r: &R<SYS_STATE>) -> (s: u8)
        requires
            r.wf(),
        ensures
            s == r.field(0, 3),
    {
        proof {
            SYS_STATE::layout();
        }
        r.tx_state()
    }

    /// Whether a delayed transmission was sent too late: the half period
    /// warning counter is not zero
    pub fn sent_too_late(&self, evc_hpw: &R<EVC_HPW>) -> (b: bool)
        requires
            evc_hpw.wf(),
        ensures
            b == (evc_hpw.field(0, 7) != 0),
    {
        proof {
            EVC_HPW::layout();
        }
        evc_hpw.value() != 0
    }

    /// Whether the frame has been sent: the TXFRS flag is set
    pub fn frame_sent(&self, sys_status: &R<SYS_STATUS>) -> (b: bool)
        requires
            sys_status.wf(),
        ensures
            b == (sys_status.field(7, 7) != 0),
    {
        proof {
            SYS_STATUS::layout();
        }
        sys_status.txfrs() != 0
    }

    /// The value written to SYS_STATUS to clear the transmit flags
    pub fn reset_flags(&self) -> (w: W<SYS_STATUS>)
        ensures
            w.wf(),
            fields_written(crate::ll::zero_buffer(6), w@, tx_flag_writes()),
    {
        proof {
            SYS_STATUS::layout();
        }
        let mut w = SYS_STATUS::write();
        let fields = [(4usize, 4usize, 1u128), (5, 5, 1), (6, 6, 1), (7, 7, 1)];
        w.write_fields(&fields);
        proof {
            assert(W::<SYS_STATUS>::as_field_writes(fields@) =~= tx_flag_writes());
        }
        w
    }

    /// Wait for the transmission to finish, once the frame has been sent
    /// and the flags reset: the transmission is marked finished and the
    /// time stamp of the sent frame is returned
    ///
    /// The time stamp is a 40-bit field, so it always fits an [`Instant`]:
    /// the FCS error that a larger value would give never occurs.
    pub fn s_wait_finish<E>(&mut self, tx_time: &R<TX_TIME>) -> (r: Result<Instant, Error<E>>)
        requires
            tx_time.wf(),
        ensures
            final(self).spec_state().finished,
            final(self).spec_ll() == old(self).spec_ll(),
            final(self).spec_seq() == old(self).spec_seq(),
            r matches Ok(t) && t.spec_value() == tx_time.field(0, 39),
    {
        proof {
            TX_TIME::layout();
        }
        self.mark_finished();
        let tx_timestamp = tx_time.tx_stamp();
        proof {
            crate::ll::bits::lemma_bits_val_bound(tx_time@, 16, 40);
            vstd::arithmetic::power2::lemma2_to64();
            vstd::arithmetic::power2::lemma_pow2_adds(32, 8);
            assert(tx_time.field(0, 39) < 0x100_0000_0000);
            assert(tx_timestamp <= TIME_MAX);
        }
        match Instant::new(tx_timestamp) {
            Some(ts) => Ok(ts),
            None => Err(Error::Fcs),
        }
    }
}

} // verus!
