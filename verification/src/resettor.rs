//! Device Resettor: drives a reset line low, waits, drives it high, waits
//! again, bringing the device into a defined state before probing.
//!
//! Pin drives are fallible hardware operations, so the resettor is a
//! machine: [`Resettor::next_action`] says what to do next, and the caller
//! reports each outcome back. A failed drive aborts the sequence at once —
//! the device state is then undefined and probing must not proceed.

use vstd::prelude::*;

verus! {

/// One step of the reset sequence for the caller to perform.
#[derive(Clone, Copy, Debug, PartialEq, Eq, Structural)]
pub enum ResetAction {
    /// Drive the reset pin low (fallible).
    DriveLow { pin: u8 },
    /// Drive the reset pin high (fallible).
    DriveHigh { pin: u8 },
    /// Block for the given settle time in milliseconds (infallible).
    Delay { ms: u32 },
}

/// Where the reset sequence stands.
#[derive(Clone, Copy, Debug, PartialEq, Eq, Structural)]
pub enum ResetState {
    /// The low drive is the next action.
    LowPending,
    /// The low-settle delay is the next action.
    LowSettlePending,
    /// The high drive is the next action.
    HighPending,
    /// The high-settle delay is the next action.
    HighSettlePending,
    /// The sequence completed: low, settle, high, settle, in order.
    Done,
    /// A pin drive failed; the sequence is aborted and emits no further
    /// action.
    Failed,
}

/// The reset sequence for one pin: low pulse of `settle_low_ms`, then the
/// line held high for `settle_high_ms` before the device is considered
/// settled.
pub struct Resettor {
    pub pin: u8,
    pub settle_low_ms: u32,
    pub settle_high_ms: u32,
    pub state: ResetState,
    /// The actions performed so far, oldest first. A drive that failed is
    /// not performed and does not appear.
    pub performed: Ghost<Seq<ResetAction>>,
}

impl Resettor {
    /// The full sequence a successful reset performs.
    pub open spec fn full_sequence(self) -> Seq<ResetAction> {
        seq![
            ResetAction::DriveLow { pin: self.pin },
            ResetAction::Delay { ms: self.settle_low_ms },
            ResetAction::DriveHigh { pin: self.pin },
            ResetAction::Delay { ms: self.settle_high_ms },
        ]
    }

    /// The performed trace is exactly the prefix of the full sequence that
    /// the state says has happened; a failure can only stand where a drive
    /// was next.
    pub open spec fn wf(self) -> bool {
        match self.state {
            ResetState::LowPending => self.performed@ == self.full_sequence().take(0),
            ResetState::LowSettlePending => self.performed@ == self.full_sequence().take(1),
            ResetState::HighPending => self.performed@ == self.full_sequence().take(2),
            ResetState::HighSettlePending => self.performed@ == self.full_sequence().take(3),
            ResetState::Done => self.performed@ == self.full_sequence(),
            ResetState::Failed => self.performed@ == self.full_sequence().take(0)
                || self.performed@ == self.full_sequence().take(2),
        }
    }

    /// Start a reset sequence for the given pin and settle times.
    pub fn new(pin: u8, settle_low_ms: u32, settle_high_ms: u32) -> (r: Resettor)
        ensures
            r.wf(),
            r.pin == pin,
            r.settle_low_ms == settle_low_ms,
            r.settle_high_ms == settle_high_ms,
            r.state == ResetState::LowPending,
            r.performed@ == Seq::<ResetAction>::empty(),
    {
        let r = Resettor {
            pin,
            settle_low_ms,
            settle_high_ms,
            state: ResetState::LowPending,
            performed: Ghost(Seq::empty()),
        };
        proof {
            assert(r.performed@ =~= r.full_sequence().take(0));
        }
        r
    }

    /// The action the sequence asks for next, as a function of its state:
    /// drive low, settle, drive high, settle — and nothing once it is done
    /// or aborted.
    pub open spec fn spec_next_action(self) -> Option<ResetAction> {
        match self.state {
            ResetState::LowPending => Some(ResetAction::DriveLow { pin: self.pin }),
            ResetState::LowSettlePending => Some(ResetAction::Delay { ms: self.settle_low_ms }),
            ResetState::HighPending => Some(ResetAction::DriveHigh { pin: self.pin }),
            ResetState::HighSettlePending => Some(ResetAction::Delay { ms: self.settle_high_ms }),
            ResetState::Done => None,
            ResetState::Failed => None,
        }
    }

    /// The next action to perform, or `None` once the sequence is done or
    /// aborted. After a failure nothing further is ever asked for: a fault
    /// on the low drive prevents the high drive and both delays.
    pub fn next_action(&self) -> (r: Option<ResetAction>)
        ensures
            r == self.spec_next_action(),
    {
        match self.state {
            ResetState::LowPending => Some(ResetAction::DriveLow { pin: self.pin }),
            ResetState::LowSettlePending => Some(ResetAction::Delay { ms: self.settle_low_ms }),
            ResetState::HighPending => Some(ResetAction::DriveHigh { pin: self.pin }),
            ResetState::HighSettlePending => Some(ResetAction::Delay { ms: self.settle_high_ms }),
            ResetState::Done => None,
            ResetState::Failed => None,
        }
    }

    /// Report the outcome of the pending pin drive. Success advances to the
    /// following settle delay; failure aborts the whole sequence
    /// immediately, so that the caller propagates a fatal error instead of
    /// probing a device in an undefined state.
    pub fn complete_drive(&mut self, ok: bool)
        requires
            old(self).wf(),
            old(self).state == ResetState::LowPending || old(self).state
                == ResetState::HighPending,
        ensures
            final(self).wf(),
            final(self).pin == old(self).pin,
            final(self).settle_low_ms == old(self).settle_low_ms,
            final(self).settle_high_ms == old(self).settle_high_ms,
            !ok ==> {
                &&& final(self).state == ResetState::Failed
                &&& final(self).performed@ == old(self).performed@
            },
            ok && old(self).state == ResetState::LowPending ==> {
                &&& final(self).state == ResetState::LowSettlePending
                &&& final(self).performed@ == old(self).performed@.push(
                    ResetAction::DriveLow { pin: old(self).pin },
                )
            },
            ok && old(self).state == ResetState::HighPending ==> {
                &&& final(self).state == ResetState::HighSettlePending
                &&& final(self).performed@ == old(self).performed@.push(
                    ResetAction::DriveHigh { pin: old(self).pin },
                )
            },
    {
        if !ok {
            self.state = ResetState::Failed;
        } else if matches!(self.state, ResetState::LowPending) {
            self.state = ResetState::LowSettlePending;
            proof {
                self.performed@ = self.performed@.push(ResetAction::DriveLow { pin: self.pin });
                assert(self.performed@ =~= self.full_sequence().take(1));
            }
        } else {
            self.state = ResetState::HighSettlePending;
            proof {
                self.performed@ = self.performed@.push(ResetAction::DriveHigh { pin: self.pin });
                assert(self.performed@ =~= self.full_sequence().take(3));
            }
        }
    }

    /// Report that the pending settle delay has elapsed. The low settle
    /// leads to the high drive; the high settle completes the sequence.
    pub fn complete_delay(&mut self)
        requires
            old(self).wf(),
            old(self).state == ResetState::LowSettlePending || old(self).state
                == ResetState::HighSettlePending,
        ensures
            final(self).wf(),
            final(self).pin == old(self).pin,
            final(self).settle_low_ms == old(self).settle_low_ms,
            final(self).settle_high_ms == old(self).settle_high_ms,
            old(self).state == ResetState::LowSettlePending ==> {
                &&& final(self).state == ResetState::HighPending
                &&& final(self).performed@ == old(self).performed@.push(
                    ResetAction::Delay { ms: old(self).settle_low_ms },
                )
            },
            old(self).state == ResetState::HighSettlePending ==> {
                &&& final(self).state == ResetState::Done
                &&& final(self).performed@ == old(self).performed@.push(
                    ResetAction::Delay { ms: old(self).settle_high_ms },
                )
            },
    {
        if matches!(self.state, ResetState::LowSettlePending) {
            self.state = ResetState::HighPending;
            proof {
                self.performed@ = self.performed@.push(
                    ResetAction::Delay { ms: self.settle_low_ms },
                );
                assert(self.performed@ =~= self.full_sequence().take(2));
            }
        } else {
            self.state = ResetState::Done;
            proof {
                self.performed@ = self.performed@.push(
                    ResetAction::Delay { ms: self.settle_high_ms },
                );
                assert(self.performed@ =~= self.full_sequence());
            }
        }
    }

    /// Whether the sequence completed successfully.
    pub fn is_done(&self) -> (r: bool)
        ensures
            r <==> self.state == ResetState::Done,
    {
        matches!(self.state, ResetState::Done)
    }

    /// Whether a pin drive failed and the sequence was aborted.
    pub fn is_failed(&self) -> (r: bool)
        ensures
            r <==> self.state == ResetState::Failed,
    {
        matches!(self.state, ResetState::Failed)
    }
}

/// A completed reset performed exactly one low drive, the low-settle delay,
/// one high drive, and the high-settle delay, in that order and nothing
/// else.
pub proof fn lemma_reset_completed_sequence(r: Resettor)
    requires
        r.wf(),
        r.state == ResetState::Done,
    ensures
        r.performed@ == seq![
            ResetAction::DriveLow { pin: r.pin },
            ResetAction::Delay { ms: r.settle_low_ms },
            ResetAction::DriveHigh { pin: r.pin },
            ResetAction::Delay { ms: r.settle_high_ms },
        ],
{
}

/// An aborted reset never performed the high drive, and performed no
/// further action after the failed drive: a fault on the low drive leaves
/// nothing performed at all.
pub proof fn lemma_reset_fault_stops_sequence(r: Resettor)
    requires
        r.wf(),
        r.state == ResetState::Failed,
    ensures
        forall|j: int|
            0 <= j < r.performed@.len() ==> !(r.performed@[j] is DriveHigh),
        r.performed@.len() == 0 || r.performed@ == seq![
            ResetAction::DriveLow { pin: r.pin },
            ResetAction::Delay { ms: r.settle_low_ms },
        ],
{
    if r.performed@ == r.full_sequence().take(2) {
        assert(r.performed@ =~= seq![
            ResetAction::DriveLow { pin: r.pin },
            ResetAction::Delay { ms: r.settle_low_ms },
        ]);
    } else {
        assert(r.performed@ =~= Seq::<ResetAction>::empty());
    }
}

} // verus!
