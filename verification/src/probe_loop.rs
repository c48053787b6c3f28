//! Probe Loop: resets the device once, then repeatedly sweeps a configured
//! address x register matrix with register reads, reporting every value a
//! present device returns and a completion marker after each full sweep.
//!
//! Ordering is address-major, register-minor, fully sequential: the results
//! are read by a human correlating physical actions on the device with
//! register changes, so nothing may be interleaved or reordered.

use vstd::prelude::*;
use crate::bus::{
    BusCommand, BusOp, TransactionDescriptor, describes, read_command_spec, write_command_spec,
    MAX_DEVICE_ADDRESS, STATUS_ADDR_NACK, TRANSACTION_TIMEOUT,
};
use crate::resettor::{ResetAction, ResetState, Resettor};

verus! {

/// What to probe: which bus, which reset line with its settle times, how
/// many sweeps, and the candidate addresses and registers to sample.
pub struct ProbeConfig {
    pub bus: u8,
    pub reset_pin: u8,
    pub settle_low_ms: u32,
    pub settle_high_ms: u32,
    pub repetitions: usize,
    pub addresses: Vec<u8>,
    pub registers: Vec<u8>,
}

impl ProbeConfig {
    /// Every candidate address stays within the 7-bit address space.
    pub open spec fn wf(self) -> bool {
        forall|i: int|
            0 <= i < self.addresses@.len() ==> self.addresses@[i] <= MAX_DEVICE_ADDRESS
    }

    /// The reference bring-up configuration: reset pin 10 pulsed low for
    /// 20 ms and settled high for 400 ms, 20 sweeps over the touch
    /// controller's address and its documented registers.
    pub fn reference(bus: u8) -> (c: ProbeConfig)
        ensures
            c.wf(),
            c.bus == bus,
            c.reset_pin == 10,
            c.settle_low_ms == 20,
            c.settle_high_ms == 400,
            c.repetitions == 20,
            c.addresses@ == seq![0x15u8],
            c.registers@ == seq![0x00u8, 0x01u8, 0xA3u8, 0x9Fu8, 0x8Fu8, 0xA6u8, 0xA8u8],
    {
        let mut addresses: Vec<u8> = Vec::new();
        addresses.push(0x15);
        let mut registers: Vec<u8> = Vec::new();
        registers.push(0x00);
        registers.push(0x01);
        registers.push(0xA3);
        registers.push(0x9F);
        registers.push(0x8F);
        registers.push(0xA6);
        registers.push(0xA8);
        proof {
            assert(addresses@ =~= seq![0x15u8]);
            assert(registers@ =~= seq![0x00u8, 0x01u8, 0xA3u8, 0x9Fu8, 0x8Fu8, 0xA6u8, 0xA8u8]);
        }
        ProbeConfig {
            bus,
            reset_pin: 10,
            settle_low_ms: 20,
            settle_high_ms: 400,
            repetitions: 20,
            addresses,
            registers,
        }
    }
}

/// One reported sample: the device at `address` returned `value` for
/// register `register`.
#[derive(Clone, Copy, Debug, PartialEq, Eq, Structural)]
pub struct RegisterReading {
    pub address: u8,
    pub register: u8,
    pub value: u8,
}

/// Where the probe loop stands. `rep` counts sweeps, `ai` and `ri` index
/// the configured address and register lists.
#[derive(Clone, Copy, Debug, PartialEq, Eq, Structural)]
pub enum ProbePhase {
    /// The reset sequence is in progress.
    Resetting,
    /// The write phase of the read at (`rep`, `ai`, `ri`) is the next
    /// action.
    WritePending { rep: usize, ai: usize, ri: usize },
    /// The read phase of the read at (`rep`, `ai`, `ri`) is the next
    /// action.
    ReadPending { rep: usize, ai: usize, ri: usize },
    /// Sweep `rep` is complete and its completion marker is the next
    /// action.
    SweepDonePending { rep: usize },
    /// All sweeps are complete.
    Done,
    /// The reset failed; probing never started and no further action is
    /// asked for.
    Aborted,
}

/// The next action the probe loop asks its caller to perform.
pub enum ProbeAction {
    /// Perform a reset step (pin drive or settle delay).
    Reset(ResetAction),
    /// Perform a bus transaction and report its status (and, for a read,
    /// the descriptor) back.
    Bus(BusCommand),
    /// Report the completion marker for a finished sweep.
    ReportSweepDone,
}

/// The phase a sweep starts in: done if no sweeps remain, straight to the
/// completion marker if either candidate list is empty, else the first
/// read's write phase.
pub open spec fn spec_sweep_start(c: ProbeConfig, rep: usize) -> ProbePhase {
    if rep >= c.repetitions {
        ProbePhase::Done
    } else if c.addresses@.len() == 0 || c.registers@.len() == 0 {
        ProbePhase::SweepDonePending { rep }
    } else {
        ProbePhase::WritePending { rep, ai: 0, ri: 0 }
    }
}

/// The phase that follows a completed read at (`rep`, `ai`, `ri`):
/// register-minor, then address-major, then the sweep's completion marker.
pub open spec fn spec_after_read(c: ProbeConfig, rep: usize, ai: usize, ri: usize) -> ProbePhase
    recommends
        ai < c.addresses@.len(),
        ri < c.registers@.len(),
{
    if ri + 1 < c.registers@.len() {
        ProbePhase::WritePending { rep, ai, ri: (ri + 1) as usize }
    } else if ai + 1 < c.addresses@.len() {
        ProbePhase::WritePending { rep, ai: (ai + 1) as usize, ri: 0 }
    } else {
        ProbePhase::SweepDonePending { rep }
    }
}

/// Orchestrates one bring-up run: the reset sequence once, then
/// `repetitions` sweeps of register reads over the configured matrix,
/// accumulating every reported reading in order.
pub struct ProbeLoop {
    pub config: ProbeConfig,
    pub resettor: Resettor,
    pub phase: ProbePhase,
    /// Readings reported so far, in the order they were sampled.
    pub results: Vec<RegisterReading>,
    /// Sweeps whose completion marker has been reported.
    pub sweeps_completed: usize,
}

impl ProbeLoop {
    /// The phase, the embedded resettor and the counters agree, and every
    /// index stays inside the configured lists.
    pub open spec fn wf(self) -> bool {
        &&& self.config.wf()
        &&& self.resettor.wf()
        &&& self.resettor.pin == self.config.reset_pin
        &&& self.resettor.settle_low_ms == self.config.settle_low_ms
        &&& self.resettor.settle_high_ms == self.config.settle_high_ms
        &&& self.sweeps_completed <= self.config.repetitions
        &&& (forall|i: int|
            0 <= i < self.results@.len() ==> self.results@[i].address <= MAX_DEVICE_ADDRESS)
        &&& match self.phase {
            ProbePhase::Resetting => {
                &&& !(self.resettor.state is Done)
                &&& !(self.resettor.state is Failed)
                &&& self.sweeps_completed == 0
                &&& self.results@.len() == 0
            },
            ProbePhase::WritePending { rep, ai, ri } => {
                &&& self.resettor.state is Done
                &&& rep < self.config.repetitions
                &&& ai < self.config.addresses@.len()
                &&& ri < self.config.registers@.len()
                &&& self.sweeps_completed == rep
            },
            ProbePhase::ReadPending { rep, ai, ri } => {
                &&& self.resettor.state is Done
                &&& rep < self.config.repetitions
                &&& ai < self.config.addresses@.len()
                &&& ri < self.config.registers@.len()
                &&& self.sweeps_completed == rep
            },
            ProbePhase::SweepDonePending { rep } => {
                &&& self.resettor.state is Done
                &&& rep < self.config.repetitions
                &&& self.sweeps_completed == rep
            },
            ProbePhase::Done => {
                &&& self.resettor.state is Done
                &&& self.sweeps_completed == self.config.repetitions
            },
            ProbePhase::Aborted => {
                &&& self.resettor.state is Failed
                &&& self.sweeps_completed == 0
                &&& self.results@.len() == 0
            },
        }
    }

    /// Start a bring-up run: the reset sequence comes first, before any
    /// register access is attempted.
    pub fn new(config: ProbeConfig) -> (p: ProbeLoop)
        requires
            config.wf(),
        ensures
            p.wf(),
            p.config == config,
            p.phase == ProbePhase::Resetting,
            p.results@.len() == 0,
            p.sweeps_completed == 0,
            p.resettor.state == ResetState::LowPending,
    {
        let resettor = Resettor::new(config.reset_pin, config.settle_low_ms, config.settle_high_ms);
        ProbeLoop {
            config,
            resettor,
            phase: ProbePhase::Resetting,
            results: Vec::new(),
            sweeps_completed: 0,
        }
    }

    /// The phase a sweep starts in (executable form of [`spec_sweep_start`]).
    fn sweep_start_phase(config: &ProbeConfig, rep: usize) -> (p: ProbePhase)
        ensures
            p == spec_sweep_start(*config, rep),
    {
        if rep >= config.repetitions {
            ProbePhase::Done
        } else if config.addresses.len() == 0 || config.registers.len() == 0 {
            ProbePhase::SweepDonePending { rep }
        } else {
            ProbePhase::WritePending { rep, ai: 0, ri: 0 }
        }
    }

    /// The next action to perform, or `None` once the run is done or was
    /// aborted by a reset failure. During the sweeps the loop issues, per
    /// (address, register) cell, exactly the Register Reader's two-phase
    /// exchange: the write command holding the register index (bus held),
    /// then the single-byte read command (bus released).
    pub fn next_action(&self) -> (r: Option<ProbeAction>)
        requires
            self.wf(),
        ensures
            self.phase is Resetting ==> (r matches Some(ProbeAction::Reset(a))
                && self.resettor.spec_next_action() == Some(a)),
            self.phase matches ProbePhase::WritePending { rep, ai, ri } ==> (r matches Some(
                ProbeAction::Bus(cmd),
            ) && describes(
                cmd,
                write_command_spec(
                    self.config.bus,
                    self.config.addresses@[ai as int],
                    self.config.registers@[ri as int],
                ),
            )),
            self.phase matches ProbePhase::ReadPending { rep, ai, ri } ==> (r matches Some(
                ProbeAction::Bus(cmd),
            ) && describes(
                cmd,
                read_command_spec(self.config.bus, self.config.addresses@[ai as int]),
            )),
            self.phase is SweepDonePending ==> r matches Some(ProbeAction::ReportSweepDone),
            self.phase is Done || self.phase is Aborted ==> r is None,
    {
        match self.phase {
            ProbePhase::Resetting => {
                match self.resettor.next_action() {
                    Some(a) => Some(ProbeAction::Reset(a)),
                    None => None,
                }
            },
            ProbePhase::WritePending { rep: _, ai, ri } => {
                let address = self.config.addresses[ai];
                let register = self.config.registers[ri];
                let descriptor = TransactionDescriptor::for_register_write(address, register);
                Some(ProbeAction::Bus(BusCommand {
                    bus: self.config.bus,
                    op: BusOp::Write,
                    descriptor,
                    timeout: TRANSACTION_TIMEOUT,
                    stop: false,
                }))
            },
            ProbePhase::ReadPending { rep: _, ai, ri: _ } => {
                let address = self.config.addresses[ai];
                let descriptor = TransactionDescriptor::for_single_read(address);
                Some(ProbeAction::Bus(BusCommand {
                    bus: self.config.bus,
                    op: BusOp::Read,
                    descriptor,
                    timeout: TRANSACTION_TIMEOUT,
                    stop: true,
                }))
            },
            ProbePhase::SweepDonePending { rep: _ } => Some(ProbeAction::ReportSweepDone),
            ProbePhase::Done => None,
            ProbePhase::Aborted => None,
        }
    }

    /// Report the outcome of the pending reset pin drive. A failure aborts
    /// the whole run — the device state is undefined, so probing must not
    /// proceed — and the abort is the caller's fatal error.
    pub fn complete_reset_drive(&mut self, ok: bool)
        requires
            old(self).wf(),
            old(self).phase is Resetting,
            old(self).resettor.state == ResetState::LowPending || old(self).resettor.state
                == ResetState::HighPending,
        ensures
            final(self).wf(),
            final(self).config == old(self).config,
            final(self).results@ == old(self).results@,
            final(self).sweeps_completed == old(self).sweeps_completed,
            !ok ==> final(self).phase is Aborted && final(self).resettor.state
                == ResetState::Failed,
            ok && old(self).resettor.state == ResetState::LowPending ==> final(self).phase
                is Resetting && final(self).resettor.state == ResetState::LowSettlePending,
            ok && old(self).resettor.state == ResetState::HighPending ==> final(self).phase
                is Resetting && final(self).resettor.state == ResetState::HighSettlePending,
    {
        self.resettor.complete_drive(ok);
        if self.resettor.is_failed() {
            self.phase = ProbePhase::Aborted;
        }
    }

    /// Report that the pending reset settle delay has elapsed. After the
    /// high settle the reset is complete and the sweeps begin.
    pub fn complete_reset_delay(&mut self)
        requires
            old(self).wf(),
            old(self).phase is Resetting,
            old(self).resettor.state == ResetState::LowSettlePending || old(self).resettor.state
                == ResetState::HighSettlePending,
        ensures
            final(self).wf(),
            final(self).config == old(self).config,
            final(self).results@ == old(self).results@,
            final(self).sweeps_completed == old(self).sweeps_completed,
            old(self).resettor.state == ResetState::LowSettlePending ==> final(self).phase
                is Resetting && final(self).resettor.state == ResetState::HighPending,
            old(self).resettor.state == ResetState::HighSettlePending ==> {
                &&& final(self).resettor.state == ResetState::Done
                &&& final(self).phase == spec_sweep_start(old(self).config, 0)
            },
    {
        self.resettor.complete_delay();
        if self.resettor.is_done() {
            let start = Self::sweep_start_phase(&self.config, 0);
            self.phase = start;
        }
    }

    /// Record the status of the pending write phase. The status is observed
    /// but deliberately not acted on — whatever it was, the read phase
    /// follows, and only the read-phase status gates the outcome.
    pub fn complete_write(&mut self, write_status: i32)
        requires
            old(self).wf(),
            old(self).phase is WritePending,
        ensures
            final(self).wf(),
            final(self).config == old(self).config,
            final(self).results@ == old(self).results@,
            final(self).sweeps_completed == old(self).sweeps_completed,
            final(self).resettor == old(self).resettor,
            old(self).phase matches ProbePhase::WritePending { rep, ai, ri } ==> final(self).phase
                == (ProbePhase::ReadPending { rep, ai, ri }),
    {
        match self.phase {
            ProbePhase::WritePending { rep, ai, ri } => {
                self.phase = ProbePhase::ReadPending { rep, ai, ri };
            },
            _ => {},
        }
    }

    /// Record the outcome of the pending read phase and advance through the
    /// matrix. An address-NACK status means the device is absent: the cell
    /// is silently skipped. Any other status reports the byte the bus
    /// placed in the descriptor's buffer, appended to the results in
    /// sampling order.
    pub fn complete_read(&mut self, read_status: i32, data: u8) -> (r: Option<RegisterReading>)
        requires
            old(self).wf(),
            old(self).phase is ReadPending,
        ensures
            final(self).wf(),
            final(self).config == old(self).config,
            final(self).sweeps_completed == old(self).sweeps_completed,
            final(self).resettor == old(self).resettor,
            old(self).phase matches ProbePhase::ReadPending { rep, ai, ri } ==> {
                &&& final(self).phase == spec_after_read(old(self).config, rep, ai, ri)
                &&& (read_status == STATUS_ADDR_NACK ==> r is None && final(self).results@ == old(
                    self,
                ).results@)
                &&& (read_status != STATUS_ADDR_NACK ==> {
                    let reading = RegisterReading {
                        address: old(self).config.addresses@[ai as int],
                        register: old(self).config.registers@[ri as int],
                        value: data,
                    };
                    r == Some(reading) && final(self).results@ == old(self).results@.push(reading)
                })
            },
    {
        match self.phase {
            ProbePhase::ReadPending { rep, ai, ri } => {
                let address = self.config.addresses[ai];
                let register = self.config.registers[ri];
                let register_count = self.config.registers.len();
                let address_count = self.config.addresses.len();
                self.phase = if ri + 1 < register_count {
                    ProbePhase::WritePending { rep, ai, ri: ri + 1 }
                } else if ai + 1 < address_count {
                    ProbePhase::WritePending { rep, ai: ai + 1, ri: 0 }
                } else {
                    ProbePhase::SweepDonePending { rep }
                };
                if read_status != STATUS_ADDR_NACK {
                    let reading = RegisterReading { address, register, value: data };
                    self.results.push(reading);
                    Some(reading)
                } else {
                    None
                }
            },
            _ => None,
        }
    }

    /// Report that the completion marker for the finished sweep has been
    /// emitted; the next sweep (or the end of the run) follows.
    pub fn complete_sweep_marker(&mut self)
        requires
            old(self).wf(),
            old(self).phase is SweepDonePending,
        ensures
            final(self).wf(),
            final(self).config == old(self).config,
            final(self).results@ == old(self).results@,
            final(self).resettor == old(self).resettor,
            old(self).phase matches ProbePhase::SweepDonePending { rep } ==> {
                &&& final(self).sweeps_completed == rep + 1
                &&& final(self).phase == spec_sweep_start(old(self).config, (rep + 1) as usize)
            },
    {
        match self.phase {
            ProbePhase::SweepDonePending { rep } => {
                self.sweeps_completed = rep + 1;
                let next = Self::sweep_start_phase(&self.config, rep + 1);
                self.phase = next;
            },
            _ => {},
        }
    }

    /// Whether every sweep has completed.
    pub fn is_done(&self) -> (r: bool)
        ensures
            r <==> self.phase is Done,
    {
        matches!(self.phase, ProbePhase::Done)
    }

    /// Whether the run was aborted by a reset failure. An aborted run never
    /// sampled anything: the fault is fatal and must be propagated.
    pub fn is_aborted(&self) -> (r: bool)
        ensures
            r <==> self.phase is Aborted,
    {
        matches!(self.phase, ProbePhase::Aborted)
    }
}

/// A run aborted by a reset failure reported no reading and completed no
/// sweep: a failed reset leaves the device state undefined, so nothing was
/// probed.
pub proof fn lemma_aborted_run_probed_nothing(p: ProbeLoop)
    requires
        p.wf(),
        p.phase is Aborted,
    ensures
        p.results@.len() == 0,
        p.sweeps_completed == 0,
        p.resettor.state is Failed,
{
}

} // verus!
