//! Register Reader: the canonical write-index-then-read-byte exchange for
//! one device register, performed as exactly two phases over one
//! descriptor.
//!
//! A [`RegisterReadSession`] hands out the write command (repeated start,
//! bus held), takes the write status back, hands out the read command (bus
//! released), and interprets the read outcome: NACK means the device is
//! absent; any other status reports the byte the bus placed in the
//! descriptor's buffer.

use vstd::prelude::*;
use crate::bus::{
    BusCommand, BusOp, CommandSpec, TransactionDescriptor, describes, read_command_spec,
    write_command_spec, MAX_DEVICE_ADDRESS, STATUS_ADDR_NACK, TRANSACTION_TIMEOUT,
};

verus! {

/// Phase of an in-flight register read.
#[derive(Clone, Copy, Debug, PartialEq, Eq, Structural)]
pub enum ReadPhase {
    /// The write command has been handed out; its status is awaited.
    WritePending,
    /// The read command has been handed out; its status and data are awaited.
    ReadPending,
    /// The exchange is over; the session must not be reused.
    Complete,
}

/// One register-read exchange against a device, strictly sequential: the
/// session owns the transaction for its duration, and a new read needs a
/// new session.
pub struct RegisterReadSession {
    pub bus: u8,
    pub address: u8,
    pub register: u8,
    pub phase: ReadPhase,
    /// The write-phase status, once seen. It is recorded for diagnostic
    /// visibility but does not gate the read phase: only the read-phase
    /// status decides whether the device is reported absent.
    pub write_status: Option<i32>,
    /// The commands handed out so far, oldest first.
    pub issued: Ghost<Seq<CommandSpec>>,
}

impl RegisterReadSession {
    /// The session's trace always matches its phase: first the write
    /// command, then the read command, and nothing else, ever.
    pub open spec fn wf(self) -> bool {
        &&& self.address <= MAX_DEVICE_ADDRESS
        &&& match self.phase {
            ReadPhase::WritePending => {
                &&& self.issued@ == seq![write_command_spec(self.bus, self.address, self.register)]
                &&& self.write_status is None
            },
            ReadPhase::ReadPending => {
                &&& self.issued@ == seq![
                    write_command_spec(self.bus, self.address, self.register),
                    read_command_spec(self.bus, self.address),
                ]
                &&& self.write_status is Some
            },
            ReadPhase::Complete => {
                &&& self.issued@ == seq![
                    write_command_spec(self.bus, self.address, self.register),
                    read_command_spec(self.bus, self.address),
                ]
                &&& self.write_status is Some
            },
        }
    }

    /// Begin a register read: returns the session and the write-phase
    /// command, which sends the register index and keeps the bus (no stop,
    /// repeated start) so the device stays addressed for the read phase.
    pub fn begin(bus: u8, address: u8, register: u8) -> (r: (RegisterReadSession, BusCommand))
        requires
            address <= MAX_DEVICE_ADDRESS,
        ensures
            r.0.wf(),
            r.0.bus == bus,
            r.0.address == address,
            r.0.register == register,
            r.0.phase == ReadPhase::WritePending,
            describes(r.1, write_command_spec(bus, address, register)),
            r.0.issued@ == seq![write_command_spec(bus, address, register)],
    {
        let descriptor = TransactionDescriptor::for_register_write(address, register);
        let command = BusCommand {
            bus,
            op: BusOp::Write,
            descriptor,
            timeout: TRANSACTION_TIMEOUT,
            stop: false,
        };
        let ghost issued: Seq<CommandSpec> = seq![write_command_spec(bus, address, register)];
        let session = RegisterReadSession {
            bus,
            address,
            register,
            phase: ReadPhase::WritePending,
            write_status: None,
            issued: Ghost(issued),
        };
        (session, command)
    }

    /// Record the write-phase status and hand out the read-phase command.
    /// The descriptor that carried the write phase is handed back in and
    /// fully repopulated for the read: one placeholder byte, same address,
    /// stop flag set so the bus is released after the read. The write
    /// status is observed but deliberately not acted on: whatever it was,
    /// the read phase follows.
    pub fn finish_write(&mut self, write_status: i32, descriptor: TransactionDescriptor) -> (cmd: BusCommand)
        requires
            old(self).wf(),
            old(self).phase == ReadPhase::WritePending,
        ensures
            final(self).wf(),
            final(self).bus == old(self).bus,
            final(self).address == old(self).address,
            final(self).register == old(self).register,
            final(self).phase == ReadPhase::ReadPending,
            final(self).write_status == Some(write_status),
            describes(cmd, read_command_spec(old(self).bus, old(self).address)),
            final(self).issued@ == old(self).issued@.push(
                read_command_spec(old(self).bus, old(self).address),
            ),
    {
        let mut descriptor = descriptor;
        descriptor.rebind_for_single_read(self.address);
        self.write_status = Some(write_status);
        self.phase = ReadPhase::ReadPending;
        proof {
            self.issued@ = self.issued@.push(read_command_spec(self.bus, self.address));
            assert(self.issued@ =~= seq![
                write_command_spec(self.bus, self.address, self.register),
                read_command_spec(self.bus, self.address),
            ]);
        }
        BusCommand {
            bus: self.bus,
            op: BusOp::Read,
            descriptor,
            timeout: TRANSACTION_TIMEOUT,
            stop: true,
        }
    }

    /// Interpret the read phase from its status and the descriptor the bus
    /// filled. The address-NACK status means the device is absent: no value
    /// is reported, whatever the write phase said. Any other status — zero
    /// or a transport fault — reports the byte now in the buffer: this tool
    /// favors visibility over strict error rejection.
    pub fn finish_read(&mut self, read_status: i32, descriptor: &TransactionDescriptor) -> (r: Option<u8>)
        requires
            old(self).wf(),
            old(self).phase == ReadPhase::ReadPending,
            descriptor.wf(),
            descriptor.len == 1,
        ensures
            final(self).wf(),
            final(self).phase == ReadPhase::Complete,
            final(self).bus == old(self).bus,
            final(self).address == old(self).address,
            final(self).register == old(self).register,
            final(self).write_status == old(self).write_status,
            final(self).issued@ == old(self).issued@,
            read_status == STATUS_ADDR_NACK ==> r is None,
            read_status != STATUS_ADDR_NACK ==> r == Some(descriptor.buffer@[0]),
    {
        self.phase = ReadPhase::Complete;
        if read_status == STATUS_ADDR_NACK {
            None
        } else {
            Some(descriptor.buffer[0])
        }
    }
}

/// A completed register read issued exactly one write command followed by
/// exactly one read command, in that order: the write carries the register
/// index with the stop flag clear (bus held for a repeated start), the read
/// carries one placeholder byte with the stop flag set (bus released).
pub proof fn lemma_register_read_protocol(s: RegisterReadSession)
    requires
        s.wf(),
        s.phase == ReadPhase::Complete,
    ensures
        s.issued@.len() == 2,
        s.issued@[0] == write_command_spec(s.bus, s.address, s.register),
        s.issued@[1] == read_command_spec(s.bus, s.address),
        s.issued@[0].op == BusOp::Write,
        !s.issued@[0].stop,
        s.issued@[1].op == BusOp::Read,
        s.issued@[1].stop,
{
}

} // verus!
