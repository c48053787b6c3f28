//! Shared bus-transaction vocabulary: status codes, the owned transaction
//! descriptor, and the commands that the protocol machines hand to the
//! platform's bus-transfer primitive.

use vstd::prelude::*;

verus! {

/// Status code of a transaction that completed successfully.
pub const STATUS_SUCCESS: i32 = 0;

/// Status code meaning the addressed device did not acknowledge (device
/// absent). Mirrors the platform HAL's address-NACK code; every other
/// non-zero code is a transport or timeout fault.
pub const STATUS_ADDR_NACK: i32 = 4;

/// Timeout, in bus time units, applied to every transaction the core issues.
pub const TRANSACTION_TIMEOUT: u32 = 1000;

/// Highest valid 7-bit device address; probing sweeps 0 through 127.
pub const MAX_DEVICE_ADDRESS: u8 = 127;

/// Describes one bus exchange: the target device address, the byte count,
/// and the transmit/receive buffer. Owned by the transaction in flight;
/// its recorded length must always equal the buffer's actual length.
pub struct TransactionDescriptor {
    pub address: u8,
    pub len: u16,
    pub buffer: Vec<u8>,
}

impl TransactionDescriptor {
    /// The recorded length agrees with the buffer it describes.
    pub open spec fn wf(self) -> bool {
        self.len as int == self.buffer@.len()
    }

    /// Descriptor for the write phase of a register read: a single byte
    /// holding the register index to address.
    pub fn for_register_write(address: u8, register: u8) -> (d: TransactionDescriptor)
        ensures
            d.wf(),
            d.address == address,
            d.len == 1,
            d.buffer@ =~= seq![register],
    {
        let mut buffer: Vec<u8> = Vec::new();
        buffer.push(register);
        TransactionDescriptor { address, len: 1, buffer }
    }

    /// Descriptor for a single-byte read: one placeholder byte that the bus
    /// transfer overwrites with the device's data.
    pub fn for_single_read(address: u8) -> (d: TransactionDescriptor)
        ensures
            d.wf(),
            d.address == address,
            d.len == 1,
            d.buffer@ =~= seq![0u8],
    {
        let mut buffer: Vec<u8> = Vec::new();
        buffer.push(0);
        TransactionDescriptor { address, len: 1, buffer }
    }

    /// Repopulate a descriptor that carried a write phase so it can carry
    /// the following single-byte read: address rebound, buffer reset to one
    /// placeholder byte. Every field is set afresh; nothing of the previous
    /// transaction's payload survives.
    pub fn rebind_for_single_read(&mut self, address: u8)
        ensures
            final(self).wf(),
            final(self).address == address,
            final(self).len == 1,
            final(self).buffer@ =~= seq![0u8],
    {
        self.address = address;
        self.buffer.clear();
        self.buffer.push(0);
        self.len = 1;
    }
}

/// Direction of a bus transaction.
#[derive(Clone, Copy, Debug, PartialEq, Eq, Structural)]
pub enum BusOp {
    /// Master write: send the descriptor's buffer to the device.
    Write,
    /// Master read: fill the descriptor's buffer from the device.
    Read,
}

/// One transaction for the platform's bus-transfer primitive to perform:
/// which bus, which direction, the descriptor, the timeout, and whether to
/// release the bus afterwards (`stop`) or hold it for the next phase.
pub struct BusCommand {
    pub bus: u8,
    pub op: BusOp,
    pub descriptor: TransactionDescriptor,
    pub timeout: u32,
    pub stop: bool,
}

/// Ghost-level description of a bus command, used to state which commands a
/// protocol machine has issued.
pub struct CommandSpec {
    pub bus: u8,
    pub op: BusOp,
    pub address: u8,
    pub payload: Seq<u8>,
    pub timeout: u32,
    pub stop: bool,
}

/// The write phase of a register read: send the register index, keep the
/// bus (repeated start) so the device stays addressed for the read.
pub open spec fn write_command_spec(bus: u8, address: u8, register: u8) -> CommandSpec {
    CommandSpec {
        bus,
        op: BusOp::Write,
        address,
        payload: seq![register],
        timeout: TRANSACTION_TIMEOUT,
        stop: false,
    }
}

/// The read phase of a register read: fetch one data byte, then release the
/// bus.
pub open spec fn read_command_spec(bus: u8, address: u8) -> CommandSpec {
    CommandSpec {
        bus,
        op: BusOp::Read,
        address,
        payload: seq![0u8],
        timeout: TRANSACTION_TIMEOUT,
        stop: true,
    }
}

/// An executable command matches its ghost description exactly.
pub open spec fn describes(cmd: BusCommand, s: CommandSpec) -> bool {
    &&& cmd.bus == s.bus
    &&& cmd.op == s.op
    &&& cmd.descriptor.wf()
    &&& cmd.descriptor.address == s.address
    &&& cmd.descriptor.buffer@ == s.payload
    &&& cmd.timeout == s.timeout
    &&& cmd.stop == s.stop
}

} // verus!
