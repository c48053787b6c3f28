//! Bus-probing and register-inspection core for a two-wire (I2C-style)
//! peripheral bus.
//!
//! The crate holds the protocol logic only: which transactions to issue,
//! in which order, and how to interpret their status codes. The actual
//! bus-transfer, GPIO and delay primitives are platform I/O; callers run
//! the machines defined here against their hardware, feeding each outcome
//! back in.

pub mod bus;
pub mod scanner;
pub mod reader;
pub mod resettor;
pub mod probe_loop;
