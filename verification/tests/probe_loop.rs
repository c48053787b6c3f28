//! Probe Loop behavior end to end against a simulated bus and device.

use bus_probe::bus::{BusCommand, BusOp, STATUS_ADDR_NACK, STATUS_SUCCESS};
use bus_probe::probe_loop::{ProbeAction, ProbeConfig, ProbeLoop, RegisterReading};
use bus_probe::resettor::ResetAction;

/// A simulated device: it acknowledges exactly one address, answers reads
/// from a register map (unknown registers read as zero), and keeps an
/// auto-style register pointer set by the last write.
struct SimDevice {
    address: u8,
    registers: Vec<(u8, u8)>,
    pointer: u8,
}

impl SimDevice {
    fn new(address: u8, registers: &[(u8, u8)]) -> SimDevice {
        SimDevice { address, registers: registers.to_vec(), pointer: 0 }
    }

    fn value_at_pointer(&self) -> u8 {
        self.registers
            .iter()
            .find(|&&(register, _)| register == self.pointer)
            .map(|&(_, value)| value)
            .unwrap_or(0)
    }

    /// Perform one bus command; returns the status and, for reads, the byte
    /// transferred into the descriptor's buffer.
    fn transact(&mut self, command: &BusCommand) -> (i32, u8) {
        if command.descriptor.address != self.address {
            return (STATUS_ADDR_NACK, 0);
        }
        match command.op {
            BusOp::Write => {
                self.pointer = command.descriptor.buffer[0];
                (STATUS_SUCCESS, 0)
            }
            BusOp::Read => (STATUS_SUCCESS, self.value_at_pointer()),
        }
    }
}

/// Everything one driven run produced, for the assertions below.
struct RunLog {
    probe_loop: ProbeLoop,
    reset_actions: Vec<ResetAction>,
    bus_commands: Vec<(BusOp, u8, Vec<u8>, bool)>,
    reported: Vec<RegisterReading>,
    sweep_markers: usize,
}

/// Drive a probe loop to quiescence against the simulated device,
/// optionally failing the low pin drive.
fn run_probe_loop(config: ProbeConfig, device: &mut SimDevice, fail_low_drive: bool) -> RunLog {
    let mut probe_loop = ProbeLoop::new(config);
    let mut log = RunLog {
        probe_loop: ProbeLoop::new(ProbeConfig::reference(0)),
        reset_actions: Vec::new(),
        bus_commands: Vec::new(),
        reported: Vec::new(),
        sweep_markers: 0,
    };
    loop {
        match probe_loop.next_action() {
            None => break,
            Some(ProbeAction::Reset(action)) => {
                log.reset_actions.push(action);
                match action {
                    ResetAction::DriveLow { .. } => {
                        probe_loop.complete_reset_drive(!fail_low_drive)
                    }
                    ResetAction::DriveHigh { .. } => probe_loop.complete_reset_drive(true),
                    ResetAction::Delay { .. } => probe_loop.complete_reset_delay(),
                }
            }
            Some(ProbeAction::Bus(command)) => {
                log.bus_commands.push((
                    command.op,
                    command.descriptor.address,
                    command.descriptor.buffer.clone(),
                    command.stop,
                ));
                let (status, data) = device.transact(&command);
                match command.op {
                    BusOp::Write => probe_loop.complete_write(status),
                    BusOp::Read => {
                        if let Some(reading) = probe_loop.complete_read(status, data) {
                            log.reported.push(reading);
                        }
                    }
                }
            }
            Some(ProbeAction::ReportSweepDone) => {
                log.sweep_markers += 1;
                probe_loop.complete_sweep_marker();
            }
        }
    }
    log.probe_loop = probe_loop;
    log
}

fn small_config(repetitions: usize, addresses: &[u8], registers: &[u8]) -> ProbeConfig {
    ProbeConfig {
        bus: 1,
        reset_pin: 10,
        settle_low_ms: 20,
        settle_high_ms: 400,
        repetitions,
        addresses: addresses.to_vec(),
        registers: registers.to_vec(),
    }
}

#[test]
fn probe_loop_end_to_end_single_sweep() {
    let mut device = SimDevice::new(0x15, &[(0x00, 0x00), (0x01, 0x05), (0xA3, 0x00)]);
    let config = small_config(1, &[0x15], &[0x00, 0x01, 0xA3]);
    let log = run_probe_loop(config, &mut device, false);
    assert!(log.probe_loop.is_done());
    assert_eq!(
        log.reported,
        vec![
            RegisterReading { address: 0x15, register: 0x00, value: 0x00 },
            RegisterReading { address: 0x15, register: 0x01, value: 0x05 },
            RegisterReading { address: 0x15, register: 0xA3, value: 0x00 },
        ]
    );
    assert_eq!(log.probe_loop.results, log.reported);
    assert_eq!(log.sweep_markers, 1);
}

#[test]
fn probe_loop_resets_before_probing() {
    let mut device = SimDevice::new(0x15, &[(0x00, 0x11)]);
    let config = small_config(1, &[0x15], &[0x00]);
    let log = run_probe_loop(config, &mut device, false);
    assert_eq!(
        log.reset_actions,
        vec![
            ResetAction::DriveLow { pin: 10 },
            ResetAction::Delay { ms: 20 },
            ResetAction::DriveHigh { pin: 10 },
            ResetAction::Delay { ms: 400 },
        ]
    );
    assert_eq!(log.reported, vec![RegisterReading { address: 0x15, register: 0x00, value: 0x11 }]);
}

#[test]
fn probe_loop_reset_fault_is_fatal() {
    let mut device = SimDevice::new(0x15, &[(0x00, 0x11)]);
    let config = small_config(1, &[0x15], &[0x00]);
    let log = run_probe_loop(config, &mut device, true);
    assert!(log.probe_loop.is_aborted());
    assert!(!log.probe_loop.is_done());
    // The failed low drive was the only thing attempted: no high drive, no
    // delay, no bus transaction, no reading, no sweep marker.
    assert_eq!(log.reset_actions, vec![ResetAction::DriveLow { pin: 10 }]);
    assert_eq!(log.bus_commands, vec![]);
    assert_eq!(log.reported, vec![]);
    assert_eq!(log.sweep_markers, 0);
}

#[test]
fn probe_loop_issues_write_then_read_per_cell() {
    let mut device = SimDevice::new(0x15, &[(0x01, 0x05)]);
    let config = small_config(1, &[0x15], &[0x00, 0x01]);
    let log = run_probe_loop(config, &mut device, false);
    assert_eq!(
        log.bus_commands,
        vec![
            (BusOp::Write, 0x15, vec![0x00], false),
            (BusOp::Read, 0x15, vec![0x00], true),
            (BusOp::Write, 0x15, vec![0x01], false),
            (BusOp::Read, 0x15, vec![0x00], true),
        ]
    );
}

#[test]
fn probe_loop_skips_absent_addresses() {
    // The device lives at 0x44; probing 0x15 NACKs everywhere, so nothing
    // is reported, but the sweeps still run to completion.
    let mut device = SimDevice::new(0x44, &[(0x00, 0x21)]);
    let config = small_config(3, &[0x15], &[0x00, 0x01]);
    let log = run_probe_loop(config, &mut device, false);
    assert!(log.probe_loop.is_done());
    assert_eq!(log.reported, vec![]);
    assert_eq!(log.sweep_markers, 3);
}

#[test]
fn probe_loop_sweeps_repeat_in_order() {
    let mut device = SimDevice::new(0x15, &[(0x00, 0x01), (0x01, 0x02)]);
    let config = small_config(2, &[0x15], &[0x00, 0x01]);
    let log = run_probe_loop(config, &mut device, false);
    let sweep = vec![
        RegisterReading { address: 0x15, register: 0x00, value: 0x01 },
        RegisterReading { address: 0x15, register: 0x01, value: 0x02 },
    ];
    let expected: Vec<RegisterReading> = sweep.iter().chain(sweep.iter()).cloned().collect();
    assert_eq!(log.reported, expected);
    assert_eq!(log.sweep_markers, 2);
}

#[test]
fn reference_config_matches_bring_up_values() {
    let config = ProbeConfig::reference(1);
    assert_eq!(config.bus, 1);
    assert_eq!(config.reset_pin, 10);
    assert_eq!(config.settle_low_ms, 20);
    assert_eq!(config.settle_high_ms, 400);
    assert_eq!(config.repetitions, 20);
    assert_eq!(config.addresses, vec![0x15]);
    assert_eq!(config.registers, vec![0x00, 0x01, 0xA3, 0x9F, 0x8F, 0xA6, 0xA8]);
}
