//! Scanner behavior against simulated buses.

use bus_probe::bus::{STATUS_ADDR_NACK, STATUS_SUCCESS, TRANSACTION_TIMEOUT};
use bus_probe::scanner::{scan_outcome, ProbeRequest, ScanFinding, Scanner};

/// Probe statuses for a bus where exactly the given addresses acknowledge
/// with the given status; everything else NACKs.
fn bus_statuses(responders: &[(u8, i32)]) -> Vec<i32> {
    let mut statuses = vec![STATUS_ADDR_NACK; 128];
    for &(address, status) in responders {
        statuses[address as usize] = status;
    }
    statuses
}

/// Run a stepwise scan against the given statuses, collecting every probe
/// request the scanner asks for and every finding it reports.
fn run_scan(bus: u8, statuses: &[i32]) -> (Vec<ProbeRequest>, Vec<ScanFinding>) {
    let mut scanner = Scanner::new(bus);
    let mut requests = Vec::new();
    let mut findings = Vec::new();
    while let Some(request) = scanner.next_probe() {
        requests.push(request);
        if let Some(finding) = scanner.record_status(statuses[request.address as usize]) {
            findings.push(finding);
        }
    }
    assert!(scanner.is_done());
    (requests, findings)
}

#[test]
fn scanner_probes_stay_in_seven_bit_range() {
    let statuses = bus_statuses(&[]);
    let (requests, _) = run_scan(1, &statuses);
    assert_eq!(requests.len(), 128);
    for (i, request) in requests.iter().enumerate() {
        assert!(request.address <= 127);
        assert_eq!(request.address as usize, i);
        assert_eq!(request.bus, 1);
        assert_eq!(request.timeout, TRANSACTION_TIMEOUT);
    }
}

#[test]
fn scan_finds_exactly_acknowledging_addresses() {
    let statuses = bus_statuses(&[(0x18, STATUS_SUCCESS), (0x44, STATUS_SUCCESS)]);
    let (_, findings) = run_scan(1, &statuses);
    assert_eq!(
        findings,
        vec![
            ScanFinding { address: 0x18, status: STATUS_SUCCESS },
            ScanFinding { address: 0x44, status: STATUS_SUCCESS },
        ]
    );
}

#[test]
fn scan_reports_raw_status_for_diagnosis() {
    // A non-zero, non-NACK status (e.g. a timeout fault) still counts as a
    // response and is reported with its raw code.
    let statuses = bus_statuses(&[(0x2A, 3)]);
    let (_, findings) = run_scan(0, &statuses);
    assert_eq!(findings, vec![ScanFinding { address: 0x2A, status: 3 }]);
}

#[test]
fn scan_outcome_matches_stepwise_scan() {
    let statuses = bus_statuses(&[(0x15, STATUS_SUCCESS), (0x18, 3), (0x7F, STATUS_SUCCESS)]);
    let (_, stepwise) = run_scan(1, &statuses);
    let at_once = scan_outcome(1, &statuses);
    assert_eq!(at_once, stepwise);
}

#[test]
fn scanner_stops_after_full_sweep() {
    let statuses = bus_statuses(&[(0x00, STATUS_SUCCESS)]);
    let mut scanner = Scanner::new(1);
    let mut probes = 0usize;
    while let Some(request) = scanner.next_probe() {
        scanner.record_status(statuses[request.address as usize]);
        probes += 1;
    }
    assert_eq!(probes, 128);
    assert!(scanner.next_probe().is_none());
    assert!(scanner.is_done());
}
