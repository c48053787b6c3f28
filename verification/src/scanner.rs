//! Bus Scanner: sweeps the 7-bit address space with zero-length write
//! probes and reports every address that does not NACK, together with the
//! raw status for diagnostic value.
//!
//! The scanner never touches the bus itself: [`Scanner::next_probe`] says
//! which probe to issue next, and the caller feeds the resulting status
//! back through [`Scanner::record_status`].

use vstd::prelude::*;
use crate::bus::{STATUS_ADDR_NACK, TRANSACTION_TIMEOUT, MAX_DEVICE_ADDRESS};

verus! {

/// A zero-length write probe for the platform's bus primitive to issue:
/// only the address-acknowledge phase matters for detection.
#[derive(Clone, Copy, Debug, PartialEq, Eq, Structural)]
pub struct ProbeRequest {
    pub bus: u8,
    pub address: u8,
    pub timeout: u32,
}

/// A responding address together with the raw status the probe returned
/// (zero, or a non-NACK fault code worth investigating).
#[derive(Clone, Copy, Debug, PartialEq, Eq, Structural)]
pub struct ScanFinding {
    pub address: u8,
    pub status: i32,
}

/// The findings a scan derives from the probe statuses seen so far:
/// address `i` paired with `statuses[i]`, kept exactly when that status is
/// not the address-NACK code.
pub open spec fn findings_of(statuses: Seq<i32>) -> Seq<ScanFinding>
    decreases statuses.len(),
{
    if statuses.len() == 0 {
        seq![]
    } else if statuses.last() != STATUS_ADDR_NACK {
        findings_of(statuses.drop_last()).push(
            ScanFinding { address: (statuses.len() - 1) as u8, status: statuses.last() },
        )
    } else {
        findings_of(statuses.drop_last())
    }
}

/// Sweeps addresses 0 through 127 in order, one probe per address, and
/// accumulates the findings. A scan is finite (128 probes) and not
/// restartable: a fresh sweep needs a fresh `Scanner`.
pub struct Scanner {
    pub bus: u8,
    /// The next address to probe; 128 once the sweep is complete.
    pub next_address: u8,
    /// Findings so far, in ascending address order.
    pub findings: Vec<ScanFinding>,
    /// Statuses recorded so far, one per probed address, oldest first.
    pub statuses: Ghost<Seq<i32>>,
}

impl Scanner {
    /// One status has been recorded per address already probed, and the
    /// findings are exactly those the recorded statuses call for.
    pub open spec fn wf(self) -> bool {
        &&& self.next_address <= 128
        &&& self.statuses@.len() == self.next_address as int
        &&& self.findings@ == findings_of(self.statuses@)
    }

    /// Start a sweep of the given bus at address 0.
    pub fn new(bus: u8) -> (s: Scanner)
        ensures
            s.wf(),
            s.bus == bus,
            s.next_address == 0,
            s.findings@ == Seq::<ScanFinding>::empty(),
            s.statuses@ == Seq::<i32>::empty(),
    {
        Scanner { bus, next_address: 0, findings: Vec::new(), statuses: Ghost(Seq::empty()) }
    }

    /// The next probe to issue, or `None` once all 128 addresses are done.
    /// Every request stays within the 7-bit address space: the scanner
    /// never asks for a transaction outside 0..=127.
    pub fn next_probe(&self) -> (r: Option<ProbeRequest>)
        requires
            self.wf(),
        ensures
            r is Some <==> self.next_address < 128,
            r matches Some(p) ==> p == (ProbeRequest {
                bus: self.bus,
                address: self.next_address,
                timeout: TRANSACTION_TIMEOUT,
            }),
            r matches Some(p) ==> p.address <= MAX_DEVICE_ADDRESS,
    {
        if self.next_address < 128 {
            Some(ProbeRequest { bus: self.bus, address: self.next_address, timeout: TRANSACTION_TIMEOUT })
        } else {
            None
        }
    }

    /// Record the status the probe of `next_address` returned. A non-NACK
    /// status adds a finding (returned for immediate reporting); a NACK is
    /// silently skipped.
    pub fn record_status(&mut self, status: i32) -> (found: Option<ScanFinding>)
        requires
            old(self).wf(),
            old(self).next_address < 128,
        ensures
            final(self).wf(),
            final(self).bus == old(self).bus,
            final(self).next_address == old(self).next_address + 1,
            final(self).statuses@ == old(self).statuses@.push(status),
            status == STATUS_ADDR_NACK ==> {
                &&& found is None
                &&& final(self).findings@ == old(self).findings@
            },
            status != STATUS_ADDR_NACK ==> {
                &&& found == Some(ScanFinding { address: old(self).next_address, status })
                &&& final(self).findings@ == old(self).findings@.push(
                    ScanFinding { address: old(self).next_address, status },
                )
            },
    {
        let address = self.next_address;
        self.next_address = address + 1;
        proof {
            self.statuses@ = self.statuses@.push(status);
            assert(self.statuses@.drop_last() =~= old(self).statuses@);
        }
        if status != STATUS_ADDR_NACK {
            let finding = ScanFinding { address, status };
            self.findings.push(finding);
            Some(finding)
        } else {
            None
        }
    }

    /// Whether the sweep has probed all 128 addresses.
    pub fn is_done(&self) -> (r: bool)
        ensures
            r <==> self.next_address == 128,
    {
        self.next_address == 128
    }
}

/// Derive a full sweep's findings from its 128 probe statuses at once:
/// `statuses[i]` is what the probe of address `i` returned. The result is
/// exactly what a stepwise [`Scanner`] accumulates over the same statuses.
pub fn scan_outcome(bus: u8, statuses: &Vec<i32>) -> (r: Vec<ScanFinding>)
    requires
        statuses@.len() == 128,
    ensures
        r@ == findings_of(statuses@),
{
    let mut scanner = Scanner::new(bus);
    let mut i: usize = 0;
    proof {
        assert(scanner.statuses@ =~= statuses@.take(0));
    }
    while i < 128
        invariant
            scanner.wf(),
            scanner.next_address == i,
            i <= 128,
            statuses@.len() == 128,
            scanner.statuses@ == statuses@.take(i as int),
        decreases 128 - i,
    {
        let _ = scanner.record_status(statuses[i]);
        i = i + 1;
        proof {
            assert(scanner.statuses@ =~= statuses@.take(i as int));
        }
    }
    proof {
        assert(statuses@.take(128) =~= statuses@);
    }
    scanner.findings
}

/// Every finding of a scan is faithful: its address was probed, its status
/// is exactly the status that address returned, and that status is not the
/// address-NACK code.
pub proof fn lemma_scan_findings_faithful(statuses: Seq<i32>, j: int)
    requires
        statuses.len() <= 128,
        0 <= j < findings_of(statuses).len(),
    ensures
        findings_of(statuses)[j].address < statuses.len(),
        findings_of(statuses)[j].status == statuses[findings_of(statuses)[j].address as int],
        findings_of(statuses)[j].status != STATUS_ADDR_NACK,
    decreases statuses.len(),
{
    if statuses.len() > 0 {
        if j < findings_of(statuses.drop_last()).len() {
            lemma_scan_findings_faithful(statuses.drop_last(), j);
        }
    }
}

/// A scan reports an address if and only if its probe status was not the
/// address-NACK code: acknowledging addresses are reported, all others are
/// skipped.
pub proof fn lemma_scan_reports_exactly_acknowledged(statuses: Seq<i32>, addr: int)
    requires
        statuses.len() <= 128,
        0 <= addr < statuses.len(),
    ensures
        (exists|j: int|
            0 <= j < findings_of(statuses).len() && findings_of(statuses)[j].address == addr)
            <==> statuses[addr] != STATUS_ADDR_NACK,
    decreases statuses.len(),
{
    let fs = findings_of(statuses);
    if addr == statuses.len() - 1 {
        if statuses[addr] != STATUS_ADDR_NACK {
            assert(fs[fs.len() - 1].address == addr);
        } else {
            assert forall|j: int| 0 <= j < fs.len() implies fs[j].address != addr by {
                lemma_scan_findings_faithful(statuses, j);
            }
        }
    } else {
        lemma_scan_reports_exactly_acknowledged(statuses.drop_last(), addr);
        let prev = findings_of(statuses.drop_last());
        if statuses[addr] != STATUS_ADDR_NACK {
            assert(statuses.drop_last()[addr] != STATUS_ADDR_NACK);
            let j = choose|j: int| 0 <= j < prev.len() && prev[j].address == addr;
            assert(fs[j].address == addr);
        } else {
            assert forall|j: int| 0 <= j < fs.len() implies fs[j].address != addr by {
                lemma_scan_findings_faithful(statuses, j);
            }
        }
    }
}

} // verus!
