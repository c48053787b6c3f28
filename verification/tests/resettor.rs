//! Device Resettor behavior: ordering of the reset sequence and fault
//! handling.

use bus_probe::resettor::{ResetAction, Resettor};

/// Drive a resettor to quiescence, performing every asked-for action and
/// failing the pin drives whose index (counting drives only) is in
/// `failing_drives`. Returns the actions that were actually performed.
fn run_reset(mut resettor: Resettor, failing_drives: &[usize]) -> (Resettor, Vec<ResetAction>) {
    let mut performed = Vec::new();
    let mut drive_index = 0usize;
    while let Some(action) = resettor.next_action() {
        match action {
            ResetAction::DriveLow { .. } | ResetAction::DriveHigh { .. } => {
                let ok = !failing_drives.contains(&drive_index);
                drive_index += 1;
                if ok {
                    performed.push(action);
                }
                resettor.complete_drive(ok);
            }
            ResetAction::Delay { .. } => {
                performed.push(action);
                resettor.complete_delay();
            }
        }
    }
    (resettor, performed)
}

#[test]
fn reset_performs_low_delay_high_delay_in_order() {
    let (resettor, performed) = run_reset(Resettor::new(10, 20, 400), &[]);
    assert!(resettor.is_done());
    assert!(!resettor.is_failed());
    assert_eq!(
        performed,
        vec![
            ResetAction::DriveLow { pin: 10 },
            ResetAction::Delay { ms: 20 },
            ResetAction::DriveHigh { pin: 10 },
            ResetAction::Delay { ms: 400 },
        ]
    );
}

#[test]
fn reset_low_fault_prevents_high_drive_and_delays() {
    // The first drive (the low pulse) fails: nothing further happens and
    // the failure is reported as fatal.
    let (mut resettor, performed) = run_reset(Resettor::new(10, 20, 400), &[0]);
    assert!(resettor.is_failed());
    assert!(!resettor.is_done());
    assert_eq!(performed, vec![]);
    assert!(resettor.next_action().is_none());
}

#[test]
fn reset_high_fault_aborts_after_low_pulse() {
    let (mut resettor, performed) = run_reset(Resettor::new(10, 20, 400), &[1]);
    assert!(resettor.is_failed());
    assert_eq!(
        performed,
        vec![ResetAction::DriveLow { pin: 10 }, ResetAction::Delay { ms: 20 }]
    );
    assert!(resettor.next_action().is_none());
}
