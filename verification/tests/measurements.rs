use pico::measurements::{record, set_analog, set_digital};

#[test]
fn analog_reports_keep_measured_pins() {
    assert_eq!(set_analog(&[(26, 40), (40, 1), (27, 99)]).as_slice(), &[(26, 40), (27, 99)]);
    assert!(set_analog(&[]).as_slice().is_empty());
}

#[test]
fn digital_reports_become_percentages() {
    assert_eq!(set_digital(&[(18, true), (19, false), (32, true)]).as_slice(), &[(18, 100), (19, 0)]);
}

#[test]
fn record_reports_changes() {
    let mut measurements = [0u8; 32];
    assert!(record(&mut measurements, &[(3, 7), (4, 0)]));
    assert_eq!(measurements[3], 7);
    assert!(!record(&mut measurements, &[(3, 7), (4, 0)]));
    assert!(record(&mut measurements, &[(3, 9), (3, 7)]));
    assert_eq!(measurements[3], 7);
    assert!(!record(&mut measurements, &[]));
}

#[test]
fn a_report_of_every_pin_fills_the_message() {
    let pins: Vec<(u8, u8)> = (0..32).map(|pin| (pin, pin)).collect();
    let updates = set_analog(&pins);
    assert_eq!(updates.as_slice().len(), 32);
    assert_eq!(updates.as_slice()[31], (31, 31));
}
