use pico::bar_graph::{bar_bits, get_value, selection, shift_value};

#[test]
fn bar_bits_follow_the_documented_pattern() {
    assert_eq!(bar_bits(0), 0b0000_0000);
    assert_eq!(bar_bits(12), 0b0000_0001);
    assert_eq!(bar_bits(24), 0b0000_0011);
    assert_eq!(bar_bits(36), 0b0000_0111);
    assert_eq!(bar_bits(96), 0b1111_1111);
    assert_eq!(bar_bits(100), 0b1111_1111);
    assert_eq!(bar_bits(255), (1 << 21) - 1);
}

#[test]
fn levels_fill_from_the_bottom() {
    assert_eq!(shift_value(0), vec![false; 8]);
    assert_eq!(shift_value(50), vec![true, true, true, true, false, false, false, false]);
    assert_eq!(shift_value(255), vec![true; 8]);
}

#[test]
fn selection_and_value() {
    assert_eq!(selection(31), Some(31));
    assert_eq!(selection(32), None);
    let mut measurements = [0u8; 32];
    measurements[5] = 66;
    assert_eq!(get_value(&None, &measurements), 0);
    assert_eq!(get_value(&Some(5), &measurements), 66);
}
