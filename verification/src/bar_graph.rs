//! The bar graph: eight LEDs behind an 8-bit shift register (a 74HC595) that show the
//! measurement of a selected pin, from 0 to 100, as a bar of 0 to 8 lit LEDs.
use vstd::prelude::*;
use crate::messages::NUM_PINS;

verus! {

/// The number of LEDs of the bar graph.
pub const NUM_LEDS: usize = 8;

/// The pin that a selection request selects: none when the pin is not a measured one.
pub fn selection(pin: u8) -> (selected: Option<u8>)
    ensures
        selected == (if pin < NUM_PINS {
            Some(pin)
        } else {
            None
        }),
{
    if pin as usize >= NUM_PINS {
        None
    } else {
        Some(pin)
    }
}

/// The value that the bar graph shows: the measurement of the selected pin, or 0 when no pin
/// is selected.
pub fn get_value(selection: &Option<u8>, measurements: &[u8]) -> (value: u8)
    requires
        selection matches Some(pin) ==> pin < measurements@.len(),
    ensures
        value == (match *selection {
            None => 0,
            Some(pin) => measurements@[pin as int],
        }),
{
    match selection {
        None => 0,
        Some(i) => measurements[*i as usize],
    }
}

/// The number of LEDs that a value lights: one per 12, which makes 8 at 96 and above.
pub open spec fn lit_leds(value: u8) -> int {
    if value / 12 < 8 {
        (value / 12) as int
    } else {
        8
    }
}

/// The bit pattern of a value: the lowest `value / 12` bits set.
pub fn bar_bits(value: u8) -> (bits: u32)
    ensures
        bits == ((1u32 << (value / 12) as u32) - 1) as u32,
        forall|i: u32| i < 8 ==> ((bits >> i) & 1 == 1 <==> i < value / 12),
{
    let shift: u32 = (value / 12) as u32;
    assert(shift <= 21);
    assert(1u32 << shift >= 1) by (bit_vector)
        requires
            shift <= 21,
    ;
    let bits = (1u32 << shift) - 1;
    assert forall|i: u32| i < 8 implies ((bits >> i) & 1 == 1 <==> i < shift) by {
        assert(((((1u32 << shift) - 1) as u32 >> i) & 1 == 1) <==> i < shift) by (bit_vector)
            requires
                shift <= 21,
                i < 8,
        ;
    }
    bits
}

/// The levels that are shifted into the register, lowest bit first: the first `lit_leds`
/// levels are high, the others low.
pub fn shift_value(value: u8) -> (levels: Vec<bool>)
    ensures
        levels@.len() == NUM_LEDS,
        forall|i: int| 0 <= i < NUM_LEDS ==> (levels@[i] <==> i < lit_leds(value)),
{
    let mut bits = bar_bits(value);
    let ghost pattern = bits;
    let mut levels: Vec<bool> = Vec::new();
    let mut i: u32 = 0;
    assert(pattern >> 0u32 == pattern) by (bit_vector);
    while i < 8
        invariant
            0 <= i <= 8,
            levels@.len() == i,
            bits == pattern >> i,
            forall|j: u32| j < 8 ==> ((pattern >> j) & 1 == 1 <==> j < value / 12),
            forall|j: int| 0 <= j < i ==> (levels@[j] <==> j < lit_leds(value)),
        decreases 8 - i,
    {
        let level = (bits & 1) == 1;
        assert(level <==> i < value / 12);
        levels.push(level);
        assert((pattern >> i) >> 1u32 == pattern >> ((i + 1) as u32)) by (bit_vector)
            requires
                i < 8,
        ;
        bits = bits >> 1;
        i = i + 1;
    }
    levels
}

/// The bar graph fills from the bottom: a lit LED has only lit LEDs below it, and a larger
/// value lights at least as many LEDs.
pub proof fn lemma_bar_fills_from_bottom(low: u8, high: u8)
    requires
        low <= high,
    ensures
        lit_leds(low) <= lit_leds(high),
        0 <= lit_leds(high) <= NUM_LEDS,
        high >= 96 ==> lit_leds(high) == NUM_LEDS,
        high < 12 ==> lit_leds(high) == 0,
{
}

/// The bar lights one LED for every full 12 percent of the value, up to all eight.
pub proof fn lemma_one_led_per_twelve_percent(value: u8)
    ensures
        value < 96 ==> lit_leds(value) * 12 <= value < (lit_leds(value) + 1) * 12,
        value >= 96 ==> lit_leds(value) == 8,
{
}

} // verus!
