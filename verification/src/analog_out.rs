//! The analog outputs: PWM channels whose duty cycle, in percent, is the output value.
use vstd::prelude::*;

verus! {

/// The clock divider of the PWM slices.
pub const DIVIDER: u8 = 16;

/// The PWM configuration of an analog output: the counter's wrap value and the clock divider.
#[derive(Debug, PartialEq, Eq, Structural, Clone, Copy)]
pub struct PwmSettings {
    pub top: u16,
    pub divider: u8,
}

/// The inputs on which the configuration is defined: the divided frequency fits in 32 bits
/// and is not zero, and the period, taken modulo 2^16, is at least one count.
pub open spec fn configuration_defined(clock_freq_hz: u32, frequency_hz: u32) -> bool {
    &&& 0 < frequency_hz
    &&& frequency_hz * DIVIDER <= u32::MAX
    &&& (clock_freq_hz / (frequency_hz * DIVIDER) as u32) as u16 >= 1
}

/// The PWM configuration for an output of the given frequency, on a system clock of
/// `clock_freq_hz`: the counter wraps after `clock / (frequency * 16)` counts, taken as a
/// 16-bit number.
pub fn configuation(clock_freq_hz: u32, frequency_hz: u32) -> (settings: PwmSettings)
    requires
        configuration_defined(clock_freq_hz, frequency_hz),
    ensures
        settings.divider == DIVIDER,
        settings.top == ((clock_freq_hz / (frequency_hz * DIVIDER) as u32) as u16 - 1) as u16,
{
    let divider: u8 = 16;
    let period = (clock_freq_hz / (frequency_hz * divider as u32)) as u16 - 1;
    PwmSettings { top: period, divider }
}

/// How a PWM channel is driven.
#[derive(Debug, PartialEq, Eq, Structural, Clone, Copy)]
pub enum DutyCycle {
    /// Fully off.
    FullyOff,
    /// On for this percentage of the time, from 1 to 100.
    Percent(u8),
}

/// An analog output: its pin and its duty cycle in percent.
#[derive(Debug, PartialEq, Eq, Structural, Clone, Copy)]
pub struct Output {
    pub pin: u8,
    pub duty_cycle: u8,
}

/// A value clamped to the range of a percentage.
pub open spec fn percentage(value: u8) -> u8 {
    if value > 100 {
        100
    } else {
        value
    }
}

impl Output {
    /// An output that is off.
    pub fn new(pin: u8) -> (output: Output)
        ensures
            output == (Output { pin, duty_cycle: 0 }),
    {
        Output { pin, duty_cycle: 0 }
    }

    /// Sets the duty cycle, clamped to 0..=100, and returns how to drive the channel.
    pub fn set_duty_cycle(&mut self, value: u8) -> (drive: DutyCycle)
        ensures
            final(self).pin == old(self).pin,
            final(self).duty_cycle == percentage(value),
            drive == (if percentage(value) == 0 {
                DutyCycle::FullyOff
            } else {
                DutyCycle::Percent(percentage(value))
            }),
    {
        self.duty_cycle = if value > 100 {
            100
        } else {
            value
        };
        if self.duty_cycle == 0 {
            DutyCycle::FullyOff
        } else {
            DutyCycle::Percent(self.duty_cycle)
        }
    }
}

/// The first index in `pins` whose pin is `pin`.
pub open spec fn first_pin<T>(pins: Seq<(u8, T)>, pin: u8) -> Option<int>
    decreases pins.len(),
{
    if pins.len() == 0 {
        None
    } else if pins[0].0 == pin {
        Some(0)
    } else {
        match first_pin(pins.drop_first(), pin) {
            Some(i) => Some(i + 1),
            None => None,
        }
    }
}

/// Finds the output of a pin: the index of the first entry with that pin.
pub fn get_output<T>(pin: u8, pins: &[(u8, T)]) -> (index: Option<usize>)
    ensures
        index is Some <==> first_pin(pins@, pin) is Some,
        index matches Some(i) ==> first_pin(pins@, pin) == Some(i as int) && i < pins@.len(),
{
    let mut i: usize = 0;
    assert(pins@.skip(0) =~= pins@);
    while i < pins.len()
        invariant
            0 <= i <= pins@.len(),
            first_pin(pins@, pin) == match first_pin(pins@.skip(i as int), pin) {
                Some(j) => Some(j + i),
                None => None,
            },
        decreases pins.len() - i,
    {
        assert(pins@.skip(i as int).drop_first() =~= pins@.skip(i + 1));
        if pins[i].0 == pin {
            return Some(i);
        }
        i = i + 1;
    }
    None
}

/// The report of the analog outputs: each output's pin and duty cycle, in order, as many as
/// a report holds.
pub fn send_duty_cycles(outputs: &[Output]) -> (pins: Vec<(u8, u8)>)
    ensures
        pins@.len() == if outputs@.len() < 8 {
            outputs@.len()
        } else {
            8
        },
        forall|i: int|
            0 <= i < pins@.len() ==> #[trigger] pins@[i] == (outputs@[i].pin, outputs@[i].duty_cycle),
{
    let mut pins: Vec<(u8, u8)> = Vec::new();
    let mut i: usize = 0;
    while i < outputs.len()
        invariant
            0 <= i <= outputs@.len(),
            pins@.len() == if i < 8 {
                i as int
            } else {
                8
            },
            forall|k: int|
                0 <= k < pins@.len() ==> #[trigger] pins@[k] == (
                    outputs@[k].pin,
                    outputs@[k].duty_cycle,
                ),
        decreases outputs.len() - i,
    {
        if pins.len() < 8 {
            pins.push((outputs[i].pin, outputs[i].duty_cycle));
        }
        i = i + 1;
    }
    pins
}

/// The output found for a pin is the first entry with that pin; when none is found, no entry
/// has it.
pub proof fn lemma_first_pin_is_first<T>(pins: Seq<(u8, T)>, pin: u8)
    ensures
        first_pin(pins, pin) matches Some(i) ==> {
            &&& 0 <= i < pins.len()
            &&& pins[i].0 == pin
            &&& forall|j: int| 0 <= j < i ==> (#[trigger] pins[j]).0 != pin
        },
        first_pin(pins, pin) is None ==> forall|j: int| 0 <= j < pins.len() ==> (#[trigger] pins[j]).0 != pin,
    decreases pins.len(),
{
    if pins.len() > 0 {
        let rest = pins.drop_first();
        lemma_first_pin_is_first(rest, pin);
        assert forall|j: int| 0 < j < pins.len() implies pins[j] == rest[j - 1] by {}
    }
}

/// A duty cycle is the value clamped to at most 100 percent: values up to 100 are kept,
/// larger ones become 100, and only 0 switches the channel fully off.
pub proof fn lemma_duty_cycle_is_clamped(value: u8)
    ensures
        value <= 100 ==> percentage(value) == value,
        value > 100 ==> percentage(value) == 100,
        percentage(value) <= 100,
        percentage(value) == 0 <==> value == 0,
{
}

} // verus!
