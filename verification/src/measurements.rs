//! The measurements: the last value seen on each pin, which the display and the controller
//! read. Inputs and outputs report their pins; a report changes the measurements only where
//! a value changed.
use vstd::prelude::*;
use crate::messages::{Measurements, MAX_NUM_MEASUREMENTS};

verus! {

/// The update message of a report: pins and their new measurements, held in a
/// `heapless::Vec<(u8, u8), 32>`, one entry per measured pin at most.
#[verifier::external_body]
#[derive(Debug)]
pub struct Updates {
    updates: heapless::Vec<(u8, u8), 32>,
}

/// The updates that a message holds, in order.
pub uninterp spec fn updates_of(updates: Updates) -> Seq<(u8, u8)>;

impl Updates {
    /// `heapless::Vec::<(u8, u8), 32>::new`: no updates.
    #[verifier::external_body]
    fn new() -> (updates: Updates)
        ensures
            updates_of(updates) == Seq::<(u8, u8)>::empty(),
    {
        Updates { updates: heapless::Vec::new() }
    }

    /// `heapless::Vec::<(u8, u8), 32>::push`: appends the update when fewer than 32 are held,
    /// and hands it back otherwise.
    #[verifier::external_body]
    fn push(&mut self, update: (u8, u8)) -> (result: Result<(), (u8, u8)>)
        ensures
            updates_of(*old(self)).len() < MAX_NUM_MEASUREMENTS ==> {
                &&& result is Ok
                &&& updates_of(*final(self)) == updates_of(*old(self)).push(update)
            },
            updates_of(*old(self)).len() >= MAX_NUM_MEASUREMENTS ==> {
                &&& result == Err::<(), (u8, u8)>(update)
                &&& updates_of(*final(self)) == updates_of(*old(self))
            },
    {
        self.updates.push(update)
    }

    /// `heapless::Vec::<(u8, u8), 32>::as_slice`: the updates, in order.
    #[verifier::external_body]
    pub fn as_slice(&self) -> (updates: &[(u8, u8)])
        ensures
            updates@ == updates_of(*self),
    {
        self.updates.as_slice()
    }
}

/// The measurement that a digital level stands for: 100 when on, 0 when off.
pub open spec fn digital_measurement(level: bool) -> u8 {
    if level {
        100
    } else {
        0
    }
}

/// The updates that a report of analog pins makes: the pins that are measured, with their
/// values, in order.
pub open spec fn analog_updates(pins: Seq<(u8, u8)>) -> Seq<(u8, u8)>
    decreases pins.len(),
{
    if pins.len() == 0 {
        Seq::empty()
    } else {
        let rest = analog_updates(pins.drop_last());
        if pins.last().0 < MAX_NUM_MEASUREMENTS {
            rest.push(pins.last())
        } else {
            rest
        }
    }
}

/// The updates that a report of digital pins makes: the pins that are measured, with 100 for
/// a pin that is on and 0 for one that is off, in order.
pub open spec fn digital_updates(pins: Seq<(u8, bool)>) -> Seq<(u8, u8)>
    decreases pins.len(),
{
    if pins.len() == 0 {
        Seq::empty()
    } else {
        let rest = digital_updates(pins.drop_last());
        if pins.last().0 < MAX_NUM_MEASUREMENTS {
            rest.push((pins.last().0, digital_measurement(pins.last().1)))
        } else {
            rest
        }
    }
}

/// The measurements after the updates, applied in order: a later update of a pin wins.
pub open spec fn updated(measurements: Seq<u8>, updates: Seq<(u8, u8)>) -> Seq<u8>
    decreases updates.len(),
{
    if updates.len() == 0 {
        measurements
    } else {
        updated(measurements, updates.drop_last()).update(
            updates.last().0 as int,
            updates.last().1,
        )
    }
}

/// Whether every update names a measured pin.
pub open spec fn updates_measured(updates: Seq<(u8, u8)>) -> bool {
    forall|i: int| 0 <= i < updates.len() ==> (#[trigger] updates[i]).0 < MAX_NUM_MEASUREMENTS
}

proof fn lemma_analog_updates_grow(pins: Seq<(u8, u8)>, i: int)
    requires
        0 <= i < pins.len(),
        pins[i].0 < MAX_NUM_MEASUREMENTS,
    ensures
        analog_updates(pins.take(i)).len() < analog_updates(pins).len(),
{
    assert(pins.take(i + 1).drop_last() =~= pins.take(i));
    lemma_analog_updates_monotone(pins, i + 1);
}

proof fn lemma_analog_updates_monotone(pins: Seq<(u8, u8)>, k: int)
    requires
        0 <= k <= pins.len(),
    ensures
        analog_updates(pins.take(k)).len() <= analog_updates(pins).len(),
    decreases pins.len() - k,
{
    if k < pins.len() {
        assert(pins.take(k + 1).drop_last() =~= pins.take(k));
        lemma_analog_updates_monotone(pins, k + 1);
    } else {
        assert(pins.take(k) =~= pins);
    }
}

proof fn lemma_digital_updates_grow(pins: Seq<(u8, bool)>, i: int)
    requires
        0 <= i < pins.len(),
        pins[i].0 < MAX_NUM_MEASUREMENTS,
    ensures
        digital_updates(pins.take(i)).len() < digital_updates(pins).len(),
{
    assert(pins.take(i + 1).drop_last() =~= pins.take(i));
    lemma_digital_updates_monotone(pins, i + 1);
}

proof fn lemma_digital_updates_monotone(pins: Seq<(u8, bool)>, k: int)
    requires
        0 <= k <= pins.len(),
    ensures
        digital_updates(pins.take(k)).len() <= digital_updates(pins).len(),
    decreases pins.len() - k,
{
    if k < pins.len() {
        assert(pins.take(k + 1).drop_last() =~= pins.take(k));
        lemma_digital_updates_monotone(pins, k + 1);
    } else {
        assert(pins.take(k) =~= pins);
    }
}

proof fn lemma_analog_updates_measured(pins: Seq<(u8, u8)>)
    ensures
        updates_measured(analog_updates(pins)),
        analog_updates(pins).len() <= pins.len(),
    decreases pins.len(),
{
    if pins.len() > 0 {
        lemma_analog_updates_measured(pins.drop_last());
    }
}

proof fn lemma_digital_updates_measured(pins: Seq<(u8, bool)>)
    ensures
        updates_measured(digital_updates(pins)),
        digital_updates(pins).len() <= pins.len(),
    decreases pins.len(),
{
    if pins.len() > 0 {
        lemma_digital_updates_measured(pins.drop_last());
    }
}

/// The update message of a report of analog pins. Its capacity is one update per measured
/// pin.
pub fn set_analog(pins: &[(u8, u8)]) -> (updates: Updates)
    requires
        analog_updates(pins@).len() <= MAX_NUM_MEASUREMENTS,
    ensures
        updates_of(updates) == analog_updates(pins@),
        updates_measured(updates_of(updates)),
{
    let mut updates = Updates::new();
    let mut i: usize = 0;
    while i < pins.len()
        invariant
            0 <= i <= pins@.len(),
            updates_of(updates) == analog_updates(pins@.take(i as int)),
            analog_updates(pins@).len() <= MAX_NUM_MEASUREMENTS,
        decreases pins.len() - i,
    {
        assert(pins@.take(i + 1).drop_last() =~= pins@.take(i as int));
        let (pin, value) = pins[i];
        if (pin as usize) < MAX_NUM_MEASUREMENTS {
            proof {
                lemma_analog_updates_grow(pins@, i as int);
            }
            let _ = updates.push((pin, value));
        }
        i = i + 1;
    }
    assert(pins@.take(pins@.len() as int) =~= pins@);
    proof {
        lemma_analog_updates_measured(pins@);
    }
    updates
}

/// The update message of a report of digital pins. Its capacity is one update per measured
/// pin.
pub fn set_digital(pins: &[(u8, bool)]) -> (updates: Updates)
    requires
        digital_updates(pins@).len() <= MAX_NUM_MEASUREMENTS,
    ensures
        updates_of(updates) == digital_updates(pins@),
        updates_measured(updates_of(updates)),
{
    let mut updates = Updates::new();
    let mut i: usize = 0;
    while i < pins.len()
        invariant
            0 <= i <= pins@.len(),
            updates_of(updates) == digital_updates(pins@.take(i as int)),
            digital_updates(pins@).len() <= MAX_NUM_MEASUREMENTS,
        decreases pins.len() - i,
    {
        assert(pins@.take(i + 1).drop_last() =~= pins@.take(i as int));
        let (pin, level) = pins[i];
        if (pin as usize) < MAX_NUM_MEASUREMENTS {
            let value: u8 = if level {
                100
            } else {
                0
            };
            proof {
                lemma_digital_updates_grow(pins@, i as int);
            }
            let _ = updates.push((pin, value));
        }
        i = i + 1;
    }
    assert(pins@.take(pins@.len() as int) =~= pins@);
    proof {
        lemma_digital_updates_measured(pins@);
    }
    updates
}

/// Whether some update, when it is applied, writes a value that differs from the pin's
/// current measurement.
pub open spec fn any_change(measurements: Seq<u8>, updates: Seq<(u8, u8)>) -> bool
    decreases updates.len(),
{
    if updates.len() == 0 {
        false
    } else {
        any_change(measurements, updates.drop_last()) || updated(
            measurements,
            updates.drop_last(),
        )[updates.last().0 as int] != updates.last().1
    }
}

/// Applies the updates in order. Returns whether some update changed a measurement.
pub fn record(measurements: &mut Measurements, updates: &[(u8, u8)]) -> (changed: bool)
    requires
        updates_measured(updates@),
    ensures
        final(measurements)@ == updated(old(measurements)@, updates@),
        changed == any_change(old(measurements)@, updates@),
{
    let ghost start = measurements@;
    let mut changed = false;
    let mut i: usize = 0;
    while i < updates.len()
        invariant
            updates_measured(updates@),
            0 <= i <= updates@.len(),
            measurements@ == updated(start, updates@.take(i as int)),
            changed == any_change(start, updates@.take(i as int)),
        decreases updates.len() - i,
    {
        assert(updates@.take(i + 1).drop_last() =~= updates@.take(i as int));
        assert(updates@[i as int].0 < 32);
        let (pin, measurement) = updates[i];
        let index = pin as usize;
        if measurement != measurements[index] {
            measurements[index] = measurement;
            changed = true;
        }
        i = i + 1;
    }
    assert(updates@.take(updates@.len() as int) =~= updates@);
    changed
}

/// When no update changes a measurement, the measurements stay as they were: whoever is told
/// of changes misses none.
pub proof fn lemma_unchanged_without_change(measurements: Seq<u8>, updates: Seq<(u8, u8)>)
    requires
        !any_change(measurements, updates),
        updates_measured(updates),
        measurements.len() == MAX_NUM_MEASUREMENTS,
    ensures
        updated(measurements, updates) == measurements,
    decreases updates.len(),
{
    if updates.len() > 0 {
        assert(updates_measured(updates.drop_last()));
        lemma_unchanged_without_change(measurements, updates.drop_last());
        assert(updates.last() == updates[updates.len() - 1]);
        assert(updated(measurements, updates) =~= measurements);
    }
}

/// A report changes only the measurements of the pins it names.
pub proof fn lemma_other_pins_unchanged(measurements: Seq<u8>, updates: Seq<(u8, u8)>, pin: int)
    requires
        forall|i: int| 0 <= i < updates.len() ==> (#[trigger] updates[i]).0 != pin,
        updates_measured(updates),
        measurements.len() == MAX_NUM_MEASUREMENTS,
        0 <= pin < MAX_NUM_MEASUREMENTS,
    ensures
        updated(measurements, updates)[pin] == measurements[pin],
        updated(measurements, updates).len() == measurements.len(),
    decreases updates.len(),
{
    if updates.len() > 0 {
        let rest = updates.drop_last();
        assert forall|i: int| 0 <= i < rest.len() implies (#[trigger] rest[i]).0 != pin
            && rest[i].0 < MAX_NUM_MEASUREMENTS by {
            assert(rest[i] == updates[i]);
        }
        lemma_other_pins_unchanged(measurements, rest, pin);
        assert(updates.last() == updates[updates.len() - 1]);
    }
}

/// An update sets its pin's measurement to its value, whatever came before: after a report,
/// the pin of its last update reads that update's value.
pub proof fn lemma_last_update_wins(measurements: Seq<u8>, updates: Seq<(u8, u8)>)
    requires
        updates.len() > 0,
        updates_measured(updates),
        measurements.len() == MAX_NUM_MEASUREMENTS,
    ensures
        updated(measurements, updates)[updates.last().0 as int] == updates.last().1,
        updated(measurements, updates).len() == MAX_NUM_MEASUREMENTS,
{
    assert(updates_measured(updates.drop_last()));
    lemma_updated_length(measurements, updates.drop_last());
    lemma_updated_length(measurements, updates);
}

proof fn lemma_updated_length(measurements: Seq<u8>, updates: Seq<(u8, u8)>)
    requires
        updates_measured(updates),
        measurements.len() == MAX_NUM_MEASUREMENTS,
    ensures
        updated(measurements, updates).len() == measurements.len(),
    decreases updates.len(),
{
    if updates.len() > 0 {
        assert(updates_measured(updates.drop_last()));
        lemma_updated_length(measurements, updates.drop_last());
        assert(updates.last() == updates[updates.len() - 1]);
    }
}

/// A report changes a measurement exactly when one of its updates writes a value that differs
/// from the pin's reading at that moment: a report of values that the pins already read
/// changes nothing, and one that writes a new value is noticed.
pub proof fn lemma_change_is_noticed(measurements: Seq<u8>, updates: Seq<(u8, u8)>)
    requires
        updates.len() > 0,
        updates_measured(updates),
        measurements.len() == MAX_NUM_MEASUREMENTS,
    ensures
        updated(measurements, updates.drop_last())[updates.last().0 as int] != updates.last().1
            ==> any_change(measurements, updates),
        !any_change(measurements, updates) ==> updated(measurements, updates) == measurements,
{
    assert(updates_measured(updates.drop_last()));
    if !any_change(measurements, updates) {
        lemma_unchanged_without_change(measurements, updates);
    }
}

/// A report of analog pins keeps, in order, the pins that are measured, with their values; a
/// report of digital pins keeps them with 100 for on and 0 for off. Pins past the
/// measurements are dropped.
pub proof fn lemma_reports_keep_measured_pins(analog: Seq<(u8, u8)>, digital: Seq<(u8, bool)>)
    ensures
        (forall|i: int| 0 <= i < analog.len() ==> (#[trigger] analog[i]).0 < MAX_NUM_MEASUREMENTS)
            ==> analog_updates(analog) == analog,
        (forall|i: int| 0 <= i < analog.len() ==> (#[trigger] analog[i]).0 >= MAX_NUM_MEASUREMENTS)
            ==> analog_updates(analog).len() == 0,
        (forall|i: int| 0 <= i < digital.len() ==> (#[trigger] digital[i]).0 < MAX_NUM_MEASUREMENTS)
            ==> analog_updates(digital.map_values(|p: (u8, bool)| (p.0, if p.1 { 100u8 } else { 0u8 })))
            == digital_updates(digital),
    decreases analog.len() + digital.len(),
{
    if analog.len() > 0 {
        lemma_reports_keep_measured_pins(analog.drop_last(), digital);
        assert(analog.drop_last().push(analog.last()) =~= analog);
    }
    if digital.len() > 0 {
        lemma_reports_keep_measured_pins(analog, digital.drop_last());
        let f = |p: (u8, bool)| (p.0, if p.1 { 100u8 } else { 0u8 });
        assert(digital.map_values(f).drop_last() =~= digital.drop_last().map_values(f));
    }
}

} // verus!
