//! The water tank application: a tank filled by a pump, with a normally closed source valve
//! and a normally open drain valve, whose level a bang bang controller keeps between two
//! limits; and the sequence that fills it.
use vstd::prelude::*;
use crate::bang_bang::Event;
use crate::messages::{Command, Value};
use crate::sequencer::{step_wf, Comparison, Condition, Guard, Sequence, Step};

verus! {

/// The analog input of the fill level.
pub const FILL: u8 = 27;
/// The analog input of the pump.
pub const PUMP: u8 = 26;
/// The digital input of the source valve.
pub const SOURCE: u8 = 20;
/// The digital input of the drain valve.
pub const DRAIN: u8 = 19;
/// The digital input of the emergency switch.
pub const EMERGENCY: u8 = 21;
/// The analog output that drives the pump.
pub const SET_PUMP: u8 = 6;
/// The digital output of the source valve.
pub const SET_SOURCE: u8 = 11;
/// The digital output of the drain valve.
pub const SET_DRAIN: u8 = 12;
/// The level below which the controller pumps again.
pub const CONTROLLER_LOWER_LIMIT: u8 = 45;
/// The level at which the controller stops pumping.
pub const CONTROLLER_UPPER_LIMIT: u8 = 50;

/// A setup request of the application.
#[derive(Debug, PartialEq, Eq, Clone, Copy)]
pub enum Setup {
    /// A line on the display.
    Text { label: &'static str, value: Value },
    /// An event for the bang bang controller.
    Controller(Event),
}

/// The application's setup, in order: five display lines, then the controller's input, output
/// and limits.
pub fn task() -> (setup: Vec<Setup>)
    ensures
        setup@ == seq![
            Setup::Text { label: "Water tank", value: Value::Blank },
            Setup::Text { label: "Pump", value: Value::Analog(PUMP) },
            Setup::Text { label: "Fill level", value: Value::Analog(FILL) },
            Setup::Text { label: "Source (NC)", value: Value::OffOn(SOURCE) },
            Setup::Text { label: "Drain  (NO)", value: Value::OnOff(DRAIN) },
            Setup::Controller(Event::SetInput { pin: FILL }),
            Setup::Controller(Event::SetOutput { pin: SET_PUMP }),
            Setup::Controller(Event::SetLowerLimit { value: CONTROLLER_LOWER_LIMIT }),
            Setup::Controller(Event::SetUpperLimit { value: CONTROLLER_UPPER_LIMIT }),
        ],
{
    let setup = vec![
        Setup::Text { label: "Water tank", value: Value::Blank },
        Setup::Text { label: "Pump", value: Value::Analog(PUMP) },
        Setup::Text { label: "Fill level", value: Value::Analog(FILL) },
        Setup::Text { label: "Source (NC)", value: Value::OffOn(SOURCE) },
        Setup::Text { label: "Drain  (NO)", value: Value::OnOff(DRAIN) },
        Setup::Controller(Event::SetInput { pin: FILL }),
        Setup::Controller(Event::SetOutput { pin: SET_PUMP }),
        Setup::Controller(Event::SetLowerLimit { value: CONTROLLER_LOWER_LIMIT }),
        Setup::Controller(Event::SetUpperLimit { value: CONTROLLER_UPPER_LIMIT }),
    ];
    setup
}

/// A number of seconds, in microseconds.
pub fn seconds(count: u64) -> (micros: u64)
    requires
        count <= 1_000_000,
    ensures
        micros == count * 1_000_000,
{
    count * 1_000_000
}

/// The steps of the fill sequence.
pub open spec fn fill_steps() -> Seq<Step> {
    seq![
        Step::At(0u64),
        Step::AddLine { label: "Fill sequence #", value: Value::Number(1) },
        Step::AddLine { label: "Controller", value: Value::Boolean(false) },
        Step::AddLine { label: "Pump", value: Value::Analog(PUMP) },
        Step::AddLine { label: "Source (NC)", value: Value::OffOn(SOURCE) },
        Step::AddLine { label: "Drain (NO)", value: Value::OnOff(DRAIN) },
        Step::Do(Command::BangBangStop),
        Step::Do(Command::BangBangHide),
        Step::Do(Command::SetDO { pin: SET_DRAIN, value: false }),
        Step::At(3000000u64),
        Step::AddLine { label: "Fill sequence #", value: Value::Number(2) },
        Step::AddLine { label: "Controller", value: Value::Boolean(false) },
        Step::AddLine { label: "Pump", value: Value::Analog(PUMP) },
        Step::AddLine { label: "Source (NC)", value: Value::OffOn(SOURCE) },
        Step::AddLine { label: "Drain (NO)", value: Value::OnOff(DRAIN) },
        Step::Do(Command::SetAO { pin: SET_PUMP, value: 0 }),
        Step::At(6000000u64),
        Step::AddLine { label: "Fill sequence #", value: Value::Number(3) },
        Step::AddLine { label: "Controller", value: Value::Boolean(false) },
        Step::AddLine { label: "Pump", value: Value::Analog(PUMP) },
        Step::AddLine { label: "Source (NC)", value: Value::OffOn(SOURCE) },
        Step::AddLine { label: "Drain (NO)", value: Value::OnOff(DRAIN) },
        Step::Do(Command::SetDO { pin: SET_SOURCE, value: true }),
        Step::Do(Command::SetDO { pin: SET_DRAIN, value: true }),
        Step::At(9000000u64),
        Step::AddLine { label: "Fill sequence #", value: Value::Number(4) },
        Step::AddLine { label: "Controller", value: Value::Boolean(false) },
        Step::AddLine { label: "Lower limit", value: Value::Number(CONTROLLER_LOWER_LIMIT) },
        Step::AddLine { label: "Upper limit", value: Value::Number(CONTROLLER_UPPER_LIMIT) },
        Step::Do(Command::BangBangInput { pin: FILL }),
        Step::Do(Command::BangBangOutput { pin: SET_PUMP }),
        Step::Do(Command::BangBangLowerLimit { value: CONTROLLER_LOWER_LIMIT }),
        Step::Do(Command::BangBangUpperLimit { value: CONTROLLER_UPPER_LIMIT }),
        Step::At(12000000u64),
        Step::AddLine { label: "Fill sequence #", value: Value::Number(5) },
        Step::AddLine { label: "Controller", value: Value::Boolean(true) },
        Step::AddLine { label: "Pump", value: Value::Analog(PUMP) },
        Step::AddLine { label: "Fill level", value: Value::Analog(FILL) },
        Step::AddLine { label: "Source (NC)", value: Value::OffOn(SOURCE) },
        Step::Do(Command::BangBangStart),
        Step::Test { deadline: 20000000u64, condition: Condition { pin: FILL, comparison: Comparison::GreaterOrEqual, threshold: CONTROLLER_UPPER_LIMIT } },
        Step::At(20000000u64),
        Step::AddLine { label: "Fill sequence #", value: Value::Number(6) },
        Step::AddLine { label: "Controller", value: Value::Boolean(false) },
        Step::AddLine { label: "Pump", value: Value::Analog(PUMP) },
        Step::AddLine { label: "Fill level", value: Value::Analog(FILL) },
        Step::AddLine { label: "Source (NC)", value: Value::OffOn(SOURCE) },
        Step::Do(Command::BangBangStop),
        Step::At(23000000u64),
        Step::AddLine { label: "Fill sequence #", value: Value::Number(7) },
        Step::AddLine { label: "Controller", value: Value::Boolean(false) },
        Step::AddLine { label: "Pump", value: Value::Analog(PUMP) },
        Step::AddLine { label: "Fill level", value: Value::Analog(FILL) },
        Step::AddLine { label: "Source (NC)", value: Value::OffOn(SOURCE) },
        Step::Do(Command::SetAO { pin: SET_PUMP, value: 0 }),
        Step::At(26000000u64),
        Step::AddLine { label: "Fill sequence #", value: Value::Number(8) },
        Step::AddLine { label: "Controller", value: Value::Boolean(false) },
        Step::AddLine { label: "Pump", value: Value::Analog(PUMP) },
        Step::AddLine { label: "Fill level", value: Value::Analog(FILL) },
        Step::Do(Command::SetDO { pin: SET_SOURCE, value: false }),
        Step::AddLine { label: "Source (NC)", value: Value::OffOn(SOURCE) },
        Step::Test { deadline: 30000000u64, condition: Condition { pin: PUMP, comparison: Comparison::Equal, threshold: 0 } },
        Step::At(30000000u64),
    ]
}

/// The abort steps of the fill sequence.
pub open spec fn fill_abort_steps() -> Seq<Step> {
    seq![
        Step::At(0u64),
        Step::AddLine { label: "Abort sequence #", value: Value::Number(1) },
        Step::AddLine { label: "Controller", value: Value::Boolean(false) },
        Step::AddLine { label: "Pump", value: Value::Analog(PUMP) },
        Step::AddLine { label: "Source (NC)", value: Value::OffOn(SOURCE) },
        Step::AddLine { label: "Drain (NO)", value: Value::OnOff(DRAIN) },
        Step::Do(Command::BangBangStop),
        Step::Do(Command::SetDO { pin: SET_DRAIN, value: false }),
        Step::Test { deadline: 3000000u64, condition: Condition { pin: DRAIN, comparison: Comparison::Equal, threshold: 0 } },
        Step::At(3000000u64),
        Step::AddLine { label: "Abort sequence #", value: Value::Number(2) },
        Step::AddLine { label: "Controller", value: Value::Boolean(false) },
        Step::AddLine { label: "Pump", value: Value::Analog(PUMP) },
        Step::AddLine { label: "Source (NC)", value: Value::OffOn(SOURCE) },
        Step::AddLine { label: "Drain (NO)", value: Value::OnOff(DRAIN) },
        Step::Do(Command::SetAO { pin: SET_PUMP, value: 0 }),
        Step::Test { deadline: 6000000u64, condition: Condition { pin: PUMP, comparison: Comparison::Equal, threshold: 0 } },
        Step::At(6000000u64),
        Step::AddLine { label: "Abort sequence #", value: Value::Number(3) },
        Step::AddLine { label: "Controller", value: Value::Boolean(false) },
        Step::AddLine { label: "Pump", value: Value::Analog(PUMP) },
        Step::AddLine { label: "Source (NC)", value: Value::OffOn(SOURCE) },
        Step::AddLine { label: "Drain (NO)", value: Value::OnOff(DRAIN) },
        Step::Do(Command::SetDO { pin: SET_SOURCE, value: false }),
        Step::Test { deadline: 9000000u64, condition: Condition { pin: SOURCE, comparison: Comparison::Equal, threshold: 0 } },
        Step::At(9000000u64),
        Step::AddLine { label: "Abort sequence #", value: Value::Number(4) },
        Step::AddLine { label: "Controller", value: Value::Boolean(false) },
        Step::AddLine { label: "Pump", value: Value::Analog(PUMP) },
        Step::AddLine { label: "Source (NC)", value: Value::OffOn(SOURCE) },
        Step::AddLine { label: "Drain (NO)", value: Value::OnOff(DRAIN) },
        Step::At(12000000u64),
    ]
}

/// Appends a step that reads only measured pins.
fn push_step(steps: &mut Vec<Step>, step: Step)
    requires
        step_wf(step),
        forall|i: int| 0 <= i < old(steps)@.len() ==> step_wf(#[trigger] old(steps)@[i]),
    ensures
        final(steps)@ == old(steps)@.push(step),
        forall|i: int| 0 <= i < final(steps)@.len() ==> step_wf(#[trigger] final(steps)@[i]),
{
    steps.push(step);
}

/// The fill sequence: guarded against overfilling and the emergency switch, it closes the
/// drain, stops the pump, opens the source, sets up the controller, lets it fill the tank up
/// to the upper limit within 20 seconds, then stops and closes the source. Its abort steps
/// stop the controller, open the drain, stop the pump and close the source.
#[verifier::rlimit(40)]
pub fn sequences() -> (sequences: Vec<Sequence>)
    ensures
        sequences@.len() == 1,
        sequences@[0].wf(),
        sequences@[0].id == 1,
        sequences@[0].guards@ == seq![
            Guard { id: 1, condition: Condition { pin: FILL, comparison: Comparison::Greater, threshold: 80 } },
            Guard { id: 2, condition: Condition { pin: EMERGENCY, comparison: Comparison::Equal, threshold: 0 } },
        ],
        sequences@[0].steps@ == fill_steps(),
        sequences@[0].abort@ == fill_abort_steps(),
{
    let guards = vec![
        Guard { id: 1, condition: Condition { pin: FILL, comparison: Comparison::Greater, threshold: 80 } },
        Guard { id: 2, condition: Condition { pin: EMERGENCY, comparison: Comparison::Equal, threshold: 0 } },
    ];
    let mut steps: Vec<Step> = Vec::new();
    push_step(&mut steps, Step::At(seconds(0)));
    push_step(&mut steps, Step::AddLine { label: "Fill sequence #", value: Value::Number(1) });
    push_step(&mut steps, Step::AddLine { label: "Controller", value: Value::Boolean(false) });
    push_step(&mut steps, Step::AddLine { label: "Pump", value: Value::Analog(PUMP) });
    push_step(&mut steps, Step::AddLine { label: "Source (NC)", value: Value::OffOn(SOURCE) });
    push_step(&mut steps, Step::AddLine { label: "Drain (NO)", value: Value::OnOff(DRAIN) });
    push_step(&mut steps, Step::Do(Command::BangBangStop));
    push_step(&mut steps, Step::Do(Command::BangBangHide));
    push_step(&mut steps, Step::Do(Command::SetDO { pin: SET_DRAIN, value: false }));
    push_step(&mut steps, Step::At(seconds(3)));
    push_step(&mut steps, Step::AddLine { label: "Fill sequence #", value: Value::Number(2) });
    push_step(&mut steps, Step::AddLine { label: "Controller", value: Value::Boolean(false) });
    push_step(&mut steps, Step::AddLine { label: "Pump", value: Value::Analog(PUMP) });
    push_step(&mut steps, Step::AddLine { label: "Source (NC)", value: Value::OffOn(SOURCE) });
    push_step(&mut steps, Step::AddLine { label: "Drain (NO)", value: Value::OnOff(DRAIN) });
    push_step(&mut steps, Step::Do(Command::SetAO { pin: SET_PUMP, value: 0 }));
    push_step(&mut steps, Step::At(seconds(6)));
    push_step(&mut steps, Step::AddLine { label: "Fill sequence #", value: Value::Number(3) });
    push_step(&mut steps, Step::AddLine { label: "Controller", value: Value::Boolean(false) });
    push_step(&mut steps, Step::AddLine { label: "Pump", value: Value::Analog(PUMP) });
    push_step(&mut steps, Step::AddLine { label: "Source (NC)", value: Value::OffOn(SOURCE) });
    push_step(&mut steps, Step::AddLine { label: "Drain (NO)", value: Value::OnOff(DRAIN) });
    push_step(&mut steps, Step::Do(Command::SetDO { pin: SET_SOURCE, value: true }));
    push_step(&mut steps, Step::Do(Command::SetDO { pin: SET_DRAIN, value: true }));
    push_step(&mut steps, Step::At(seconds(9)));
    push_step(&mut steps, Step::AddLine { label: "Fill sequence #", value: Value::Number(4) });
    push_step(&mut steps, Step::AddLine { label: "Controller", value: Value::Boolean(false) });
    push_step(&mut steps, Step::AddLine { label: "Lower limit", value: Value::Number(CONTROLLER_LOWER_LIMIT) });
    push_step(&mut steps, Step::AddLine { label: "Upper limit", value: Value::Number(CONTROLLER_UPPER_LIMIT) });
    push_step(&mut steps, Step::Do(Command::BangBangInput { pin: FILL }));
    push_step(&mut steps, Step::Do(Command::BangBangOutput { pin: SET_PUMP }));
    push_step(&mut steps, Step::Do(Command::BangBangLowerLimit { value: CONTROLLER_LOWER_LIMIT }));
    push_step(&mut steps, Step::Do(Command::BangBangUpperLimit { value: CONTROLLER_UPPER_LIMIT }));
    push_step(&mut steps, Step::At(seconds(12)));
    push_step(&mut steps, Step::AddLine { label: "Fill sequence #", value: Value::Number(5) });
    push_step(&mut steps, Step::AddLine { label: "Controller", value: Value::Boolean(true) });
    push_step(&mut steps, Step::AddLine { label: "Pump", value: Value::Analog(PUMP) });
    push_step(&mut steps, Step::AddLine { label: "Fill level", value: Value::Analog(FILL) });
    push_step(&mut steps, Step::AddLine { label: "Source (NC)", value: Value::OffOn(SOURCE) });
    push_step(&mut steps, Step::Do(Command::BangBangStart));
    push_step(&mut steps, Step::Test { deadline: seconds(20), condition: Condition { pin: FILL, comparison: Comparison::GreaterOrEqual, threshold: CONTROLLER_UPPER_LIMIT } });
    push_step(&mut steps, Step::At(seconds(20)));
    push_step(&mut steps, Step::AddLine { label: "Fill sequence #", value: Value::Number(6) });
    push_step(&mut steps, Step::AddLine { label: "Controller", value: Value::Boolean(false) });
    push_step(&mut steps, Step::AddLine { label: "Pump", value: Value::Analog(PUMP) });
    push_step(&mut steps, Step::AddLine { label: "Fill level", value: Value::Analog(FILL) });
    push_step(&mut steps, Step::AddLine { label: "Source (NC)", value: Value::OffOn(SOURCE) });
    push_step(&mut steps, Step::Do(Command::BangBangStop));
    push_step(&mut steps, Step::At(seconds(23)));
    push_step(&mut steps, Step::AddLine { label: "Fill sequence #", value: Value::Number(7) });
    push_step(&mut steps, Step::AddLine { label: "Controller", value: Value::Boolean(false) });
    push_step(&mut steps, Step::AddLine { label: "Pump", value: Value::Analog(PUMP) });
    push_step(&mut steps, Step::AddLine { label: "Fill level", value: Value::Analog(FILL) });
    push_step(&mut steps, Step::AddLine { label: "Source (NC)", value: Value::OffOn(SOURCE) });
    push_step(&mut steps, Step::Do(Command::SetAO { pin: SET_PUMP, value: 0 }));
    push_step(&mut steps, Step::At(seconds(26)));
    push_step(&mut steps, Step::AddLine { label: "Fill sequence #", value: Value::Number(8) });
    push_step(&mut steps, Step::AddLine { label: "Controller", value: Value::Boolean(false) });
    push_step(&mut steps, Step::AddLine { label: "Pump", value: Value::Analog(PUMP) });
    push_step(&mut steps, Step::AddLine { label: "Fill level", value: Value::Analog(FILL) });
    push_step(&mut steps, Step::Do(Command::SetDO { pin: SET_SOURCE, value: false }));
    push_step(&mut steps, Step::AddLine { label: "Source (NC)", value: Value::OffOn(SOURCE) });
    push_step(&mut steps, Step::Test { deadline: seconds(30), condition: Condition { pin: PUMP, comparison: Comparison::Equal, threshold: 0 } });
    push_step(&mut steps, Step::At(seconds(30)));
    let mut abort: Vec<Step> = Vec::new();
    push_step(&mut abort, Step::At(seconds(0)));
    push_step(&mut abort, Step::AddLine { label: "Abort sequence #", value: Value::Number(1) });
    push_step(&mut abort, Step::AddLine { label: "Controller", value: Value::Boolean(false) });
    push_step(&mut abort, Step::AddLine { label: "Pump", value: Value::Analog(PUMP) });
    push_step(&mut abort, Step::AddLine { label: "Source (NC)", value: Value::OffOn(SOURCE) });
    push_step(&mut abort, Step::AddLine { label: "Drain (NO)", value: Value::OnOff(DRAIN) });
    push_step(&mut abort, Step::Do(Command::BangBangStop));
    push_step(&mut abort, Step::Do(Command::SetDO { pin: SET_DRAIN, value: false }));
    push_step(&mut abort, Step::Test { deadline: seconds(3), condition: Condition { pin: DRAIN, comparison: Comparison::Equal, threshold: 0 } });
    push_step(&mut abort, Step::At(seconds(3)));
    push_step(&mut abort, Step::AddLine { label: "Abort sequence #", value: Value::Number(2) });
    push_step(&mut abort, Step::AddLine { label: "Controller", value: Value::Boolean(false) });
    push_step(&mut abort, Step::AddLine { label: "Pump", value: Value::Analog(PUMP) });
    push_step(&mut abort, Step::AddLine { label: "Source (NC)", value: Value::OffOn(SOURCE) });
    push_step(&mut abort, Step::AddLine { label: "Drain (NO)", value: Value::OnOff(DRAIN) });
    push_step(&mut abort, Step::Do(Command::SetAO { pin: SET_PUMP, value: 0 }));
    push_step(&mut abort, Step::Test { deadline: seconds(6), condition: Condition { pin: PUMP, comparison: Comparison::Equal, threshold: 0 } });
    push_step(&mut abort, Step::At(seconds(6)));
    push_step(&mut abort, Step::AddLine { label: "Abort sequence #", value: Value::Number(3) });
    push_step(&mut abort, Step::AddLine { label: "Controller", value: Value::Boolean(false) });
    push_step(&mut abort, Step::AddLine { label: "Pump", value: Value::Analog(PUMP) });
    push_step(&mut abort, Step::AddLine { label: "Source (NC)", value: Value::OffOn(SOURCE) });
    push_step(&mut abort, Step::AddLine { label: "Drain (NO)", value: Value::OnOff(DRAIN) });
    push_step(&mut abort, Step::Do(Command::SetDO { pin: SET_SOURCE, value: false }));
    push_step(&mut abort, Step::Test { deadline: seconds(9), condition: Condition { pin: SOURCE, comparison: Comparison::Equal, threshold: 0 } });
    push_step(&mut abort, Step::At(seconds(9)));
    push_step(&mut abort, Step::AddLine { label: "Abort sequence #", value: Value::Number(4) });
    push_step(&mut abort, Step::AddLine { label: "Controller", value: Value::Boolean(false) });
    push_step(&mut abort, Step::AddLine { label: "Pump", value: Value::Analog(PUMP) });
    push_step(&mut abort, Step::AddLine { label: "Source (NC)", value: Value::OffOn(SOURCE) });
    push_step(&mut abort, Step::AddLine { label: "Drain (NO)", value: Value::OnOff(DRAIN) });
    push_step(&mut abort, Step::At(seconds(12)));
    let sequence = Sequence { id: 1, guards, steps, abort };
    let mut sequences: Vec<Sequence> = Vec::new();
    sequences.push(sequence);
    sequences
}

} // verus!
