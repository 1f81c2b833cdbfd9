use pico::messages::{Command, Label, Value};
use pico::sequencer::{
    find_sequence, Outcome, Request, Sequencer, Comparison, Condition, Execution, Guard, Sequence, State, Step, StepPlan,
    Transition, Wait, IDLE_SLEEP_US,
};
use pico::water_tank::{sequences, seconds, CONTROLLER_UPPER_LIMIT, EMERGENCY, FILL};

fn small_sequence() -> Sequence {
    Sequence {
        id: 7,
        guards: vec![Guard { id: 1, condition: Condition { pin: 3, comparison: Comparison::Greater, threshold: 80 } }],
        steps: vec![
            Step::At(1_000),
            Step::Do(Command::BangBangStart),
            Step::AddLine { label: "Level", value: Value::Analog(3) },
            Step::AddLine { label: "A label that is too long", value: Value::Blank },
            Step::Test { deadline: 5_000, condition: Condition { pin: 3, comparison: Comparison::GreaterOrEqual, threshold: 50 } },
        ],
        abort: vec![
            Step::Do(Command::BangBangStop),
            Step::Test { deadline: 2_000, condition: Condition { pin: 4, comparison: Comparison::Equal, threshold: 0 } },
        ],
    }
}

fn plan(wait: Option<Wait>, first: Option<Command>, transition: Transition, last: Option<Command>) -> StepPlan {
    StepPlan { wait, first, transition, last }
}

fn apply(execution: &mut Execution, measurements: &[u8; 32], now: u64) -> StepPlan {
    let plan = execution.execute_step(measurements);
    execution.complete_step(plan.transition, now);
    plan
}

#[test]
fn idle_execution_sleeps() {
    let execution = Execution::new();
    assert_eq!(
        execution.execute_step(&[0; 32]),
        plan(Some(Wait::For(IDLE_SLEEP_US)), None, Transition::Stay, None)
    );
    assert_eq!(IDLE_SLEEP_US, 10_000_000);
}

#[test]
fn start_adds_a_page_once() {
    let sequence = small_sequence();
    let other = small_sequence();
    let mut execution = Execution::new();
    assert_eq!(execution.start(&sequence, 100), Some(Command::AddPage));
    assert!(matches!(execution.state, State::Running { step: 0, start_time: 100, is_aborting: false, .. }));
    assert_eq!(execution.start(&other, 200), None);
    assert!(matches!(execution.state, State::Running { start_time: 100, .. }));
}

#[test]
fn steps_run_in_order() {
    let sequence = small_sequence();
    let mut execution = Execution::new();
    execution.start(&sequence, 100);
    let measurements = [0u8; 32];
    assert_eq!(
        apply(&mut execution, &measurements, 1_100),
        plan(Some(Wait::Until(1_100)), None, Transition::Advance, Some(Command::ClearDisplay))
    );
    assert_eq!(
        apply(&mut execution, &measurements, 1_200),
        plan(None, Some(Command::BangBangStart), Transition::Advance, None)
    );
    let line = apply(&mut execution, &measurements, 1_300);
    match line.first {
        Some(Command::AddLine { label, value }) => {
            assert_eq!(label.as_str(), "Level");
            assert_eq!(value, Value::Analog(3));
        }
        other => panic!("unexpected {:?}", other),
    }
    assert_eq!(line.transition, Transition::Advance);
    assert_eq!(
        apply(&mut execution, &measurements, 1_400),
        plan(None, None, Transition::Advance, None)
    );
    assert!(matches!(execution.state, State::Running { step: 4, .. }));
}

#[test]
fn passed_test_advances_and_finished_sequence_stops() {
    let sequence = small_sequence();
    let mut execution = Execution::new();
    execution.start(&sequence, 0);
    execution.complete_step(Transition::Advance, 0);
    execution.complete_step(Transition::Advance, 0);
    execution.complete_step(Transition::Advance, 0);
    execution.complete_step(Transition::Advance, 0);
    let mut measurements = [0u8; 32];
    measurements[3] = 60;
    assert_eq!(apply(&mut execution, &measurements, 10), plan(None, None, Transition::Advance, None));
    assert_eq!(
        apply(&mut execution, &measurements, 20),
        plan(None, Some(Command::RemovePage), Transition::Stop, None)
    );
    assert!(matches!(execution.state, State::NotRunning));
}

#[test]
fn failed_test_aborts_at_its_deadline() {
    let sequence = small_sequence();
    let mut execution = Execution::new();
    execution.start(&sequence, 100);
    for _ in 0..4 {
        execution.complete_step(Transition::Advance, 0);
    }
    let measurements = [0u8; 32];
    assert_eq!(
        apply(&mut execution, &measurements, 5_100),
        plan(Some(Wait::Until(5_100)), None, Transition::Abort, None)
    );
    assert!(matches!(execution.state, State::Running { step: 0, start_time: 5_100, is_aborting: true, .. }));
}

#[test]
fn tripped_guard_aborts_at_once() {
    let sequence = small_sequence();
    let mut execution = Execution::new();
    execution.start(&sequence, 100);
    let mut measurements = [0u8; 32];
    measurements[3] = 81;
    assert_eq!(apply(&mut execution, &measurements, 700), plan(None, None, Transition::Abort, None));
    assert!(matches!(execution.state, State::Running { step: 0, start_time: 700, is_aborting: true, .. }));
    assert_eq!(
        apply(&mut execution, &measurements, 800),
        plan(None, Some(Command::BangBangStop), Transition::Advance, None)
    );
    measurements[4] = 1;
    assert_eq!(
        apply(&mut execution, &measurements, 2_700),
        plan(Some(Wait::Until(2_700)), None, Transition::Advance, None)
    );
    assert_eq!(
        apply(&mut execution, &measurements, 2_800),
        plan(None, Some(Command::RemovePage), Transition::Stop, None)
    );
}

#[test]
fn stop_ends_main_steps_and_spares_abort_steps() {
    let sequence = small_sequence();
    let mut execution = Execution::new();
    assert!(!execution.stop());
    execution.start(&sequence, 0);
    assert!(execution.stop());
    assert!(matches!(execution.state, State::NotRunning));
    execution.start(&sequence, 0);
    execution.complete_step(Transition::Abort, 50);
    assert!(!execution.stop());
    assert!(matches!(execution.state, State::Running { is_aborting: true, .. }));
}

#[test]
fn failing_guard_is_the_first_that_trips() {
    let sequence = Sequence {
        id: 1,
        guards: vec![
            Guard { id: 1, condition: Condition { pin: 1, comparison: Comparison::Less, threshold: 10 } },
            Guard { id: 2, condition: Condition { pin: 2, comparison: Comparison::NotEqual, threshold: 0 } },
            Guard { id: 3, condition: Condition { pin: 3, comparison: Comparison::Greater, threshold: 50 } },
        ],
        steps: vec![],
        abort: vec![],
    };
    let execution = Execution::new();
    let mut measurements = [0u8; 32];
    measurements[1] = 10;
    measurements[2] = 5;
    assert_eq!(execution.get_failing_guard(&sequence, &measurements).map(|guard| guard.id), Some(2));
    measurements[2] = 0;
    measurements[3] = 60;
    assert_eq!(execution.get_failing_guard(&sequence, &measurements).map(|guard| guard.id), Some(3));
    measurements[1] = 3;
    assert_eq!(execution.get_failing_guard(&sequence, &measurements).map(|guard| guard.id), Some(1));
    measurements[1] = 10;
    measurements[3] = 50;
    assert_eq!(execution.get_failing_guard(&sequence, &measurements).map(|guard| guard.id), None);
}

#[test]
fn sequences_are_found_by_id() {
    let sequences = vec![small_sequence(), sequences().remove(0), small_sequence()];
    assert_eq!(find_sequence(&sequences, 7), Some(0));
    assert_eq!(find_sequence(&sequences, 1), Some(1));
    assert_eq!(find_sequence(&sequences, 2), None);
}

#[test]
fn water_tank_sequence_has_its_guards_and_timing() {
    let all = sequences();
    assert_eq!(all.len(), 1);
    let fill = &all[0];
    assert_eq!(fill.id, 1);
    assert_eq!(fill.guards[0], Guard { id: 1, condition: Condition { pin: FILL, comparison: Comparison::Greater, threshold: 80 } });
    assert_eq!(fill.guards[1], Guard { id: 2, condition: Condition { pin: EMERGENCY, comparison: Comparison::Equal, threshold: 0 } });
    assert_eq!(fill.steps.len(), 64);
    assert_eq!(fill.abort.len(), 32);
    assert_eq!(fill.steps[0], Step::At(0));
    assert_eq!(fill.steps[63], Step::At(seconds(30)));
    assert_eq!(fill.steps[39], Step::Do(Command::BangBangStart));
    assert_eq!(
        fill.steps[40],
        Step::Test { deadline: seconds(20), condition: Condition { pin: FILL, comparison: Comparison::GreaterOrEqual, threshold: CONTROLLER_UPPER_LIMIT } }
    );
    assert_eq!(fill.abort[31], Step::At(seconds(12)));
    assert_eq!(seconds(3), 3_000_000);
}

#[test]
fn water_tank_emergency_aborts_the_fill() {
    let all = sequences();
    let mut execution = Execution::new();
    execution.start(&all[0], 0);
    let mut measurements = [0u8; 32];
    measurements[EMERGENCY as usize] = 100;
    assert_eq!(apply(&mut execution, &measurements, 0).transition, Transition::Advance);
    measurements[EMERGENCY as usize] = 0;
    assert_eq!(apply(&mut execution, &measurements, 5), plan(None, None, Transition::Abort, None));
    let first_abort = apply(&mut execution, &measurements, 10);
    assert_eq!(first_abort, plan(Some(Wait::Until(5)), None, Transition::Advance, Some(Command::ClearDisplay)));
    let label = apply(&mut execution, &measurements, 10);
    match label.first {
        Some(Command::AddLine { label, value }) => {
            assert_eq!(label, Label::try_from_str("Abort sequence #").unwrap());
            assert_eq!(value, Value::Number(1));
        }
        other => panic!("unexpected {:?}", other),
    }
}

#[test]
fn sequencer_task_starts_known_sequences_only() {
    let all = vec![small_sequence(), sequences().remove(0)];
    let mut sequencer = Sequencer::new(&all);
    assert_eq!(sequencer.handle(Request::Start { sequence_id: 9 }, 10), Outcome::UnknownSequence { sequence_id: 9 });
    assert!(matches!(sequencer.execution.state, State::NotRunning));
    assert_eq!(sequencer.handle(Request::Start { sequence_id: 1 }, 20), Outcome::Dispatch(Command::AddPage));
    match sequencer.execution.state {
        State::Running { sequence, step: 0, start_time: 20, is_aborting: false } => assert_eq!(sequence.id, 1),
        _ => panic!("not running"),
    }
    assert_eq!(sequencer.handle(Request::Start { sequence_id: 7 }, 30), Outcome::Idle);
    let mut measurements = [0u8; 32];
    measurements[2] = 9;
    assert_eq!(sequencer.handle(Request::Measurements { measurements }, 40), Outcome::Idle);
    assert_eq!(sequencer.measurements, measurements);
    assert_eq!(sequencer.handle(Request::Stop, 50), Outcome::RemovePage);
    assert_eq!(sequencer.handle(Request::Stop, 60), Outcome::Idle);
}
