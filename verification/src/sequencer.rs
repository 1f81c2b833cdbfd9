//! The sequencer: it runs a sequence of timed steps, watches the sequence's guards and, when a
//! guard trips or a test misses its deadline, runs the sequence's abort steps instead.
//!
//! Times and deadlines are in microseconds; a deadline counts from the moment the sequence
//! (or its abort steps) started.
use vstd::prelude::*;
use vstd::string::StringSliceAdditionalSpecFns;
use crate::messages::{label_text, Command, Label, Measurements, Value, LABEL_CAPACITY, MAX_NUM_MEASUREMENTS};

verus! {

/// How a measurement is compared with a threshold.
#[derive(Debug, PartialEq, Eq, Structural, Clone, Copy)]
pub enum Comparison {
    Less,
    LessOrEqual,
    Equal,
    NotEqual,
    GreaterOrEqual,
    Greater,
}

/// A condition on the measurements: the measurement of `pin` compared with `threshold`.
#[derive(Debug, PartialEq, Eq, Structural, Clone, Copy)]
pub struct Condition {
    pub pin: u8,
    pub comparison: Comparison,
    pub threshold: u8,
}

/// Whether a condition holds of the measurements.
pub open spec fn condition_holds(condition: Condition, measurements: Measurements) -> bool {
    let value = measurements@[condition.pin as int];
    match condition.comparison {
        Comparison::Less => value < condition.threshold,
        Comparison::LessOrEqual => value <= condition.threshold,
        Comparison::Equal => value == condition.threshold,
        Comparison::NotEqual => value != condition.threshold,
        Comparison::GreaterOrEqual => value >= condition.threshold,
        Comparison::Greater => value > condition.threshold,
    }
}

impl Condition {
    /// Whether the condition's pin is a measured pin.
    pub open spec fn wf(self) -> bool {
        self.pin < MAX_NUM_MEASUREMENTS
    }

    /// Evaluates the condition on the measurements.
    pub fn holds(&self, measurements: &Measurements) -> (holds: bool)
        requires
            self.wf(),
        ensures
            holds == condition_holds(*self, *measurements),
    {
        let value = measurements[self.pin as usize];
        match self.comparison {
            Comparison::Less => value < self.threshold,
            Comparison::LessOrEqual => value <= self.threshold,
            Comparison::Equal => value == self.threshold,
            Comparison::NotEqual => value != self.threshold,
            Comparison::GreaterOrEqual => value >= self.threshold,
            Comparison::Greater => value > self.threshold,
        }
    }
}

/// A guard of a sequence: while the sequence runs, the guard trips when its condition holds.
#[derive(Debug, PartialEq, Eq, Structural, Clone, Copy)]
pub struct Guard {
    pub id: u8,
    pub condition: Condition,
}

/// A step of a sequence.
#[derive(Debug, PartialEq, Eq)]
pub enum Step {
    /// Wait until the deadline, then clear the display.
    At(u64),
    /// Pass if the condition holds; otherwise fail at the deadline.
    Test { deadline: u64, condition: Condition },
    /// Send a command to the dispatcher.
    Do(Command),
    /// Add a line to the display.
    AddLine { label: &'static str, value: Value },
}

/// A sequence: its guards, its steps, and the steps that run when it aborts.
#[derive(Debug, PartialEq, Eq)]
pub struct Sequence {
    pub id: u8,
    pub guards: Vec<Guard>,
    pub steps: Vec<Step>,
    pub abort: Vec<Step>,
}

/// Whether a step only reads measured pins.
pub open spec fn step_wf(step: Step) -> bool {
    step matches Step::Test { condition, .. } ==> condition.wf()
}

impl Sequence {
    /// Whether every condition of the sequence reads a measured pin.
    pub open spec fn wf(self) -> bool {
        &&& forall|i: int| 0 <= i < self.guards@.len() ==> (#[trigger] self.guards@[i]).condition.wf()
        &&& forall|i: int| 0 <= i < self.steps@.len() ==> step_wf(#[trigger] self.steps@[i])
        &&& forall|i: int| 0 <= i < self.abort@.len() ==> step_wf(#[trigger] self.abort@[i])
    }
}

/// The first guard among `guards` that trips on the measurements, if any.
pub open spec fn first_tripped_guard(guards: Seq<Guard>, measurements: Measurements) -> Option<
    int,
>
    decreases guards.len(),
{
    if guards.len() == 0 {
        None
    } else if condition_holds(guards[0].condition, measurements) {
        Some(0)
    } else {
        match first_tripped_guard(guards.drop_first(), measurements) {
            Some(i) => Some(i + 1),
            None => None,
        }
    }
}

/// An index moved `by` places further on.
pub open spec fn shifted(index: Option<int>, by: int) -> Option<int> {
    match index {
        Some(i) => Some(i + by),
        None => None,
    }
}

/// The state of an execution.
#[derive(Debug)]
pub enum State<'seq> {
    NotRunning,
    Running {
        sequence: &'seq Sequence,
        step: usize,
        start_time: u64,
        is_aborting: bool,
    },
}

/// The steps that an execution works through: the abort steps once it aborts.
pub open spec fn active_steps(sequence: Sequence, is_aborting: bool) -> Seq<Step> {
    if is_aborting {
        sequence.abort@
    } else {
        sequence.steps@
    }
}

/// How long an execution step waits before it takes effect.
#[derive(Debug, PartialEq, Eq, Structural, Clone, Copy)]
pub enum Wait {
    /// For this many microseconds.
    For(u64),
    /// Until this time, in microseconds.
    Until(u64),
}

/// How an execution step changes the state.
#[derive(Debug, PartialEq, Eq, Structural, Clone, Copy)]
pub enum Transition {
    /// No change.
    Stay,
    /// Go on to the next step.
    Advance,
    /// Start the abort steps, now.
    Abort,
    /// The execution is over.
    Stop,
}

/// One execution step: wait, dispatch `first`, change the state, dispatch `last`.
#[derive(Debug, PartialEq, Eq)]
pub struct StepPlan {
    pub wait: Option<Wait>,
    pub first: Option<Command>,
    pub transition: Transition,
    pub last: Option<Command>,
}

/// How long an idle execution sleeps before it looks again, in microseconds.
pub const IDLE_SLEEP_US: u64 = 10_000_000;

/// The plan of the step that an execution in `state` takes on `measurements`.
pub open spec fn planned(state: State, measurements: Measurements, plan: StepPlan) -> bool {
    match state {
        State::NotRunning => plan == StepPlan {
            wait: Some(Wait::For(IDLE_SLEEP_US)),
            first: None,
            transition: Transition::Stay,
            last: None,
        },
        State::Running { sequence, step, start_time, is_aborting } => {
            if !is_aborting && first_tripped_guard(sequence.guards@, measurements) is Some {
                plan == StepPlan {
                    wait: None,
                    first: None,
                    transition: Transition::Abort,
                    last: None,
                }
            } else if step >= active_steps(*sequence, is_aborting).len() {
                plan == StepPlan {
                    wait: None,
                    first: Some(Command::RemovePage),
                    transition: Transition::Stop,
                    last: None,
                }
            } else {
                match active_steps(*sequence, is_aborting)[step as int] {
                    Step::At(deadline) => plan == StepPlan {
                        wait: Some(Wait::Until((start_time + deadline) as u64)),
                        first: None,
                        transition: Transition::Advance,
                        last: Some(Command::ClearDisplay),
                    },
                    Step::Test { deadline, condition } => {
                        if condition_holds(condition, measurements) {
                            plan == StepPlan {
                                wait: None,
                                first: None,
                                transition: Transition::Advance,
                                last: None,
                            }
                        } else {
                            plan == StepPlan {
                                wait: Some(Wait::Until((start_time + deadline) as u64)),
                                first: None,
                                transition: if is_aborting {
                                    Transition::Advance
                                } else {
                                    Transition::Abort
                                },
                                last: None,
                            }
                        }
                    },
                    Step::Do(command) => plan == StepPlan {
                        wait: None,
                        first: Some(command),
                        transition: Transition::Advance,
                        last: None,
                    },
                    Step::AddLine { label, value } => {
                        &&& plan.wait is None
                        &&& plan.transition == Transition::Advance
                        &&& plan.last is None
                        &&& if label.spec_bytes().len() <= LABEL_CAPACITY {
                            plan.first matches Some(Command::AddLine { label: text, value: v })
                                && label_text(text) == label@ && v == value
                        } else {
                            plan.first is None
                        }
                    },
                }
            }
        },
    }
}

/// The state after a transition that takes effect at `now`.
pub open spec fn after_transition<'seq>(state: State<'seq>, transition: Transition, now: u64) -> State<'seq> {
    match transition {
        Transition::Stay => state,
        Transition::Advance => match state {
            State::Running { sequence, step, start_time, is_aborting } => State::Running {
                sequence,
                step: (step + 1) as usize,
                start_time,
                is_aborting,
            },
            State::NotRunning => State::NotRunning,
        },
        Transition::Abort => match state {
            State::Running { sequence, .. } => State::Running {
                sequence,
                step: 0,
                start_time: now,
                is_aborting: true,
            },
            State::NotRunning => State::NotRunning,
        },
        Transition::Stop => State::NotRunning,
    }
}

/// Whether a transition can take effect without fault.
pub open spec fn transition_defined(state: State, transition: Transition) -> bool {
    (transition == Transition::Advance && state is Running) ==> state->step < usize::MAX
}

/// Whether the step that the state takes on the measurements can compute the deadline it
/// waits for, where it waits for one (an `At` step, or a failing test, unless a guard aborts
/// the main steps first): the deadline, counted from the start time, is a time that fits in
/// 64 bits.
pub open spec fn deadline_defined(state: State, measurements: Measurements) -> bool {
    match state {
        State::NotRunning => true,
        State::Running { sequence, step, start_time, is_aborting } => {
            (is_aborting || first_tripped_guard(sequence.guards@, measurements) is None) && step
                < active_steps(*sequence, is_aborting).len() ==> match active_steps(
                *sequence,
                is_aborting,
            )[step as int] {
                Step::At(deadline) => start_time + deadline <= u64::MAX,
                Step::Test { deadline, condition } => condition_holds(condition, measurements)
                    || start_time + deadline <= u64::MAX,
                _ => true,
            }
        },
    }
}

/// The state after a stop request: an execution that runs its abort steps finishes them.
pub open spec fn after_stop<'seq>(state: State<'seq>) -> State<'seq> {
    match state {
        State::Running { is_aborting: true, .. } => state,
        _ => State::NotRunning,
    }
}

/// An execution of at most one sequence at a time.
pub struct Execution<'seq> {
    pub state: State<'seq>,
}

impl<'seq> Execution<'seq> {
    /// The execution's invariant: a running sequence reads only measured pins.
    pub open spec fn wf(self) -> bool {
        self.state matches State::Running { sequence, .. } ==> sequence.wf()
    }

    /// An execution that runs nothing.
    pub fn new() -> (execution: Self)
        ensures
            execution.state is NotRunning,
            execution.wf(),
    {
        Execution { state: State::NotRunning }
    }

    /// Starts a sequence at `now`, unless one is running already. When it starts, the display
    /// gets a page for it: the command to dispatch is returned.
    pub fn start(&mut self, sequence: &'seq Sequence, now: u64) -> (command: Option<Command>)
        requires
            old(self).wf(),
            sequence.wf(),
        ensures
            final(self).wf(),
            old(self).state is NotRunning ==> {
                &&& command == Some(Command::AddPage)
                &&& final(self).state == (State::Running {
                    sequence,
                    step: 0,
                    start_time: now,
                    is_aborting: false,
                })
            },
            old(self).state is Running ==> command is None && final(self).state == old(self).state,
    {
        match self.state {
            State::NotRunning => {
                self.state = State::Running {
                    sequence,
                    step: 0,
                    start_time: now,
                    is_aborting: false,
                };
                Some(Command::AddPage)
            },
            State::Running { .. } => None,
        }
    }

    /// Stops the running sequence, unless it runs its abort steps. Returns whether the
    /// sequence's display page is to be removed, which is when it stopped.
    pub fn stop(&mut self) -> (remove_page: bool)
        requires
            old(self).wf(),
        ensures
            final(self).wf(),
            final(self).state == after_stop(old(self).state),
            remove_page == (old(self).state matches State::Running { is_aborting: false, .. }),
    {
        match self.state {
            State::NotRunning => false,
            State::Running { is_aborting, .. } => {
                if is_aborting {
                    false
                } else {
                    self.state = State::NotRunning;
                    true
                }
            },
        }
    }

    /// The first guard of the sequence that trips on the measurements, if any.
    pub fn get_failing_guard(&self, sequence: &'seq Sequence, measurements: &Measurements) -> (guard:
        Option<&'seq Guard>)
        requires
            sequence.wf(),
        ensures
            guard is Some <==> first_tripped_guard(sequence.guards@, *measurements) is Some,
            guard is Some ==> *guard->0 == sequence.guards@[first_tripped_guard(
                sequence.guards@,
                *measurements,
            )->0],
    {
        let guards = &sequence.guards;
        let mut i: usize = 0;
        assert(guards@.skip(0) =~= guards@);
        while i < guards.len()
            invariant
                sequence.wf(),
                guards@ == sequence.guards@,
                0 <= i <= guards.len(),
                first_tripped_guard(guards@, *measurements) == shifted(
                    first_tripped_guard(guards@.skip(i as int), *measurements),
                    i as int,
                ),
            decreases guards.len() - i,
        {
            assert(guards@.skip(i as int).drop_first() =~= guards@.skip(i + 1));
            if guards[i].condition.holds(measurements) {
                return Some(&guards[i]);
            }
            i = i + 1;
        }
        None
    }

    /// Decides the next step of the execution on the current measurements, without changing
    /// it. The caller waits as the plan says, dispatches its first command, applies its
    /// transition with `complete_step`, and dispatches its last command.
    pub fn execute_step(&self, measurements: &Measurements) -> (plan: StepPlan)
        requires
            self.wf(),
            deadline_defined(self.state, *measurements),
        ensures
            planned(self.state, *measurements, plan),
    {
        match self.state {
            State::NotRunning => StepPlan {
                wait: Some(Wait::For(IDLE_SLEEP_US)),
                first: None,
                transition: Transition::Stay,
                last: None,
            },
            State::Running { sequence, step, start_time, is_aborting } => {
                if !is_aborting {
                    if let Some(_guard) = self.get_failing_guard(sequence, measurements) {
                        return StepPlan {
                            wait: None,
                            first: None,
                            transition: Transition::Abort,
                            last: None,
                        };
                    }
                }
                let steps = if is_aborting {
                    &sequence.abort
                } else {
                    &sequence.steps
                };
                if step >= steps.len() {
                    return StepPlan {
                        wait: None,
                        first: Some(Command::RemovePage),
                        transition: Transition::Stop,
                        last: None,
                    };
                }
                assert(step_wf(steps@[step as int]));
                match &steps[step] {
                    Step::At(deadline) => StepPlan {
                        wait: Some(Wait::Until(start_time + *deadline)),
                        first: None,
                        transition: Transition::Advance,
                        last: Some(Command::ClearDisplay),
                    },
                    Step::Test { deadline, condition } => {
                        if condition.holds(measurements) {
                            StepPlan {
                                wait: None,
                                first: None,
                                transition: Transition::Advance,
                                last: None,
                            }
                        } else if !is_aborting {
                            StepPlan {
                                wait: Some(Wait::Until(start_time + *deadline)),
                                first: None,
                                transition: Transition::Abort,
                                last: None,
                            }
                        } else {
                            StepPlan {
                                wait: Some(Wait::Until(start_time + *deadline)),
                                first: None,
                                transition: Transition::Advance,
                                last: None,
                            }
                        }
                    },
                    Step::Do(command) => StepPlan {
                        wait: None,
                        first: Some(command.clone()),
                        transition: Transition::Advance,
                        last: None,
                    },
                    Step::AddLine { label, value } => {
                        let first = match Label::try_from_str(*label) {
                            Ok(text) => Some(Command::AddLine { label: text, value: *value }),
                            Err(_) => None,
                        };
                        StepPlan { wait: None, first, transition: Transition::Advance, last: None }
                    },
                }
            },
        }
    }

    /// Applies the transition of an execution step, which takes effect at `now`.
    pub fn complete_step(&mut self, transition: Transition, now: u64)
        requires
            old(self).wf(),
            transition_defined(old(self).state, transition),
        ensures
            final(self).wf(),
            final(self).state == after_transition(old(self).state, transition, now),
    {
        match transition {
            Transition::Stay => {},
            Transition::Advance => {
                if let State::Running { sequence, step, start_time, is_aborting } = self.state {
                    self.state = State::Running { sequence, step: step + 1, start_time, is_aborting };
                }
            },
            Transition::Abort => {
                if let State::Running { sequence, .. } = self.state {
                    self.state = State::Running {
                        sequence,
                        step: 0,
                        start_time: now,
                        is_aborting: true,
                    };
                }
            },
            Transition::Stop => {
                self.state = State::NotRunning;
            },
        }
    }
}

/// What the sequencer task receives.
#[derive(Debug, PartialEq, Eq, Clone, Copy)]
pub enum Request {
    Start { sequence_id: u8 },
    Stop,
    Measurements { measurements: Measurements },
}

/// The first sequence with the given id.
pub open spec fn first_with_id(sequences: Seq<Sequence>, id: u8) -> Option<int>
    decreases sequences.len(),
{
    if sequences.len() == 0 {
        None
    } else if sequences[0].id == id {
        Some(0)
    } else {
        match first_with_id(sequences.drop_first(), id) {
            Some(i) => Some(i + 1),
            None => None,
        }
    }
}

/// Looks up a sequence by id: the index of the first sequence with that id.
pub fn find_sequence(sequences: &[Sequence], id: u8) -> (index: Option<usize>)
    ensures
        index is Some <==> first_with_id(sequences@, id) is Some,
        index matches Some(i) ==> first_with_id(sequences@, id) == Some(i as int),
        index matches Some(i) ==> i < sequences@.len(),
{
    let mut i: usize = 0;
    assert(sequences@.skip(0) =~= sequences@);
    while i < sequences.len()
        invariant
            0 <= i <= sequences@.len(),
            first_with_id(sequences@, id) == shifted(
                first_with_id(sequences@.skip(i as int), id),
                i as int,
            ),
        decreases sequences.len() - i,
    {
        assert(sequences@.skip(i as int).drop_first() =~= sequences@.skip(i + 1));
        if sequences[i].id == id {
            return Some(i);
        }
        i = i + 1;
    }
    None
}

/// What the sequencer task does with a request.
#[derive(Debug, PartialEq, Eq)]
pub enum Outcome {
    /// Nothing to do.
    Idle,
    /// No sequence has the requested id; the request is noted.
    UnknownSequence { sequence_id: u8 },
    /// Dispatch the command.
    Dispatch(Command),
    /// Remove the sequence's page from the display.
    RemovePage,
}

/// The sequencer task: its sequences, its execution and the last measurements.
pub struct Sequencer<'seq> {
    pub sequences: &'seq [Sequence],
    pub execution: Execution<'seq>,
    pub measurements: Measurements,
}

impl<'seq> Sequencer<'seq> {
    /// The task's invariant: all its sequences read measured pins only.
    pub open spec fn wf(self) -> bool {
        &&& forall|i: int| 0 <= i < self.sequences@.len() ==> (#[trigger] self.sequences@[i]).wf()
        &&& self.execution.wf()
    }

    /// A sequencer that runs nothing and has no measurements.
    pub fn new(sequences: &'seq [Sequence]) -> (sequencer: Self)
        requires
            forall|i: int| 0 <= i < sequences@.len() ==> (#[trigger] sequences@[i]).wf(),
        ensures
            sequencer.wf(),
            sequencer.sequences == sequences,
            sequencer.execution.state is NotRunning,
            forall|i: int| 0 <= i < MAX_NUM_MEASUREMENTS ==> sequencer.measurements@[i] == 0,
    {
        Sequencer { sequences, execution: Execution::new(), measurements: [0u8; 32] }
    }

    /// Handles a request that arrives at `now`: a start request starts the first sequence
    /// with the requested id, a stop request stops the execution, and measurements are kept
    /// for the next step.
    pub fn handle(&mut self, request: Request, now: u64) -> (outcome: Outcome)
        requires
            old(self).wf(),
        ensures
            final(self).wf(),
            final(self).sequences == old(self).sequences,
            match request {
                Request::Start { sequence_id } => match first_with_id(old(self).sequences@, sequence_id) {
                    None => {
                        &&& outcome == Outcome::UnknownSequence { sequence_id }
                        &&& final(self).execution.state == old(self).execution.state
                    },
                    Some(i) => {
                        &&& old(self).execution.state is NotRunning ==> {
                            &&& outcome == Outcome::Dispatch(Command::AddPage)
                            &&& final(self).execution.state == (State::Running {
                                sequence: &old(self).sequences@[i],
                                step: 0,
                                start_time: now,
                                is_aborting: false,
                            })
                        }
                        &&& old(self).execution.state is Running ==> {
                            &&& outcome == Outcome::Idle
                            &&& final(self).execution.state == old(self).execution.state
                        }
                    },
                },
                Request::Stop => {
                    &&& final(self).execution.state == after_stop(old(self).execution.state)
                    &&& outcome == if old(self).execution.state matches State::Running {
                        is_aborting: false,
                        ..
                    } {
                        Outcome::RemovePage
                    } else {
                        Outcome::Idle
                    }
                },
                Request::Measurements { measurements } => {
                    &&& final(self).measurements == measurements
                    &&& final(self).execution.state == old(self).execution.state
                    &&& outcome == Outcome::Idle
                },
            },
            !(request is Measurements) ==> final(self).measurements == old(self).measurements,
    {
        match request {
            Request::Start { sequence_id } => match find_sequence(self.sequences, sequence_id) {
                None => Outcome::UnknownSequence { sequence_id },
                Some(i) => {
                    let sequence = &self.sequences[i];
                    match self.execution.start(sequence, now) {
                        Some(command) => Outcome::Dispatch(command),
                        None => Outcome::Idle,
                    }
                },
            },
            Request::Stop => {
                if self.execution.stop() {
                    Outcome::RemovePage
                } else {
                    Outcome::Idle
                }
            },
            Request::Measurements { measurements } => {
                self.measurements = measurements;
                Outcome::Idle
            },
        }
    }
}

/// An idle execution only sleeps: it dispatches nothing and stays idle.
pub proof fn lemma_idle_execution_sleeps(measurements: Measurements, plan: StepPlan, now: u64)
    requires
        planned(State::NotRunning, measurements, plan),
    ensures
        plan.wait == Some(Wait::For(IDLE_SLEEP_US)),
        plan.first is None && plan.last is None,
        after_transition(State::NotRunning, plan.transition, now) is NotRunning,
{
}

/// A tripped guard of a running sequence aborts it at once: no wait and no command, and the
/// abort steps start from the first one, timed from now.
pub proof fn lemma_tripped_guard_aborts(
    sequence: &Sequence,
    step: usize,
    start_time: u64,
    measurements: Measurements,
    plan: StepPlan,
    now: u64,
)
    requires
        first_tripped_guard(sequence.guards@, measurements) is Some,
        planned(
            State::Running { sequence, step, start_time, is_aborting: false },
            measurements,
            plan,
        ),
    ensures
        plan == (StepPlan { wait: None, first: None, transition: Transition::Abort, last: None }),
        after_transition(
            State::Running { sequence, step, start_time, is_aborting: false },
            plan.transition,
            now,
        ) == (State::Running { sequence, step: 0, start_time: now, is_aborting: true }),
{
}

/// Once an execution runs its abort steps, nothing aborts it again: guards are not watched
/// and a failed test only waits for its deadline.
pub proof fn lemma_abort_steps_are_not_aborted(
    sequence: &Sequence,
    step: usize,
    start_time: u64,
    measurements: Measurements,
    plan: StepPlan,
)
    requires
        planned(
            State::Running { sequence, step, start_time, is_aborting: true },
            measurements,
            plan,
        ),
    ensures
        plan.transition != Transition::Abort,
{
}

/// A test of the main steps that fails waits for its deadline, then aborts the sequence.
pub proof fn lemma_failed_test_aborts_at_deadline(
    sequence: &Sequence,
    step: usize,
    start_time: u64,
    measurements: Measurements,
    plan: StepPlan,
)
    requires
        first_tripped_guard(sequence.guards@, measurements) is None,
        step < sequence.steps@.len(),
        sequence.steps@[step as int] matches Step::Test { condition, .. } && !condition_holds(
            condition,
            measurements,
        ),
        planned(
            State::Running { sequence, step, start_time, is_aborting: false },
            measurements,
            plan,
        ),
    ensures
        plan.transition == Transition::Abort,
        plan.wait == Some(
            Wait::Until((start_time + sequence.steps@[step as int]->Test_deadline) as u64),
        ),
{
}

/// When its steps are done, an execution removes its page and stops.
pub proof fn lemma_finished_sequence_stops(
    sequence: &Sequence,
    step: usize,
    start_time: u64,
    is_aborting: bool,
    measurements: Measurements,
    plan: StepPlan,
    now: u64,
)
    requires
        step >= active_steps(*sequence, is_aborting).len(),
        is_aborting || first_tripped_guard(sequence.guards@, measurements) is None,
        planned(State::Running { sequence, step, start_time, is_aborting }, measurements, plan),
    ensures
        plan.first == Some(Command::RemovePage),
        after_transition(
            State::Running { sequence, step, start_time, is_aborting },
            plan.transition,
            now,
        ) is NotRunning,
{
}

/// An execution only moves forward: a step either goes on to the next step of the same
/// steps, starts the abort steps from the first one (only from the main steps), or ends the
/// execution. The running sequence is never replaced, and once aborting, an execution keeps
/// running its abort steps until it ends.
pub proof fn lemma_execution_moves_forward<'seq>(
    sequence: &'seq Sequence,
    step: usize,
    start_time: u64,
    is_aborting: bool,
    measurements: Measurements,
    plan: StepPlan,
    now: u64,
)
    requires
        step < usize::MAX,
        planned(State::Running { sequence, step, start_time, is_aborting }, measurements, plan),
    ensures
        ({
            let next = after_transition(
                State::Running { sequence, step, start_time, is_aborting },
                plan.transition,
                now,
            );
            ||| next == State::Running { sequence, step: (step + 1) as usize, start_time, is_aborting }
            ||| !is_aborting && next == State::Running { sequence, step: 0, start_time: now, is_aborting: true }
            ||| next is NotRunning
        }),
        ({
            let next = after_transition(
                State::Running { sequence, step, start_time, is_aborting },
                plan.transition,
                now,
            );
            &&& next matches State::Running { sequence: s, .. } ==> s == sequence
            &&& is_aborting ==> (next is NotRunning || next->is_aborting)
        }),
{
}

/// A stop request ends an execution of the main steps and spares one of the abort steps.
pub proof fn lemma_stop_spares_abort_steps<'seq>(state: State<'seq>)
    ensures
        state matches State::Running { is_aborting: true, .. } ==> after_stop(state) == state,
        !(state matches State::Running { is_aborting: true, .. }) ==> after_stop(state) is NotRunning,
{
}

/// Each comparison of a condition is the standard relation between the pin's measurement and
/// the threshold: `Less` holds exactly when the measurement is below the threshold,
/// `LessOrEqual` when it is at most the threshold, and so on.
pub proof fn lemma_conditions_compare_as_named(condition: Condition, measurements: Measurements)
    ensures
        ({
            let value = measurements@[condition.pin as int];
            let threshold = condition.threshold;
            let holds = condition_holds(condition, measurements);
            &&& condition.comparison == Comparison::Less ==> (holds <==> value < threshold)
            &&& condition.comparison == Comparison::LessOrEqual ==> (holds <==> value <= threshold)
            &&& condition.comparison == Comparison::Equal ==> (holds <==> value == threshold)
            &&& condition.comparison == Comparison::NotEqual ==> (holds <==> value != threshold)
            &&& condition.comparison == Comparison::GreaterOrEqual ==> (holds <==> value >= threshold)
            &&& condition.comparison == Comparison::Greater ==> (holds <==> value > threshold)
        }),
{
}

/// A test step on a condition that holds lets the execution go on at once; a guard whose
/// condition holds trips. Here for a condition of the form "at most the threshold": a test
/// passes, and a guard trips, exactly when the measurement is at most the threshold.
pub proof fn lemma_at_most_conditions(pin: u8, threshold: u8, measurements: Measurements)
    ensures
        condition_holds(
            Condition { pin, comparison: Comparison::LessOrEqual, threshold },
            measurements,
        ) <==> measurements@[pin as int] <= threshold,
        first_tripped_guard(
            seq![Guard { id: 0, condition: Condition { pin, comparison: Comparison::LessOrEqual, threshold } }],
            measurements,
        ) is Some <==> measurements@[pin as int] <= threshold,
{
    reveal_with_fuel(first_tripped_guard, 2);
    let guards = seq![Guard { id: 0, condition: Condition { pin, comparison: Comparison::LessOrEqual, threshold } }];
    assert(guards.drop_first() =~= Seq::<Guard>::empty());
}

/// The tripped guard that a running sequence reports is the first guard whose condition
/// holds: the guards before it all hold back. When none is reported, no guard's condition
/// holds.
pub proof fn lemma_first_tripped_guard_is_first(guards: Seq<Guard>, measurements: Measurements)
    ensures
        first_tripped_guard(guards, measurements) matches Some(i) ==> {
            &&& 0 <= i < guards.len()
            &&& condition_holds(guards[i].condition, measurements)
            &&& forall|j: int| 0 <= j < i ==> !condition_holds(#[trigger] guards[j].condition, measurements)
        },
        first_tripped_guard(guards, measurements) is None ==> forall|j: int|
            0 <= j < guards.len() ==> !condition_holds(#[trigger] guards[j].condition, measurements),
    decreases guards.len(),
{
    if guards.len() > 0 {
        let rest = guards.drop_first();
        lemma_first_tripped_guard_is_first(rest, measurements);
        assert forall|j: int| 0 < j < guards.len() implies guards[j] == rest[j - 1] by {}
    }
}

/// The sequence that a start request names is the first sequence with that id; when none is
/// found, no sequence has it.
pub proof fn lemma_first_with_id_is_first(sequences: Seq<Sequence>, id: u8)
    ensures
        first_with_id(sequences, id) matches Some(i) ==> {
            &&& 0 <= i < sequences.len()
            &&& sequences[i].id == id
            &&& forall|j: int| 0 <= j < i ==> (#[trigger] sequences[j]).id != id
        },
        first_with_id(sequences, id) is None ==> forall|j: int|
            0 <= j < sequences.len() ==> (#[trigger] sequences[j]).id != id,
    decreases sequences.len(),
{
    if sequences.len() > 0 {
        let rest = sequences.drop_first();
        lemma_first_with_id_is_first(rest, id);
        assert forall|j: int| 0 < j < sequences.len() implies sequences[j] == rest[j - 1] by {}
    }
}

/// The plan of each kind of step of a running sequence whose guards hold back (or that runs
/// its abort steps): an `At` step waits until its deadline, counted from the start, then goes
/// on and clears the display; a test that holds goes on at once; a test that fails waits for
/// its deadline, then aborts the main steps or goes on with the abort steps; a `Do` step sends
/// its command and goes on; an `AddLine` step sends a display line with its label and value
/// and goes on.
pub proof fn lemma_step_plans(
    sequence: &Sequence,
    step: usize,
    start_time: u64,
    is_aborting: bool,
    measurements: Measurements,
    plan: StepPlan,
)
    requires
        is_aborting || first_tripped_guard(sequence.guards@, measurements) is None,
        step < active_steps(*sequence, is_aborting).len(),
        planned(State::Running { sequence, step, start_time, is_aborting }, measurements, plan),
    ensures
        ({
            let current = if is_aborting {
                sequence.abort@[step as int]
            } else {
                sequence.steps@[step as int]
            };
            match current {
                Step::At(deadline) => plan == (StepPlan {
                    wait: Some(Wait::Until((start_time + deadline) as u64)),
                    first: None,
                    transition: Transition::Advance,
                    last: Some(Command::ClearDisplay),
                }),
                Step::Test { condition, deadline } => if condition_holds(condition, measurements) {
                    plan == (StepPlan {
                        wait: None,
                        first: None,
                        transition: Transition::Advance,
                        last: None,
                    })
                } else {
                    plan == (StepPlan {
                        wait: Some(Wait::Until((start_time + deadline) as u64)),
                        first: None,
                        transition: if is_aborting {
                            Transition::Advance
                        } else {
                            Transition::Abort
                        },
                        last: None,
                    })
                },
                Step::Do(command) => plan == (StepPlan {
                    wait: None,
                    first: Some(command),
                    transition: Transition::Advance,
                    last: None,
                }),
                Step::AddLine { label, value } => {
                    &&& plan.wait is None
                    &&& plan.transition == Transition::Advance
                    &&& plan.last is None
                    &&& label.spec_bytes().len() <= LABEL_CAPACITY ==> (plan.first matches Some(
                        Command::AddLine { label: text, value: v },
                    ) && label_text(text) == label@ && v == value)
                    &&& label.spec_bytes().len() > LABEL_CAPACITY ==> plan.first is None
                },
            }
        }),
{
}

/// What each transition does to a running execution: `Stay` keeps it, `Advance` moves to the
/// next step of the same steps with the same start, `Abort` starts the abort steps from the
/// first one at `now`, and `Stop` ends it. An execution that is not running stays so.
pub proof fn lemma_transitions<'seq>(state: State<'seq>, transition: Transition, now: u64)
    requires
        transition_defined(state, transition),
    ensures
        transition == Transition::Stay ==> after_transition(state, transition, now) == state,
        transition == Transition::Stop ==> after_transition(state, transition, now) is NotRunning,
        state is NotRunning ==> after_transition(state, transition, now) is NotRunning,
        state matches State::Running { sequence, step, start_time, is_aborting } ==> {
            &&& transition == Transition::Advance ==> step + 1 <= usize::MAX && after_transition(
                state,
                transition,
                now,
            ) == (State::Running { sequence, step: (step + 1) as usize, start_time, is_aborting })
            &&& transition == Transition::Abort ==> after_transition(state, transition, now)
                == (State::Running { sequence, step: 0, start_time: now, is_aborting: true })
        },
{
}

} // verus!
