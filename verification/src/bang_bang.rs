//! The bang bang controller: a two-point controller with hysteresis.
//!
//! While running it drives an analog output in proportion to how far the input is below the
//! upper limit; once the input reaches the upper limit it switches the output off and waits
//! until the input falls below the lower limit.
use vstd::prelude::*;
use crate::messages::{BangBang, Measurements, Mode, Value, MAX_NUM_MEASUREMENTS};

verus! {

/// What the controller task receives.
#[derive(Debug, PartialEq, Eq, Clone, Copy)]
pub enum Event {
    /// The period of the controller has elapsed.
    Tick,
    Start,
    Stop,
    SetInput { pin: u8 },
    SetOutput { pin: u8 },
    SetLowerLimit { value: u8 },
    SetUpperLimit { value: u8 },
    Show,
    Hide,
    Measurements { measurements: Measurements },
}

/// What the controller task asks of the rest of the system, in order.
#[derive(Debug, PartialEq, Eq, Clone, Copy)]
pub enum Action {
    /// Set the duty cycle of an analog output.
    SetAnalog { pin: u8, value: u8 },
    /// Report the settings, with the diagnostics of this period.
    SendState { settings: BangBang },
    /// Push a page onto the display.
    AddPage,
    /// Pop the controller's page from the display.
    RemovePage,
    /// Empty the current display page.
    ClearDisplay,
    /// Add a line to the current display page.
    AddText { label: &'static str, value: Value },
    /// Redraw the display.
    RefreshDisplay,
    /// Tell the watchdog that the controller made progress.
    NotifyWatchdog,
}

/// The state of the controller task.
#[derive(Debug, PartialEq, Eq, Clone, Copy)]
pub struct Controller {
    pub settings: BangBang,
    pub measurements: Measurements,
    pub visible: bool,
}

/// The measurement of a pin.
pub open spec fn reading(measurements: Measurements, pin: u8) -> u8 {
    measurements@[pin as int]
}

/// The inputs on which one control step is defined: the pins it reads are measured pins, and
/// the output it computes fits in a byte.
pub open spec fn run_defined(settings: BangBang, measurements: Measurements) -> bool {
    &&& settings.mode != Mode::Off ==> settings.input_pin < MAX_NUM_MEASUREMENTS
    &&& (settings.mode == Mode::Running && reading(measurements, settings.input_pin)
        < settings.upper_limit) ==> {
        &&& settings.output_pin < MAX_NUM_MEASUREMENTS
        &&& (settings.upper_limit - reading(measurements, settings.input_pin)) * 2 <= 255
    }
}

/// One control step: the new settings, and the analog output to set, if any.
pub open spec fn control(settings: BangBang, measurements: Measurements) -> (BangBang, Option<
    (u8, u8),
>) {
    match settings.mode {
        Mode::Off => (settings, None),
        Mode::Running => {
            let value = reading(measurements, settings.input_pin);
            if value < settings.upper_limit {
                let output = ((settings.upper_limit - value) * 2) as u8;
                if output != reading(measurements, settings.output_pin) {
                    (settings, Some((settings.output_pin, output)))
                } else {
                    (settings, None)
                }
            } else {
                (BangBang { mode: Mode::Waiting, ..settings }, Some((settings.output_pin, 0u8)))
            }
        },
        Mode::Waiting => {
            if reading(measurements, settings.input_pin) < settings.lower_limit {
                (BangBang { mode: Mode::Running, ..settings }, None)
            } else {
                (settings, None)
            }
        },
    }
}

/// The lines that the controller's display page shows.
pub open spec fn display_lines(settings: BangBang) -> Seq<Action> {
    seq![
        Action::AddText { label: "Controller", value: Value::Boolean(settings.mode != Mode::Off) },
        Action::AddText { label: "Output", value: Value::Analog(settings.output_pin) },
        Action::AddText { label: "Upper limit", value: Value::Number(settings.upper_limit) },
        Action::AddText { label: "Input", value: Value::Analog(settings.input_pin) },
        Action::AddText { label: "Lower limit", value: Value::Number(settings.lower_limit) },
    ]
}

/// Redrawing the controller's page: nothing while it is hidden.
pub open spec fn display_update(settings: BangBang, visible: bool) -> Seq<Action> {
    if visible {
        seq![Action::ClearDisplay] + display_lines(settings) + seq![Action::RefreshDisplay]
    } else {
        Seq::empty()
    }
}

/// The events that the controller handles without fault.
pub open spec fn event_defined(controller: Controller, event: Event) -> bool {
    event == Event::Tick ==> run_defined(controller.settings, controller.measurements)
}

/// The controller's reaction to an event, before it tells the watchdog: its next state and
/// its actions, in order.
pub open spec fn reaction(controller: Controller, event: Event) -> (Controller, Seq<Action>) {
    let settings = controller.settings;
    match event {
        Event::Tick => {
            let (next, output) = control(settings, controller.measurements);
            let set = match output {
                Some((pin, value)) => seq![Action::SetAnalog { pin, value }],
                None => Seq::empty(),
            };
            (
                Controller { settings: next, ..controller },
                set + seq![Action::SendState { settings: next }],
            )
        },
        Event::Start => {
            let next = BangBang { mode: Mode::Running, ..settings };
            (Controller { settings: next, ..controller }, display_update(next, controller.visible))
        },
        Event::Stop => {
            let next = BangBang { mode: Mode::Off, ..settings };
            (
                Controller { settings: next, ..controller },
                seq![Action::SetAnalog { pin: settings.output_pin, value: 0 }] + display_update(
                    next,
                    controller.visible,
                ),
            )
        },
        Event::SetInput { pin } => (
            Controller { settings: BangBang { input_pin: pin, ..settings }, ..controller },
            Seq::empty(),
        ),
        Event::SetOutput { pin } => (
            Controller { settings: BangBang { output_pin: pin, ..settings }, ..controller },
            Seq::empty(),
        ),
        Event::SetLowerLimit { value } => {
            let next = BangBang { lower_limit: value, ..settings };
            (Controller { settings: next, ..controller }, display_update(next, controller.visible))
        },
        Event::SetUpperLimit { value } => {
            let next = BangBang { upper_limit: value, ..settings };
            (Controller { settings: next, ..controller }, display_update(next, controller.visible))
        },
        Event::Show => {
            if controller.visible {
                (controller, Seq::empty())
            } else {
                (
                    Controller { visible: true, ..controller },
                    seq![Action::AddPage] + display_update(settings, true),
                )
            }
        },
        Event::Hide => {
            if controller.visible {
                (Controller { visible: false, ..controller }, seq![Action::RemovePage])
            } else {
                (controller, Seq::empty())
            }
        },
        Event::Measurements { measurements } => (
            Controller { measurements, ..controller },
            Seq::empty(),
        ),
    }
}

/// The controller's step on an event: its reaction, after which it tells the watchdog that
/// it made progress.
pub open spec fn step(controller: Controller, event: Event) -> (Controller, Seq<Action>) {
    (reaction(controller, event).0, reaction(controller, event).1 + seq![Action::NotifyWatchdog])
}

/// One control step on the settings: it updates the mode and returns the analog output to set,
/// as `(pin, value)`, if any.
pub fn run(settings: &mut BangBang, measurements: &Measurements) -> (output: Option<(u8, u8)>)
    requires
        run_defined(*old(settings), *measurements),
    ensures
        (*final(settings), output) == control(*old(settings), *measurements),
{
    match settings.mode {
        Mode::Off => None,
        Mode::Running => {
            let value = measurements[settings.input_pin as usize];
            if value < settings.upper_limit {
                let value = (settings.upper_limit - value) * 2;
                if value != measurements[settings.output_pin as usize] {
                    Some((settings.output_pin, value))
                } else {
                    None
                }
            } else {
                settings.mode = Mode::Waiting;
                Some((settings.output_pin, 0))
            }
        },
        Mode::Waiting => {
            let value = measurements[settings.input_pin as usize];
            if value < settings.lower_limit {
                settings.mode = Mode::Running;
            }
            None
        },
    }
}

/// The display actions that redraw the controller's page, if it is visible.
pub fn update_display(settings: &BangBang, visible: bool) -> (actions: Vec<Action>)
    ensures
        actions@ == display_update(*settings, visible),
{
    let mut actions: Vec<Action> = Vec::new();
    if !visible {
        return actions;
    }
    let enabled = settings.mode != Mode::Off;
    actions.push(Action::ClearDisplay);
    actions.push(Action::AddText { label: "Controller", value: Value::Boolean(enabled) });
    actions.push(Action::AddText { label: "Output", value: Value::Analog(settings.output_pin) });
    actions.push(
        Action::AddText { label: "Upper limit", value: Value::Number(settings.upper_limit) },
    );
    actions.push(Action::AddText { label: "Input", value: Value::Analog(settings.input_pin) });
    actions.push(
        Action::AddText { label: "Lower limit", value: Value::Number(settings.lower_limit) },
    );
    actions.push(Action::RefreshDisplay);
    assert(actions@ == display_update(*settings, visible));
    actions
}

impl Controller {
    /// The controller at power on: off, on pin 0 for input and output, with both limits 0,
    /// no measurements and no display page.
    pub fn new() -> (controller: Controller)
        ensures
            controller.settings == (BangBang {
                mode: Mode::Off,
                input_pin: 0,
                output_pin: 0,
                lower_limit: 0,
                upper_limit: 0,
            }),
            forall|i: int| 0 <= i < 32 ==> controller.measurements@[i] == 0,
            !controller.visible,
    {
        Controller {
            settings: BangBang {
                mode: Mode::Off,
                input_pin: 0,
                output_pin: 0,
                lower_limit: 0,
                upper_limit: 0,
            },
            measurements: [0u8; 32],
            visible: false,
        }
    }

    /// Handles one event: updates the controller and returns what to do, in order; the last
    /// action tells the watchdog that the controller made progress.
    pub fn handle(&mut self, event: Event) -> (actions: Vec<Action>)
        requires
            event_defined(*old(self), event),
        ensures
            (*final(self), actions@) == step(*old(self), event),
    {
        let mut actions = self.react(event);
        actions.push(Action::NotifyWatchdog);
        actions
    }

    fn react(&mut self, event: Event) -> (actions: Vec<Action>)
        requires
            event_defined(*old(self), event),
        ensures
            (*final(self), actions@) == reaction(*old(self), event),
    {
        match event {
            Event::Tick => {
                let output = run(&mut self.settings, &self.measurements);
                let mut actions: Vec<Action> = Vec::new();
                if let Some((pin, value)) = output {
                    actions.push(Action::SetAnalog { pin, value });
                }
                actions.push(Action::SendState { settings: self.settings });
                actions
            },
            Event::Start => {
                self.settings.mode = Mode::Running;
                update_display(&self.settings, self.visible)
            },
            Event::Stop => {
                let mut actions: Vec<Action> = Vec::new();
                actions.push(Action::SetAnalog { pin: self.settings.output_pin, value: 0 });
                self.settings.mode = Mode::Off;
                let mut display = update_display(&self.settings, self.visible);
                actions.append(&mut display);
                actions
            },
            Event::SetInput { pin } => {
                self.settings.input_pin = pin;
                Vec::new()
            },
            Event::SetOutput { pin } => {
                self.settings.output_pin = pin;
                Vec::new()
            },
            Event::SetLowerLimit { value } => {
                self.settings.lower_limit = value;
                update_display(&self.settings, self.visible)
            },
            Event::SetUpperLimit { value } => {
                self.settings.upper_limit = value;
                update_display(&self.settings, self.visible)
            },
            Event::Show => {
                if !self.visible {
                    let mut actions: Vec<Action> = Vec::new();
                    actions.push(Action::AddPage);
                    self.visible = true;
                    let mut display = update_display(&self.settings, self.visible);
                    actions.append(&mut display);
                    actions
                } else {
                    Vec::new()
                }
            },
            Event::Hide => {
                if self.visible {
                    let mut actions: Vec<Action> = Vec::new();
                    actions.push(Action::RemovePage);
                    self.visible = false;
                    actions
                } else {
                    Vec::new()
                }
            },
            Event::Measurements { measurements } => {
                self.measurements = measurements;
                Vec::new()
            },
        }
    }
}

/// Whether an action draws on the display.
pub open spec fn is_display_action(action: Action) -> bool {
    match action {
        Action::SetAnalog { .. } | Action::SendState { .. } | Action::NotifyWatchdog => false,
        _ => true,
    }
}

/// Stopping switches the controller off, first sets its output to zero, and keeps the other
/// settings.
pub proof fn lemma_stop_switches_off(controller: Controller)
    ensures
        step(controller, Event::Stop).0.settings == (BangBang {
            mode: Mode::Off,
            ..controller.settings
        }),
        step(controller, Event::Stop).1[0] == (Action::SetAnalog {
            pin: controller.settings.output_pin,
            value: 0,
        }),
{
}

/// Showing a hidden controller and hiding it again leaves it as it was, and the hiding only
/// removes the page.
pub proof fn lemma_show_then_hide(controller: Controller)
    requires
        !controller.visible,
    ensures
        step(step(controller, Event::Show).0, Event::Hide).0 == controller,
        step(step(controller, Event::Show).0, Event::Hide).1 == seq![
            Action::RemovePage,
            Action::NotifyWatchdog,
        ],
{
    assert(step(step(controller, Event::Show).0, Event::Hide).1 =~= seq![
        Action::RemovePage,
        Action::NotifyWatchdog,
    ]);
}

/// While the controller is hidden, nothing but showing it draws on the display.
pub proof fn lemma_hidden_draws_nothing(controller: Controller, event: Event)
    requires
        !controller.visible,
        event != Event::Show,
    ensures
        forall|i: int|
            0 <= i < step(controller, event).1.len() ==> !is_display_action(
                #[trigger] step(controller, event).1[i],
            ),
{
}

/// Once a running controller's input reaches the upper limit, a tick switches the output off
/// and makes it wait.
pub proof fn lemma_running_stops_at_upper_limit(controller: Controller)
    requires
        controller.settings.mode == Mode::Running,
        run_defined(controller.settings, controller.measurements),
        reading(controller.measurements, controller.settings.input_pin)
            >= controller.settings.upper_limit,
    ensures
        step(controller, Event::Tick).0.settings.mode == Mode::Waiting,
        step(controller, Event::Tick).1[0] == (Action::SetAnalog {
            pin: controller.settings.output_pin,
            value: 0,
        }),
{
}

/// While a running controller's input is below the upper limit, a tick keeps it running and
/// drives the output with twice the distance to the upper limit, unless it already has that
/// value.
pub proof fn lemma_running_output_is_proportional(controller: Controller)
    requires
        controller.settings.mode == Mode::Running,
        run_defined(controller.settings, controller.measurements),
        reading(controller.measurements, controller.settings.input_pin)
            < controller.settings.upper_limit,
    ensures
        ({
            let output = (controller.settings.upper_limit - reading(
                controller.measurements,
                controller.settings.input_pin,
            )) * 2;
            let actions = step(controller, Event::Tick).1;
            &&& step(controller, Event::Tick).0 == controller
            &&& output != reading(controller.measurements, controller.settings.output_pin)
                ==> actions[0] == (Action::SetAnalog {
                pin: controller.settings.output_pin,
                value: output as u8,
            })
            &&& output == reading(controller.measurements, controller.settings.output_pin)
                ==> actions == seq![
                Action::SendState { settings: controller.settings },
                Action::NotifyWatchdog,
            ]
        }),
{
}

/// A waiting controller resumes once its input falls below the lower limit, and keeps waiting
/// otherwise; while waiting a tick never sets the output.
pub proof fn lemma_waiting_resumes_below_lower_limit(controller: Controller)
    requires
        controller.settings.mode == Mode::Waiting,
        run_defined(controller.settings, controller.measurements),
    ensures
        step(controller, Event::Tick).0.settings.mode == (if reading(
            controller.measurements,
            controller.settings.input_pin,
        ) < controller.settings.lower_limit {
            Mode::Running
        } else {
            Mode::Waiting
        }),
        step(controller, Event::Tick).1 == seq![
            Action::SendState { settings: step(controller, Event::Tick).0.settings },
            Action::NotifyWatchdog,
        ],
{
    assert(step(controller, Event::Tick).1 =~= seq![
        Action::SendState { settings: step(controller, Event::Tick).0.settings },
        Action::NotifyWatchdog,
    ]);
}

/// A controller that is off does nothing on a tick but report its settings.
pub proof fn lemma_off_is_inert(controller: Controller)
    requires
        controller.settings.mode == Mode::Off,
    ensures
        step(controller, Event::Tick).0 == controller,
        step(controller, Event::Tick).1 == seq![
            Action::SendState { settings: controller.settings },
            Action::NotifyWatchdog,
        ],
{
    assert(step(controller, Event::Tick).1 =~= seq![
        Action::SendState { settings: controller.settings },
        Action::NotifyWatchdog,
    ]);
}

/// With limits in the documented range 0 to 100, a tick never drives the output above 200.
pub proof fn lemma_output_at_most_twice_the_limit(controller: Controller)
    requires
        controller.settings.upper_limit <= 100,
        run_defined(controller.settings, controller.measurements),
    ensures
        forall|i: int|
            0 <= i < step(controller, Event::Tick).1.len() ==> (#[trigger] step(
                controller,
                Event::Tick,
            ).1[i] matches Action::SetAnalog { value, .. } ==> value <= 200),
{
}

/// Changing a pin, a limit or the measurements never changes the controller's mode.
pub proof fn lemma_settings_keep_mode(controller: Controller, event: Event)
    requires
        event matches Event::SetInput { .. } || event matches Event::SetOutput { .. }
            || event matches Event::SetLowerLimit { .. } || event matches Event::SetUpperLimit {
            ..
        } || event matches Event::Measurements { .. },
    ensures
        step(controller, event).0.settings.mode == controller.settings.mode,
        step(controller, event).0.visible == controller.visible,
{
}

/// How many display pages a list of actions adds, less those it removes.
pub open spec fn page_balance(actions: Seq<Action>) -> int
    decreases actions.len(),
{
    if actions.len() == 0 {
        0
    } else {
        page_balance(actions.drop_last()) + match actions.last() {
            Action::AddPage => 1int,
            Action::RemovePage => -1int,
            _ => 0int,
        }
    }
}

/// The number of pages that a controller of the given visibility holds on the display.
pub open spec fn pages_held(visible: bool) -> int {
    if visible {
        1
    } else {
        0
    }
}

/// The controller's steps on a list of events, in order: its final state and all its actions.
pub open spec fn steps(controller: Controller, events: Seq<Event>) -> (Controller, Seq<Action>)
    decreases events.len(),
{
    if events.len() == 0 {
        (controller, Seq::empty())
    } else {
        let first = step(controller, events[0]);
        let rest = steps(first.0, events.drop_first());
        (rest.0, first.1 + rest.1)
    }
}

proof fn lemma_page_balance_append(a: Seq<Action>, b: Seq<Action>)
    ensures
        page_balance(a + b) == page_balance(a) + page_balance(b),
    decreases b.len(),
{
    if b.len() == 0 {
        assert(a + b =~= a);
    } else {
        assert((a + b).drop_last() =~= a + b.drop_last());
        lemma_page_balance_append(a, b.drop_last());
    }
}

proof fn lemma_display_update_keeps_pages(settings: BangBang, visible: bool)
    ensures
        page_balance(display_update(settings, visible)) == 0,
{
    reveal_with_fuel(page_balance, 8);
}

proof fn lemma_step_page_balance(controller: Controller, event: Event)
    ensures
        page_balance(step(controller, event).1) == pages_held(step(controller, event).0.visible)
            - pages_held(controller.visible),
{
    let r = reaction(controller, event);
    lemma_page_balance_append(r.1, seq![Action::NotifyWatchdog]);
    reveal_with_fuel(page_balance, 3);
    let settings = controller.settings;
    match event {
        Event::Tick => {
            let (next, output) = control(settings, controller.measurements);
            let set = match output {
                Some((pin, value)) => seq![Action::SetAnalog { pin, value }],
                None => Seq::<Action>::empty(),
            };
            lemma_page_balance_append(set, seq![Action::SendState { settings: next }]);
        },
        Event::Start => {
            lemma_display_update_keeps_pages(
                BangBang { mode: Mode::Running, ..settings },
                controller.visible,
            );
        },
        Event::Stop => {
            let next = BangBang { mode: Mode::Off, ..settings };
            lemma_display_update_keeps_pages(next, controller.visible);
            lemma_page_balance_append(
                seq![Action::SetAnalog { pin: settings.output_pin, value: 0 }],
                display_update(next, controller.visible),
            );
        },
        Event::SetLowerLimit { value } => {
            lemma_display_update_keeps_pages(
                BangBang { lower_limit: value, ..settings },
                controller.visible,
            );
        },
        Event::SetUpperLimit { value } => {
            lemma_display_update_keeps_pages(
                BangBang { upper_limit: value, ..settings },
                controller.visible,
            );
        },
        Event::Show => {
            if !controller.visible {
                lemma_display_update_keeps_pages(settings, true);
                lemma_page_balance_append(seq![Action::AddPage], display_update(settings, true));
            }
        },
        _ => {},
    }
}

/// The controller's display pages follow its visibility: over any list of events, the pages
/// it adds less those it removes are the pages it holds at the end less those it held at the
/// start. A controller that starts hidden therefore holds, after any events, one page when it
/// is visible and none otherwise, and never removes more pages than it added.
pub proof fn lemma_pages_follow_visibility(controller: Controller, events: Seq<Event>)
    ensures
        page_balance(steps(controller, events).1) == pages_held(steps(controller, events).0.visible)
            - pages_held(controller.visible),
        !controller.visible ==> page_balance(steps(controller, events).1) == pages_held(
            steps(controller, events).0.visible,
        ),
        !controller.visible ==> 0 <= page_balance(steps(controller, events).1) <= 1,
    decreases events.len(),
{
    if events.len() > 0 {
        let first = step(controller, events[0]);
        lemma_step_page_balance(controller, events[0]);
        lemma_pages_follow_visibility(first.0, events.drop_first());
        lemma_page_balance_append(first.1, steps(first.0, events.drop_first()).1);
    }
}

/// Showing a controller that is already shown, or hiding one that is already hidden, asks
/// nothing of the display and changes nothing.
pub proof fn lemma_repeated_show_hide_does_nothing(controller: Controller)
    ensures
        controller.visible ==> step(controller, Event::Show) == (controller, seq![Action::NotifyWatchdog]),
        !controller.visible ==> step(controller, Event::Hide) == (controller, seq![Action::NotifyWatchdog]),
{
    assert(Seq::<Action>::empty() + seq![Action::NotifyWatchdog] =~= seq![Action::NotifyWatchdog]);
}

/// Starting, stopping and changing a limit redraw the controller's page with the new settings
/// while it is shown, and draw nothing while it is hidden. Start runs the controller, stop
/// switches it off after setting its output to zero, and a limit event sets that limit. The
/// page shows, in order: whether the controller is on, its output pin, its upper limit, its
/// input pin and its lower limit.
pub proof fn lemma_changes_redraw_the_page(controller: Controller, event: Event)
    requires
        event is Start || event is Stop || event is SetLowerLimit || event is SetUpperLimit,
    ensures
        ({
            let old_settings = controller.settings;
            let (next, actions) = step(controller, event);
            let s = next.settings;
            let page = seq![
                Action::ClearDisplay,
                Action::AddText { label: "Controller", value: Value::Boolean(s.mode != Mode::Off) },
                Action::AddText { label: "Output", value: Value::Analog(s.output_pin) },
                Action::AddText { label: "Upper limit", value: Value::Number(s.upper_limit) },
                Action::AddText { label: "Input", value: Value::Analog(s.input_pin) },
                Action::AddText { label: "Lower limit", value: Value::Number(s.lower_limit) },
                Action::RefreshDisplay,
            ];
            let drawn = if controller.visible {
                page
            } else {
                Seq::<Action>::empty()
            };
            &&& next.visible == controller.visible
            &&& next.measurements == controller.measurements
            &&& event is Start ==> s == BangBang { mode: Mode::Running, ..old_settings }
            &&& event is Stop ==> s == BangBang { mode: Mode::Off, ..old_settings }
            &&& event matches Event::SetLowerLimit { value } ==> s == BangBang {
                lower_limit: value,
                ..old_settings
            }
            &&& event matches Event::SetUpperLimit { value } ==> s == BangBang {
                upper_limit: value,
                ..old_settings
            }
            &&& event is Stop ==> actions == seq![
                Action::SetAnalog { pin: old_settings.output_pin, value: 0 },
            ] + drawn + seq![Action::NotifyWatchdog]
            &&& !(event is Stop) ==> actions == drawn + seq![Action::NotifyWatchdog]
        }),
{
    let (next, actions) = step(controller, event);
    let s = next.settings;
    let page = seq![
        Action::ClearDisplay,
        Action::AddText { label: "Controller", value: Value::Boolean(s.mode != Mode::Off) },
        Action::AddText { label: "Output", value: Value::Analog(s.output_pin) },
        Action::AddText { label: "Upper limit", value: Value::Number(s.upper_limit) },
        Action::AddText { label: "Input", value: Value::Analog(s.input_pin) },
        Action::AddText { label: "Lower limit", value: Value::Number(s.lower_limit) },
        Action::RefreshDisplay,
    ];
    assert(display_update(s, true) =~= page);
    assert(display_update(s, false) =~= Seq::<Action>::empty());
    if event is Stop {
        assert(actions =~= seq![Action::SetAnalog { pin: controller.settings.output_pin, value: 0 }]
            + display_update(s, controller.visible) + seq![Action::NotifyWatchdog]);
    }
}

/// Choosing the input or output pin sets that pin and nothing else, and new measurements
/// replace the controller's measurements and nothing else; none of them asks anything of the
/// display or the outputs.
pub proof fn lemma_pins_and_measurements_are_recorded(controller: Controller, event: Event)
    requires
        event is SetInput || event is SetOutput || event is Measurements,
    ensures
        ({
            let (next, actions) = step(controller, event);
            &&& actions == seq![Action::NotifyWatchdog]
            &&& next.visible == controller.visible
            &&& event matches Event::SetInput { pin } ==> next == (Controller {
                settings: BangBang { input_pin: pin, ..controller.settings },
                ..controller
            })
            &&& event matches Event::SetOutput { pin } ==> next == (Controller {
                settings: BangBang { output_pin: pin, ..controller.settings },
                ..controller
            })
            &&& event matches Event::Measurements { measurements } ==> next == (Controller {
                measurements,
                ..controller
            })
        }),
{
    assert(Seq::<Action>::empty() + seq![Action::NotifyWatchdog] =~= seq![Action::NotifyWatchdog]);
}

/// Showing a hidden controller adds a page and draws it with the current settings; hiding a
/// shown controller removes its page. Neither changes the settings.
pub proof fn lemma_show_draws_and_hide_removes(controller: Controller)
    ensures
        ({
            let s = controller.settings;
            let page = seq![
                Action::AddPage,
                Action::ClearDisplay,
                Action::AddText { label: "Controller", value: Value::Boolean(s.mode != Mode::Off) },
                Action::AddText { label: "Output", value: Value::Analog(s.output_pin) },
                Action::AddText { label: "Upper limit", value: Value::Number(s.upper_limit) },
                Action::AddText { label: "Input", value: Value::Analog(s.input_pin) },
                Action::AddText { label: "Lower limit", value: Value::Number(s.lower_limit) },
                Action::RefreshDisplay,
                Action::NotifyWatchdog,
            ];
            &&& !controller.visible ==> step(controller, Event::Show) == (
                Controller { visible: true, ..controller },
                page,
            )
            &&& controller.visible ==> step(controller, Event::Hide) == (
                Controller { visible: false, ..controller },
                seq![Action::RemovePage, Action::NotifyWatchdog],
            )
        }),
{
    let s = controller.settings;
    assert(seq![Action::AddPage] + display_update(s, true) + seq![Action::NotifyWatchdog] =~= seq![
        Action::AddPage,
        Action::ClearDisplay,
        Action::AddText { label: "Controller", value: Value::Boolean(s.mode != Mode::Off) },
        Action::AddText { label: "Output", value: Value::Analog(s.output_pin) },
        Action::AddText { label: "Upper limit", value: Value::Number(s.upper_limit) },
        Action::AddText { label: "Input", value: Value::Analog(s.input_pin) },
        Action::AddText { label: "Lower limit", value: Value::Number(s.lower_limit) },
        Action::RefreshDisplay,
        Action::NotifyWatchdog,
    ]);
    assert(seq![Action::RemovePage] + seq![Action::NotifyWatchdog] =~= seq![
        Action::RemovePage,
        Action::NotifyWatchdog,
    ]);
}

/// A tick reports the controller's settings after the control step, as the last action before
/// telling the watchdog, and changes nothing but the mode; it sets an output at most once,
/// before the report.
pub proof fn lemma_tick_reports_its_settings(controller: Controller)
    ensures
        ({
            let (next, actions) = step(controller, Event::Tick);
            &&& next == (Controller { settings: BangBang { mode: next.settings.mode, ..controller.settings }, ..controller })
            &&& actions.len() >= 2
            &&& actions.len() <= 3
            &&& actions[actions.len() - 2] == (Action::SendState { settings: next.settings })
            &&& actions.last() == Action::NotifyWatchdog
            &&& actions.len() == 3 ==> (actions[0] matches Action::SetAnalog { pin, .. } && pin
                == controller.settings.output_pin)
        }),
{
}

} // verus!
