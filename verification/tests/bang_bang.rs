use pico::bang_bang::{run, update_display, Action, Controller, Event};
use pico::messages::{BangBang, Mode, Value};

fn measurements_with(pin: usize, value: u8) -> [u8; 32] {
    let mut measurements = [0u8; 32];
    measurements[pin] = value;
    measurements
}

fn water_tank_controller() -> Controller {
    let mut controller = Controller::new();
    assert_eq!(controller.handle(Event::SetInput { pin: 27 }), vec![Action::NotifyWatchdog]);
    assert_eq!(controller.handle(Event::SetOutput { pin: 6 }), vec![Action::NotifyWatchdog]);
    assert_eq!(controller.handle(Event::SetLowerLimit { value: 45 }), vec![Action::NotifyWatchdog]);
    assert_eq!(controller.handle(Event::SetUpperLimit { value: 50 }), vec![Action::NotifyWatchdog]);
    controller
}

#[test]
fn new_controller_is_off_and_hidden() {
    let controller = Controller::new();
    assert_eq!(
        controller.settings,
        BangBang { mode: Mode::Off, input_pin: 0, output_pin: 0, lower_limit: 0, upper_limit: 0 }
    );
    assert_eq!(controller.measurements, [0u8; 32]);
    assert!(!controller.visible);
}

#[test]
fn running_drives_output_with_twice_the_distance_to_the_upper_limit() {
    let mut settings = BangBang { mode: Mode::Running, input_pin: 27, output_pin: 6, lower_limit: 45, upper_limit: 50 };
    let measurements = measurements_with(27, 30);
    assert_eq!(run(&mut settings, &measurements), Some((6, 40)));
    assert_eq!(settings.mode, Mode::Running);
}

#[test]
fn running_leaves_output_that_already_has_the_value() {
    let mut settings = BangBang { mode: Mode::Running, input_pin: 27, output_pin: 6, lower_limit: 45, upper_limit: 50 };
    let mut measurements = measurements_with(27, 30);
    measurements[6] = 40;
    assert_eq!(run(&mut settings, &measurements), None);
}

#[test]
fn running_stops_and_waits_at_the_upper_limit() {
    let mut settings = BangBang { mode: Mode::Running, input_pin: 27, output_pin: 6, lower_limit: 45, upper_limit: 50 };
    let measurements = measurements_with(27, 50);
    assert_eq!(run(&mut settings, &measurements), Some((6, 0)));
    assert_eq!(settings.mode, Mode::Waiting);
}

#[test]
fn waiting_resumes_below_the_lower_limit_only() {
    let mut settings = BangBang { mode: Mode::Waiting, input_pin: 27, output_pin: 6, lower_limit: 45, upper_limit: 50 };
    assert_eq!(run(&mut settings, &measurements_with(27, 45)), None);
    assert_eq!(settings.mode, Mode::Waiting);
    assert_eq!(run(&mut settings, &measurements_with(27, 44)), None);
    assert_eq!(settings.mode, Mode::Running);
}

#[test]
fn off_does_nothing() {
    let mut settings = BangBang { mode: Mode::Off, input_pin: 27, output_pin: 6, lower_limit: 45, upper_limit: 50 };
    assert_eq!(run(&mut settings, &measurements_with(27, 0)), None);
    assert_eq!(settings.mode, Mode::Off);
}

#[test]
fn tick_reports_state_after_control() {
    let mut controller = water_tank_controller();
    controller.handle(Event::Start);
    controller.handle(Event::Measurements { measurements: measurements_with(27, 10) });
    let actions = controller.handle(Event::Tick);
    let settings = BangBang { mode: Mode::Running, input_pin: 27, output_pin: 6, lower_limit: 45, upper_limit: 50 };
    assert_eq!(actions, vec![Action::SetAnalog { pin: 6, value: 80 }, Action::SendState { settings }, Action::NotifyWatchdog]);
}

#[test]
fn hysteresis_cycle() {
    let mut controller = water_tank_controller();
    controller.handle(Event::Start);
    controller.handle(Event::Measurements { measurements: measurements_with(27, 52) });
    let actions = controller.handle(Event::Tick);
    assert_eq!(actions[0], Action::SetAnalog { pin: 6, value: 0 });
    assert_eq!(controller.settings.mode, Mode::Waiting);
    controller.handle(Event::Measurements { measurements: measurements_with(27, 47) });
    let actions = controller.handle(Event::Tick);
    assert_eq!(actions.len(), 2);
    assert_eq!(controller.settings.mode, Mode::Waiting);
    controller.handle(Event::Measurements { measurements: measurements_with(27, 40) });
    controller.handle(Event::Tick);
    assert_eq!(controller.settings.mode, Mode::Running);
    let actions = controller.handle(Event::Tick);
    assert_eq!(actions[0], Action::SetAnalog { pin: 6, value: 20 });
}

#[test]
fn stop_switches_off_and_zeroes_output() {
    let mut controller = water_tank_controller();
    controller.handle(Event::Start);
    let actions = controller.handle(Event::Stop);
    assert_eq!(actions, vec![Action::SetAnalog { pin: 6, value: 0 }, Action::NotifyWatchdog]);
    assert_eq!(controller.settings.mode, Mode::Off);
}

#[test]
fn show_draws_the_page_and_hide_removes_it() {
    let mut controller = water_tank_controller();
    let before = controller;
    let actions = controller.handle(Event::Show);
    assert_eq!(
        actions,
        vec![
            Action::AddPage,
            Action::ClearDisplay,
            Action::AddText { label: "Controller", value: Value::Boolean(false) },
            Action::AddText { label: "Output", value: Value::Analog(6) },
            Action::AddText { label: "Upper limit", value: Value::Number(50) },
            Action::AddText { label: "Input", value: Value::Analog(27) },
            Action::AddText { label: "Lower limit", value: Value::Number(45) },
            Action::RefreshDisplay,
            Action::NotifyWatchdog,
        ]
    );
    assert_eq!(controller.handle(Event::Show), vec![Action::NotifyWatchdog]);
    assert_eq!(controller.handle(Event::Hide), vec![Action::RemovePage, Action::NotifyWatchdog]);
    assert_eq!(controller, before);
    assert_eq!(controller.handle(Event::Hide), vec![Action::NotifyWatchdog]);
}

#[test]
fn visible_stop_redraws() {
    let mut controller = water_tank_controller();
    controller.handle(Event::Show);
    controller.handle(Event::Start);
    let actions = controller.handle(Event::Stop);
    assert_eq!(actions[0], Action::SetAnalog { pin: 6, value: 0 });
    assert_eq!(actions[1], Action::ClearDisplay);
    assert_eq!(actions[2], Action::AddText { label: "Controller", value: Value::Boolean(false) });
    assert_eq!(actions.len(), 9);
    assert_eq!(actions.last(), Some(&Action::NotifyWatchdog));
}

#[test]
fn hidden_controller_does_not_draw() {
    let settings = BangBang { mode: Mode::Running, input_pin: 1, output_pin: 2, lower_limit: 3, upper_limit: 4 };
    assert!(update_display(&settings, false).is_empty());
    let shown = update_display(&settings, true);
    assert_eq!(shown.first(), Some(&Action::ClearDisplay));
    assert_eq!(shown[1], Action::AddText { label: "Controller", value: Value::Boolean(true) });
    assert_eq!(shown.last(), Some(&Action::RefreshDisplay));
}

#[test]
fn output_stays_within_twice_the_documented_limit() {
    let mut settings = BangBang { mode: Mode::Running, input_pin: 0, output_pin: 1, lower_limit: 0, upper_limit: 100 };
    let measurements = measurements_with(1, 7);
    assert_eq!(run(&mut settings, &measurements), Some((1, 200)));
}

#[test]
fn off_controller_only_reports_on_tick() {
    let mut controller = water_tank_controller();
    let before = controller;
    let actions = controller.handle(Event::Tick);
    assert_eq!(actions, vec![Action::SendState { settings: before.settings }, Action::NotifyWatchdog]);
    assert_eq!(controller, before);
}

#[test]
fn pages_balance_over_show_and_hide() {
    let mut controller = water_tank_controller();
    let events = [Event::Show, Event::Show, Event::Start, Event::Hide, Event::Hide, Event::Show, Event::Stop];
    let mut balance = 0i32;
    for event in events {
        for action in controller.handle(event) {
            match action {
                Action::AddPage => balance += 1,
                Action::RemovePage => balance -= 1,
                _ => {}
            }
        }
        assert_eq!(balance, if controller.visible { 1 } else { 0 });
    }
    assert!(controller.visible);
}
