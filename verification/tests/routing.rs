use pico::bang_bang::Event;
use pico::dispatcher::{route, Route};
use pico::display::Request as DisplayRequest;
use pico::inbound::{holds_command, ping_pong, react, Reaction};
use pico::messages::{Command, Content, Diagnostics, Info, Label, Value};
use pico::outbound::{send, Endpoint, Message, Outbound};
use pico::sequencer::Request as SequencerRequest;
use pico::watchdog;

#[test]
fn commands_reach_their_tasks() {
    assert!(matches!(route(Command::Ping), Route::Inbound));
    assert!(matches!(route(Command::Subscribe), Route::Inbound));
    assert!(matches!(route(Command::Restart), Route::Restart));
    assert!(matches!(route(Command::SetDO { pin: 10, value: true }), Route::DigitalOut { pin: 10, value: true }));
    assert!(matches!(route(Command::SetAO { pin: 6, value: 30 }), Route::AnalogOut { pin: 6, value: 30 }));
    assert!(matches!(route(Command::BangBangStart), Route::BangBang(Event::Start)));
    assert!(matches!(route(Command::BangBangStop), Route::BangBang(Event::Stop)));
    assert!(matches!(route(Command::BangBangInput { pin: 27 }), Route::BangBang(Event::SetInput { pin: 27 })));
    assert!(matches!(route(Command::BangBangOutput { pin: 6 }), Route::BangBang(Event::SetOutput { pin: 6 })));
    assert!(matches!(route(Command::BangBangLowerLimit { value: 45 }), Route::BangBang(Event::SetLowerLimit { value: 45 })));
    assert!(matches!(route(Command::BangBangUpperLimit { value: 50 }), Route::BangBang(Event::SetUpperLimit { value: 50 })));
    assert!(matches!(route(Command::BangBangShow), Route::BangBang(Event::Show)));
    assert!(matches!(route(Command::BangBangHide), Route::BangBang(Event::Hide)));
    assert!(matches!(route(Command::AddPage), Route::Display(DisplayRequest::AddPage)));
    assert!(matches!(route(Command::RemovePage), Route::Display(DisplayRequest::RemovePage)));
    assert!(matches!(route(Command::ClearDisplay), Route::Display(DisplayRequest::Clear)));
    let label = Label::try_from_str("Pump").unwrap();
    match route(Command::AddLine { label, value: Value::Analog(26) }) {
        Route::Display(DisplayRequest::AddLine { label, value }) => {
            assert_eq!(label.as_str(), "Pump");
            assert_eq!(value, Value::Analog(26));
        }
        other => panic!("unexpected {:?}", other),
    }
    assert!(matches!(route(Command::StartSequence { sequence_id: 1 }), Route::Sequencer(SequencerRequest::Start { sequence_id: 1 })));
    assert!(matches!(route(Command::StopSequence), Route::Sequencer(SequencerRequest::Stop)));
}

#[test]
fn inbound_answers_pings_and_sets_digital_outputs() {
    assert_eq!(react(&Command::Ping), Reaction::Pong);
    assert_eq!(react(&Command::SetDO { pin: 11, value: false }), Reaction::SetDigitalOut { pin: 11, value: false });
    assert_eq!(react(&Command::BangBangStart), Reaction::Ignore);
    assert_eq!(react(&Command::Subscribe), Reaction::Ignore);
    assert!(!holds_command(0));
    assert!(holds_command(3));
    assert_eq!(
        ping_pong(1234),
        Info {
            content: Content::Pong,
            diagnostics: Diagnostics { timestamp_us: 1234, execution_us: 0, jitter_in_us: 0, period_in_us: 0 },
        }
    );
}

#[test]
fn outbound_sends_to_the_last_subscriber() {
    let diagnostics = Diagnostics { timestamp_us: 1, execution_us: 2, jitter_in_us: 3, period_in_us: 4 };
    let mut outbound = Outbound::new();
    assert!(outbound.handle(Message::Info { info: send(Content::Pong, diagnostics) }).is_none());
    let first = Endpoint { address: [192, 168, 7, 100], port: 4000 };
    let second = Endpoint { address: [192, 168, 7, 101], port: 4001 };
    assert!(outbound.handle(Message::Endpoint { endpoint: first }).is_none());
    assert!(outbound.handle(Message::Endpoint { endpoint: second }).is_none());
    let packet = outbound.handle(Message::Info { info: send(Content::AI { pins: vec![(26, 40)] }, diagnostics) });
    assert_eq!(packet, Some((Info { content: Content::AI { pins: vec![(26, 40)] }, diagnostics }, second)));
}

#[test]
fn watchdog_feeds_on_progress_and_resets_on_request() {
    assert_eq!(watchdog::react(watchdog::Message::Notified), watchdog::Reaction::Feed);
    assert_eq!(watchdog::react(watchdog::Message::Restart), watchdog::Reaction::Reset);
}
