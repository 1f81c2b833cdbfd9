use pico::bang_bang::{Controller, Event};
use pico::display::Screen;
use pico::messages::Value;
use pico::water_tank::{task, Setup};

#[test]
fn setup_configures_display_and_controller() {
    let setup = task();
    assert_eq!(setup.len(), 9);
    assert_eq!(setup[0], Setup::Text { label: "Water tank", value: Value::Blank });
    assert_eq!(setup[4], Setup::Text { label: "Drain  (NO)", value: Value::OnOff(19) });
    assert_eq!(setup[8], Setup::Controller(Event::SetUpperLimit { value: 50 }));
    let mut controller = Controller::new();
    let mut screen = Screen::new();
    for request in setup {
        match request {
            Setup::Text { label, value } => screen.add_text(label, value),
            Setup::Controller(event) => {
                controller.handle(event);
            }
        }
    }
    assert_eq!(controller.settings.input_pin, 27);
    assert_eq!(controller.settings.output_pin, 6);
    assert_eq!(controller.settings.lower_limit, 45);
    assert_eq!(controller.settings.upper_limit, 50);
    assert_eq!(screen.draw(&[0; 32]).drawings.len(), 9);
}
