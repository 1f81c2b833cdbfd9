use pico::display::{format_percent, layout, BoxStyle, DisplayTask, Drawing, Frame, Request, Screen, Shape, TextStyle};
use pico::messages::{Label, Value};

fn label(text: &str) -> Label {
    Label::try_from_str(text).unwrap()
}

fn texts(frame: &Frame) -> Vec<String> {
    frame
        .drawings
        .iter()
        .filter_map(|drawing| match drawing {
            Drawing::Text { text, .. } => Some(text.as_str().to_string()),
            _ => None,
        })
        .collect()
}

#[test]
fn new_display_draws_an_empty_page() {
    let screen = Screen::new();
    let frame = screen.draw(&[0; 32]);
    assert!(frame.drawings.is_empty());
    assert!(frame.refresh);
}

#[test]
fn lines_draw_labels_and_values() {
    let mut screen = Screen::new();
    screen.add_line(label("Water tank"), Value::Blank);
    screen.add_line(label("Pump"), Value::Analog(26));
    screen.add_line(label("Source (NC)"), Value::OffOn(20));
    screen.add_line(label("Drain  (NO)"), Value::OnOff(19));
    screen.add_line(label("Controller"), Value::Boolean(true));
    let mut measurements = [0u8; 32];
    measurements[26] = 42;
    measurements[20] = 100;
    let frame = screen.draw(&measurements);
    assert_eq!(
        frame.drawings,
        vec![
            Drawing::Text { row: 0, text: label("Water tank") },
            Drawing::Text { row: 1, text: label("Pump") },
            Drawing::Number { row: 1, number: 42 },
            Drawing::Text { row: 2, text: label("Source (NC)") },
            Drawing::OffOn { row: 2, on: true },
            Drawing::Text { row: 3, text: label("Drain  (NO)") },
            Drawing::OffOn { row: 3, on: true },
            Drawing::Text { row: 4, text: label("Controller") },
            Drawing::OffOn { row: 4, on: true },
        ]
    );
    assert!(frame.refresh);
}

#[test]
fn a_page_holds_five_lines() {
    let mut screen = Screen::new();
    for i in 0..7u8 {
        screen.add_line(label("Line"), Value::Number(i));
    }
    let frame = screen.draw(&[0; 32]);
    assert_eq!(texts(&frame).len(), 5);
    assert_eq!(frame.drawings.last(), Some(&Drawing::Number { row: 4, number: 4 }));
}

#[test]
fn long_text_is_dropped() {
    let mut screen = Screen::new();
    screen.add_text("A label that does not fit", Value::Blank);
    screen.add_text("Exactly sixteen!", Value::Blank);
    assert_eq!(texts(&screen.draw(&[0; 32])), vec!["Exactly sixteen!".to_string()]);
}

#[test]
fn only_the_top_page_is_drawn_and_pages_stack_three_deep() {
    let mut screen = Screen::new();
    screen.add_line(label("bottom"), Value::Blank);
    screen.push_page();
    screen.add_line(label("middle"), Value::Blank);
    screen.push_page();
    screen.push_page();
    screen.add_line(label("top"), Value::Blank);
    assert_eq!(texts(&screen.draw(&[0; 32])), vec!["top".to_string()]);
    screen.pop_page();
    assert_eq!(texts(&screen.draw(&[0; 32])), vec!["middle".to_string()]);
    screen.pop_page();
    assert_eq!(texts(&screen.draw(&[0; 32])), vec!["bottom".to_string()]);
    screen.pop_page();
    let frame = screen.draw(&[0; 32]);
    assert!(frame.drawings.is_empty());
    assert!(!frame.refresh);
    screen.add_line(label("nowhere"), Value::Blank);
    screen.clear();
    screen.pop_page();
    assert!(!screen.draw(&[0; 32]).refresh);
}

#[test]
fn clear_empties_the_top_page_only() {
    let mut screen = Screen::new();
    screen.add_line(label("kept"), Value::Blank);
    screen.push_page();
    screen.add_line(label("cleared"), Value::Blank);
    screen.clear();
    assert!(texts(&screen.draw(&[0; 32])).is_empty());
    screen.pop_page();
    assert_eq!(texts(&screen.draw(&[0; 32])), vec!["kept".to_string()]);
}

#[test]
fn display_task_redraws_on_measurements_and_refresh() {
    let mut task = DisplayTask::new();
    assert_eq!(task.handle(Request::AddLine { label: label("Fill level"), value: Value::Analog(27) }), None);
    let mut measurements = [0u8; 32];
    measurements[27] = 55;
    let frame = task.handle(Request::Measurements { measurements }).unwrap();
    assert_eq!(frame.drawings[1], Drawing::Number { row: 0, number: 55 });
    assert_eq!(task.measurements, measurements);
    assert_eq!(task.handle(Request::AddPage), None);
    let frame = task.handle(Request::Refresh).unwrap();
    assert!(frame.drawings.is_empty());
    assert_eq!(task.handle(Request::RemovePage), None);
    assert_eq!(task.handle(Request::Clear), None);
    assert!(task.handle(Request::Refresh).unwrap().drawings.is_empty());
}

#[test]
fn adding_and_removing_a_page_restores_the_display() {
    let mut task = DisplayTask::new();
    task.handle(Request::AddLine { label: label("first"), value: Value::Number(1) });
    let before = task.handle(Request::Refresh).unwrap();
    task.handle(Request::AddPage);
    task.handle(Request::AddLine { label: label("second"), value: Value::Number(2) });
    task.handle(Request::RemovePage);
    assert_eq!(task.handle(Request::Refresh).unwrap(), before);
}

#[test]
fn numbers_are_right_aligned_percentages() {
    assert_eq!(format_percent(0), "  0%");
    assert_eq!(format_percent(7), "  7%");
    assert_eq!(format_percent(42), " 42%");
    assert_eq!(format_percent(100), "100%");
    assert_eq!(format_percent(255), "255%");
    assert_eq!(format_percent(42), format!("{:3}%", 42));
}

#[test]
fn drawings_become_shapes() {
    assert_eq!(
        layout(Drawing::Text { row: 2, text: label("Pump") }),
        vec![Shape::Label { label: label("Pump"), x: 0, y: 36 }]
    );
    assert_eq!(
        layout(Drawing::OffOn { row: 1, on: true }),
        vec![
            Shape::Rectangle { x: 100, y: 16, width: 23, height: 11, style: BoxStyle::Full },
            Shape::Text { text: "on".to_string(), x: 106, y: 24, style: TextStyle::On },
        ]
    );
    assert_eq!(
        layout(Drawing::OffOn { row: 0, on: false }),
        vec![
            Shape::Rectangle { x: 100, y: 4, width: 23, height: 11, style: BoxStyle::Empty },
            Shape::Text { text: "off".to_string(), x: 103, y: 12, style: TextStyle::Off },
        ]
    );
    assert_eq!(
        layout(Drawing::Number { row: 4, number: 9 }),
        vec![Shape::Text { text: "  9%".to_string(), x: 100, y: 60, style: TextStyle::Plain }]
    );
}
