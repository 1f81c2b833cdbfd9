use pico::messages::{Content, Mode, PICO_ADDRESS_DEFAULT, PICO_ADDRESS_ENVNAME};
use pico::tools::logger::{get_level, get_mode};
use pico::tools::network::{get_pico_address, Buffer, BUFFER_SIZE};
use pico::tools::observe::{check_arguments, error, task_name};
use pico::tools::PICO_ADDRESS_USAGE;

#[test]
fn observer_takes_no_arguments() {
    assert_eq!(check_arguments(&["observe".to_string()]), Ok(()));
    assert_eq!(check_arguments(&[]), Ok(()));
    assert_eq!(
        check_arguments(&["observe".to_string(), "x".to_string()]),
        Err(format!("command does not expect arguments\n{}", PICO_ADDRESS_USAGE))
    );
    assert_eq!(error("bad".to_string()), format!("bad\n{}", PICO_ADDRESS_USAGE));
}

#[test]
fn reports_are_named_by_their_content() {
    assert_eq!(task_name(&Content::Pong), None);
    assert_eq!(task_name(&Content::DI { pins: vec![] }), Some("digital in"));
    assert_eq!(task_name(&Content::DO { pins: vec![] }), Some("digital out"));
    assert_eq!(task_name(&Content::AI { pins: vec![] }), Some("analog in"));
    assert_eq!(task_name(&Content::AO { pins: vec![] }), Some("analog out"));
}

#[test]
fn words_of_the_log() {
    assert_eq!(get_level(true), "on");
    assert_eq!(get_level(false), "off");
    assert_eq!(get_mode(Mode::Off), "off");
    assert_eq!(get_mode(Mode::Running), "running");
    assert_eq!(get_mode(Mode::Waiting), "waiting");
}

#[test]
fn pico_address_defaults() {
    assert_eq!(PICO_ADDRESS_ENVNAME, "PICO_ADDRESS");
    assert_eq!(get_pico_address(None), PICO_ADDRESS_DEFAULT);
    assert_eq!(get_pico_address(Some("10.0.0.2:99".to_string())), "10.0.0.2:99");
}

#[test]
fn new_buffer_is_zeroed() {
    let buffer = Buffer::new();
    assert_eq!(buffer.0.len(), BUFFER_SIZE);
    assert!(buffer.0.iter().all(|byte| *byte == 0));
    let default: Buffer = Default::default();
    assert!(default.0.iter().all(|byte| *byte == 0));
}
