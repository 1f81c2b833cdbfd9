use pico::messages::{Command, Label, Value};
use pico::tools::instruct::{expects_reply, list_instructions, process_instruction, usage, Config, USAGE};
use pico::tools::instruction::{
    add_line, find_instruction, get_label, get_number, get_on_off, get_pin, instructions, Instruction, Match,
};

fn words(line: &str) -> Vec<String> {
    line.split_whitespace().map(|word| word.to_string()).collect()
}

fn label(text: &str) -> Label {
    Label::try_from_str(text).unwrap()
}

#[test]
fn instructions_are_found_by_their_prefix() {
    let all = instructions();
    assert_eq!(all.len(), 17);
    assert_eq!(find_instruction(&all, &words("ping")), Match::Full(Instruction::PingPong));
    assert_eq!(find_instruction(&all, &words("digital 10 on")), Match::Full(Instruction::SetDigitalOut));
    assert_eq!(find_instruction(&all, &words("digital 10")), Match::Partial(Instruction::SetDigitalOut));
    assert_eq!(find_instruction(&all, &words("bang bang start")), Match::Full(Instruction::StartBangBang));
    assert_eq!(find_instruction(&all, &words("bang bang")), Match::NoMatch);
    assert_eq!(find_instruction(&all, &words("bang bang upper 50")), Match::Full(Instruction::SetBangBangUpperLimit));
    assert_eq!(find_instruction(&all, &words("display on off Valve 12")), Match::Full(Instruction::DisplayOnOff));
    assert_eq!(find_instruction(&all, &words("display off on Valve 12")), Match::Full(Instruction::DisplayOffOn));
    assert_eq!(find_instruction(&all, &words("display label")), Match::Partial(Instruction::DisplayText));
    assert_eq!(find_instruction(&all, &words("help")), Match::NoMatch);
    assert_eq!(find_instruction(&all, &[]), Match::NoMatch);
    assert_eq!(find_instruction(&all, &words("example water tank")), Match::Full(Instruction::ExampleWaterTank));
}

#[test]
fn every_instruction_is_found_from_its_usage_line() {
    let all = instructions();
    for instruction in &all {
        let line = instruction.to_string();
        assert_eq!(find_instruction(&all, &words(&line)), Match::Full(*instruction));
    }
}

#[test]
fn arguments_parse() {
    assert_eq!(get_pin(&"25".to_string()), Ok(25));
    assert_eq!(get_pin(&"+7".to_string()), Ok(7));
    assert_eq!(get_pin(&"007".to_string()), Ok(7));
    assert_eq!(get_pin(&"x".to_string()), Err("invalid pin: invalid digit found in string".to_string()));
    assert_eq!(get_pin(&"".to_string()), Err("invalid pin: cannot parse integer from empty string".to_string()));
    assert_eq!(get_pin(&"256".to_string()), Err("invalid pin: number too large to fit in target type".to_string()));
    assert_eq!(get_pin(&"-1".to_string()), Err("invalid pin: invalid digit found in string".to_string()));
    assert_eq!(get_number(&"255".to_string()), Ok(255));
    assert_eq!(get_number(&"1000".to_string()), Err("invalid number: number too large to fit in target type".to_string()));
    assert_eq!(get_on_off(&"on".to_string()), Ok(true));
    assert_eq!(get_on_off(&"off".to_string()), Ok(false));
    assert_eq!(get_on_off(&"ON".to_string()), Ok(false));
}

#[test]
fn labels_hold_sixteen_bytes() {
    assert_eq!(get_label(&"Exactly sixteen!".to_string()).unwrap().as_str(), "Exactly sixteen!");
    assert_eq!(get_label(&"Seventeen bytes!!".to_string()), Err("invalid label: insufficient capacity".to_string()));
    assert_eq!(get_label(&"ÄÖÜäöüßÄ".to_string()).unwrap().as_str(), "ÄÖÜäöüßÄ");
    assert!(get_label(&"ÄÖÜäöüßÄÖ".to_string()).is_err());
    assert_eq!(add_line("Pump", Value::Analog(26)), Command::AddLine { label: label("Pump"), value: Value::Analog(26) });
    assert_eq!(add_line("Far too long for a line", Value::Blank), Command::AddLine { label: Label::new(), value: Value::Blank });
}

#[test]
fn instructions_make_commands() {
    let run = |instruction: Instruction, line: &str| instruction.run(&words(line));
    assert_eq!(run(Instruction::PingPong, ""), Ok(vec![Command::Ping]));
    assert_eq!(run(Instruction::SetDigitalOut, "10 on"), Ok(vec![Command::SetDO { pin: 10, value: true }]));
    assert_eq!(run(Instruction::SetDigitalOut, "10 yes"), Ok(vec![Command::SetDO { pin: 10, value: false }]));
    assert_eq!(run(Instruction::SetAnalogOut, "6 75"), Ok(vec![Command::SetAO { pin: 6, value: 75 }]));
    assert_eq!(run(Instruction::SetAnalogOut, "six 75"), Err("invalid pin: invalid digit found in string".to_string()));
    assert_eq!(run(Instruction::SetAnalogOut, "6 300"), Err("invalid number: number too large to fit in target type".to_string()));
    assert_eq!(run(Instruction::StartBangBang, ""), Ok(vec![Command::BangBangStart]));
    assert_eq!(run(Instruction::StopBangBang, ""), Ok(vec![Command::BangBangStop]));
    assert_eq!(run(Instruction::SetBangBangInput, "27"), Ok(vec![Command::BangBangInput { pin: 27 }]));
    assert_eq!(run(Instruction::SetBangBangOutput, "6"), Ok(vec![Command::BangBangOutput { pin: 6 }]));
    assert_eq!(run(Instruction::SetBangBangLowerLimit, "45"), Ok(vec![Command::BangBangLowerLimit { value: 45 }]));
    assert_eq!(run(Instruction::SetBangBangUpperLimit, "50"), Ok(vec![Command::BangBangUpperLimit { value: 50 }]));
    assert_eq!(run(Instruction::ShowBangBang, ""), Ok(vec![Command::BangBangShow]));
    assert_eq!(run(Instruction::HideBangBang, ""), Ok(vec![Command::BangBangHide]));
    assert_eq!(run(Instruction::ClearDisplay, ""), Ok(vec![Command::ClearDisplay]));
    assert_eq!(
        run(Instruction::DisplayText, "Title"),
        Ok(vec![Command::AddLine { label: label("Title"), value: Value::Blank }])
    );
    assert_eq!(
        run(Instruction::DisplayAnalog, "Level 27"),
        Ok(vec![Command::AddLine { label: label("Level"), value: Value::Analog(27) }])
    );
    assert_eq!(
        run(Instruction::DisplayOffOn, "Source 20"),
        Ok(vec![Command::AddLine { label: label("Source"), value: Value::OffOn(20) }])
    );
    assert_eq!(
        run(Instruction::DisplayOnOff, "Drain 19"),
        Ok(vec![Command::AddLine { label: label("Drain"), value: Value::OnOff(19) }])
    );
    assert_eq!(run(Instruction::DisplayOnOff, "AVeryLongLabelIndeed x"), Err("invalid label: insufficient capacity".to_string()));
    assert_eq!(run(Instruction::DisplayOnOff, "Drain x"), Err("invalid pin: invalid digit found in string".to_string()));
}

#[test]
fn water_tank_example_sets_up_display_and_controller() {
    let commands = Instruction::ExampleWaterTank.run(&[]).unwrap();
    assert_eq!(
        commands,
        vec![
            Command::ClearDisplay,
            Command::AddLine { label: label("Water tank"), value: Value::Blank },
            Command::AddLine { label: label("Pump"), value: Value::Analog(26) },
            Command::AddLine { label: label("Fill level"), value: Value::Analog(27) },
            Command::AddLine { label: label("Source (NC)"), value: Value::OffOn(20) },
            Command::AddLine { label: label("Drain  (NO)"), value: Value::OnOff(19) },
            Command::BangBangInput { pin: 27 },
            Command::BangBangOutput { pin: 6 },
            Command::BangBangLowerLimit { value: 45 },
            Command::BangBangUpperLimit { value: 50 },
        ]
    );
}

#[test]
fn usage_texts() {
    assert_eq!(Instruction::SetDigitalOut.to_string(), "digital PIN on|off ");
    assert_eq!(Instruction::StartBangBang.to_string(), "bang bang start ");
    assert_eq!(usage(&Instruction::DisplayAnalog), "usage: display analog LABEL PIN ");
    let lines = list_instructions(&instructions());
    assert_eq!(lines.len(), 18);
    assert_eq!(lines[0], "Available commands:");
    assert_eq!(lines[1], "    ping ");
    assert_eq!(lines[17], "    example water tank ");
}

#[test]
fn configuration_needs_a_command() {
    let arguments = |line: &str| words(line);
    let config = Config::build(arguments("instruct bang bang start")).ok().unwrap();
    assert_eq!(config.command, words("bang bang start"));
    let error = Config::build(arguments("instruct")).err().unwrap();
    assert_eq!(error, format!("missing command\n{}", USAGE));
    assert!(error.starts_with("missing command\nusage: COMMAND\n"));
    assert!(Config::build(vec![]).is_err());
}

#[test]
fn processing_runs_the_instruction_on_its_arguments() {
    assert_eq!(
        process_instruction(&Instruction::SetAnalogOut, &words("analog 8 20")),
        Ok(vec![Command::SetAO { pin: 8, value: 20 }])
    );
    assert_eq!(
        process_instruction(&Instruction::SetBangBangLowerLimit, &words("bang bang lower abc")),
        Err("invalid number: invalid digit found in string".to_string())
    );
    assert!(expects_reply(&Command::Ping));
    assert!(!expects_reply(&Command::Subscribe));
}

#[test]
fn extra_words_after_the_arguments_are_ignored() {
    let command = words("digital 10 on and more");
    assert_eq!(
        process_instruction(&Instruction::SetDigitalOut, &command),
        Ok(vec![Command::SetDO { pin: 10, value: true }])
    );
    assert_eq!(Instruction::PingPong.run(&words("now please")), Ok(vec![Command::Ping]));
    assert_eq!(
        process_instruction(&Instruction::SetAnalogOut, &words("analog 1x 5 6")),
        Err("invalid pin: invalid digit found in string".to_string())
    );
}
