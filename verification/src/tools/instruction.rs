//! The instructions of the command line tool: each is a prefix of fixed words followed by
//! arguments, and turns into the commands that are sent to the pico.
use vstd::prelude::*;
use vstd::string::{StringExecFns, StringSliceAdditionalSpecFns};
use vstd::utf8::encode_utf8;
use crate::messages::{label_text, Command, Label, Value, LABEL_CAPACITY};
use crate::water_tank::{CONTROLLER_LOWER_LIMIT, CONTROLLER_UPPER_LIMIT, DRAIN, FILL, PUMP, SET_PUMP, SOURCE};

verus! {

/// An instruction of the command line tool.
#[derive(Debug, PartialEq, Eq, Structural, Clone, Copy)]
pub enum Instruction {
    PingPong,
    SetDigitalOut,
    SetAnalogOut,
    StartBangBang,
    StopBangBang,
    SetBangBangInput,
    SetBangBangOutput,
    SetBangBangLowerLimit,
    SetBangBangUpperLimit,
    ShowBangBang,
    HideBangBang,
    ClearDisplay,
    DisplayText,
    DisplayAnalog,
    DisplayOffOn,
    DisplayOnOff,
    ExampleWaterTank,
}

/// How a command line matches the instructions.
#[derive(Debug, PartialEq, Eq, Structural, Clone, Copy)]
pub enum Match {
    /// No instruction's prefix starts the command line.
    NoMatch,
    /// The first instruction whose prefix starts the command line, with the wrong number of
    /// arguments.
    Partial(Instruction),
    /// The first instruction whose prefix starts the command line, with its arguments.
    Full(Instruction),
}

impl Instruction {
    /// The words that start the instruction.
    pub open spec fn spec_prefix(self) -> Seq<&'static str> {
        match self {
            Instruction::PingPong => seq!["ping"],
            Instruction::SetDigitalOut => seq!["digital"],
            Instruction::SetAnalogOut => seq!["analog"],
            Instruction::StartBangBang => seq!["bang", "bang", "start"],
            Instruction::StopBangBang => seq!["bang", "bang", "stop"],
            Instruction::SetBangBangInput => seq!["bang", "bang", "input"],
            Instruction::SetBangBangOutput => seq!["bang", "bang", "output"],
            Instruction::SetBangBangLowerLimit => seq!["bang", "bang", "lower"],
            Instruction::SetBangBangUpperLimit => seq!["bang", "bang", "upper"],
            Instruction::ShowBangBang => seq!["bang", "bang", "show"],
            Instruction::HideBangBang => seq!["bang", "bang", "hide"],
            Instruction::ClearDisplay => seq!["clear", "display"],
            Instruction::DisplayText => seq!["display", "label"],
            Instruction::DisplayAnalog => seq!["display", "analog"],
            Instruction::DisplayOffOn => seq!["display", "off", "on"],
            Instruction::DisplayOnOff => seq!["display", "on", "off"],
            Instruction::ExampleWaterTank => seq!["example", "water", "tank"],
        }
    }

    /// The names of the instruction's arguments.
    pub open spec fn spec_arguments(self) -> Seq<&'static str> {
        match self {
            Instruction::SetDigitalOut => seq!["PIN", "on|off"],
            Instruction::SetAnalogOut => seq!["PIN", "0-100"],
            Instruction::SetBangBangInput => seq!["PIN"],
            Instruction::SetBangBangOutput => seq!["PIN"],
            Instruction::SetBangBangLowerLimit => seq!["0-100"],
            Instruction::SetBangBangUpperLimit => seq!["0-100"],
            Instruction::DisplayText => seq!["LABEL"],
            Instruction::DisplayAnalog => seq!["LABEL", "PIN"],
            Instruction::DisplayOffOn => seq!["LABEL", "PIN"],
            Instruction::DisplayOnOff => seq!["LABEL", "PIN"],
            _ => seq![],
        }
    }

    /// The words that start the instruction.
    pub fn prefix(&self) -> (words: Vec<&'static str>)
        ensures
            words@ == self.spec_prefix(),
    {
        let words = match self {
            Instruction::PingPong => vec!["ping"],
            Instruction::SetDigitalOut => vec!["digital"],
            Instruction::SetAnalogOut => vec!["analog"],
            Instruction::StartBangBang => vec!["bang", "bang", "start"],
            Instruction::StopBangBang => vec!["bang", "bang", "stop"],
            Instruction::SetBangBangInput => vec!["bang", "bang", "input"],
            Instruction::SetBangBangOutput => vec!["bang", "bang", "output"],
            Instruction::SetBangBangLowerLimit => vec!["bang", "bang", "lower"],
            Instruction::SetBangBangUpperLimit => vec!["bang", "bang", "upper"],
            Instruction::ShowBangBang => vec!["bang", "bang", "show"],
            Instruction::HideBangBang => vec!["bang", "bang", "hide"],
            Instruction::ClearDisplay => vec!["clear", "display"],
            Instruction::DisplayText => vec!["display", "label"],
            Instruction::DisplayAnalog => vec!["display", "analog"],
            Instruction::DisplayOffOn => vec!["display", "off", "on"],
            Instruction::DisplayOnOff => vec!["display", "on", "off"],
            Instruction::ExampleWaterTank => vec!["example", "water", "tank"],
        };
        assert(words@ =~= self.spec_prefix());
        words
    }

    /// The names of the instruction's arguments.
    pub fn arguments(&self) -> (names: Vec<&'static str>)
        ensures
            names@ == self.spec_arguments(),
    {
        let names = match self {
            Instruction::SetDigitalOut => vec!["PIN", "on|off"],
            Instruction::SetAnalogOut => vec!["PIN", "0-100"],
            Instruction::SetBangBangInput => vec!["PIN"],
            Instruction::SetBangBangOutput => vec!["PIN"],
            Instruction::SetBangBangLowerLimit => vec!["0-100"],
            Instruction::SetBangBangUpperLimit => vec!["0-100"],
            Instruction::DisplayText => vec!["LABEL"],
            Instruction::DisplayAnalog => vec!["LABEL", "PIN"],
            Instruction::DisplayOffOn => vec!["LABEL", "PIN"],
            Instruction::DisplayOnOff => vec!["LABEL", "PIN"],
            _ => Vec::new(),
        };
        assert(names@ =~= self.spec_arguments());
        names
    }
}

/// The table of instructions, in the order in which a command line is matched against them.
pub open spec fn instruction_table() -> Seq<Instruction> {
    seq![
        Instruction::PingPong,
        Instruction::SetDigitalOut,
        Instruction::SetAnalogOut,
        Instruction::StartBangBang,
        Instruction::StopBangBang,
        Instruction::SetBangBangInput,
        Instruction::SetBangBangOutput,
        Instruction::SetBangBangLowerLimit,
        Instruction::SetBangBangUpperLimit,
        Instruction::ShowBangBang,
        Instruction::HideBangBang,
        Instruction::ClearDisplay,
        Instruction::DisplayText,
        Instruction::DisplayAnalog,
        Instruction::DisplayOffOn,
        Instruction::DisplayOnOff,
        Instruction::ExampleWaterTank,
    ]
}

/// All instructions, in the order in which a command line is matched against them.
pub fn instructions() -> (all: Vec<Instruction>)
    ensures
        all@ == instruction_table(),
        all@ == seq![
            Instruction::PingPong,
            Instruction::SetDigitalOut,
            Instruction::SetAnalogOut,
            Instruction::StartBangBang,
            Instruction::StopBangBang,
            Instruction::SetBangBangInput,
            Instruction::SetBangBangOutput,
            Instruction::SetBangBangLowerLimit,
            Instruction::SetBangBangUpperLimit,
            Instruction::ShowBangBang,
            Instruction::HideBangBang,
            Instruction::ClearDisplay,
            Instruction::DisplayText,
            Instruction::DisplayAnalog,
            Instruction::DisplayOffOn,
            Instruction::DisplayOnOff,
            Instruction::ExampleWaterTank,
        ],
{
    let all = vec![
        Instruction::PingPong,
        Instruction::SetDigitalOut,
        Instruction::SetAnalogOut,
        Instruction::StartBangBang,
        Instruction::StopBangBang,
        Instruction::SetBangBangInput,
        Instruction::SetBangBangOutput,
        Instruction::SetBangBangLowerLimit,
        Instruction::SetBangBangUpperLimit,
        Instruction::ShowBangBang,
        Instruction::HideBangBang,
        Instruction::ClearDisplay,
        Instruction::DisplayText,
        Instruction::DisplayAnalog,
        Instruction::DisplayOffOn,
        Instruction::DisplayOnOff,
        Instruction::ExampleWaterTank,
    ];
    assert(all@ =~= instruction_table());
    all
}

/// Whether the words start the command line.
pub open spec fn starts_with(command: Seq<String>, words: Seq<&'static str>) -> bool {
    &&& words.len() <= command.len()
    &&& forall|i: int| 0 <= i < words.len() ==> command[i]@ == (#[trigger] words[i])@
}

/// The first of the instructions whose prefix starts the command line.
pub open spec fn first_match(instructions: Seq<Instruction>, command: Seq<String>) -> Option<int>
    decreases instructions.len(),
{
    if instructions.len() == 0 {
        None
    } else if starts_with(command, instructions[0].spec_prefix()) {
        Some(0)
    } else {
        match first_match(instructions.drop_first(), command) {
            Some(i) => Some(i + 1),
            None => None,
        }
    }
}

/// How a command line matches the instructions.
pub open spec fn match_of(instructions: Seq<Instruction>, command: Seq<String>) -> Match {
    match first_match(instructions, command) {
        None => Match::NoMatch,
        Some(i) => {
            let instruction = instructions[i];
            if command.len() == instruction.spec_prefix().len()
                + instruction.spec_arguments().len() {
                Match::Full(instruction)
            } else {
                Match::Partial(instruction)
            }
        },
    }
}

/// Whether two prefixes agree on all the words that both have: then one of them starts every
/// command line that the other starts.
pub open spec fn overlapping(a: Seq<&'static str>, b: Seq<&'static str>) -> bool {
    forall|k: int| 0 <= k < a.len() && k < b.len() ==> (#[trigger] a[k])@ == (#[trigger] b[k])@
}

/// No two instructions have overlapping prefixes: a command line starts with the prefix of
/// at most one instruction.
pub proof fn lemma_prefixes_do_not_overlap(first: Instruction, second: Instruction)
    requires
        first != second,
    ensures
        !overlapping(first.spec_prefix(), second.spec_prefix()),
{
    reveal_strlit("analog");
    reveal_strlit("bang");
    reveal_strlit("clear");
    reveal_strlit("digital");
    reveal_strlit("display");
    reveal_strlit("example");
    reveal_strlit("hide");
    reveal_strlit("input");
    reveal_strlit("label");
    reveal_strlit("lower");
    reveal_strlit("off");
    reveal_strlit("on");
    reveal_strlit("output");
    reveal_strlit("ping");
    reveal_strlit("show");
    reveal_strlit("start");
    reveal_strlit("stop");
    reveal_strlit("tank");
    reveal_strlit("upper");
    reveal_strlit("water");
    assert("ping"@.len() != "digital"@.len());
    assert("ping"@.len() != "analog"@.len());
    assert("ping"@[0] != "bang"@[0]);
    assert("ping"@.len() != "clear"@.len());
    assert("ping"@.len() != "display"@.len());
    assert("ping"@.len() != "example"@.len());
    assert("digital"@.len() != "analog"@.len());
    assert("digital"@.len() != "bang"@.len());
    assert("digital"@.len() != "clear"@.len());
    assert("digital"@[2] != "display"@[2]);
    assert("digital"@[0] != "example"@[0]);
    assert("analog"@.len() != "bang"@.len());
    assert("analog"@.len() != "clear"@.len());
    assert("analog"@.len() != "display"@.len());
    assert("analog"@.len() != "example"@.len());
    assert("bang"@.len() != "clear"@.len());
    assert("bang"@.len() != "display"@.len());
    assert("bang"@.len() != "example"@.len());
    assert("clear"@.len() != "display"@.len());
    assert("clear"@.len() != "example"@.len());
    assert("display"@[0] != "example"@[0]);
    assert("label"@.len() != "analog"@.len());
    assert("label"@.len() != "off"@.len());
    assert("label"@.len() != "on"@.len());
    assert("analog"@.len() != "off"@.len());
    assert("analog"@.len() != "on"@.len());
    assert("off"@.len() != "on"@.len());
    assert("start"@.len() != "stop"@.len());
    assert("start"@[0] != "input"@[0]);
    assert("start"@.len() != "output"@.len());
    assert("start"@[0] != "lower"@[0]);
    assert("start"@[0] != "upper"@[0]);
    assert("start"@.len() != "show"@.len());
    assert("start"@.len() != "hide"@.len());
    assert("stop"@.len() != "input"@.len());
    assert("stop"@.len() != "output"@.len());
    assert("stop"@.len() != "lower"@.len());
    assert("stop"@.len() != "upper"@.len());
    assert("stop"@[1] != "show"@[1]);
    assert("stop"@[0] != "hide"@[0]);
    assert("input"@.len() != "output"@.len());
    assert("input"@[0] != "lower"@[0]);
    assert("input"@[0] != "upper"@[0]);
    assert("input"@.len() != "show"@.len());
    assert("input"@.len() != "hide"@.len());
    assert("output"@.len() != "lower"@.len());
    assert("output"@.len() != "upper"@.len());
    assert("output"@.len() != "show"@.len());
    assert("output"@.len() != "hide"@.len());
    assert("lower"@[0] != "upper"@[0]);
    assert("lower"@.len() != "show"@.len());
    assert("lower"@.len() != "hide"@.len());
    assert("upper"@.len() != "show"@.len());
    assert("upper"@.len() != "hide"@.len());
    assert("show"@[0] != "hide"@[0]);
    let a = first.spec_prefix();
    let b = second.spec_prefix();
    if a[0]@ != b[0]@ {
        assert(!(a[0]@ == b[0]@));
    } else if a[1]@ != b[1]@ {
        assert(!(a[1]@ == b[1]@));
    } else {
        assert(a[2]@ != b[2]@);
    }
}

proof fn lemma_common_start_overlaps(
    command: Seq<String>,
    a: Seq<&'static str>,
    b: Seq<&'static str>,
)
    requires
        starts_with(command, a),
        starts_with(command, b),
    ensures
        overlapping(a, b),
{
    assert forall|k: int| 0 <= k < a.len() && k < b.len() implies (#[trigger] a[k])@ == (
    #[trigger] b[k])@ by {
        assert(command[k]@ == a[k]@);
        assert(command[k]@ == b[k]@);
    }
}

proof fn lemma_first_match_of_distinct(table: Seq<Instruction>, command: Seq<String>, i: int)
    requires
        0 <= i < table.len(),
        starts_with(command, table[i].spec_prefix()),
        forall|j: int| 0 <= j < table.len() && j != i ==> table[j] != table[i],
    ensures
        first_match(table, command) == Some(i),
    decreases table.len(),
{
    if i > 0 {
        if starts_with(command, table[0].spec_prefix()) {
            lemma_common_start_overlaps(command, table[0].spec_prefix(), table[i].spec_prefix());
            lemma_prefixes_do_not_overlap(table[0], table[i]);
        }
        let rest = table.drop_first();
        assert forall|j: int| 0 <= j < rest.len() && j != i - 1 implies #[trigger] rest[j] != rest[i - 1] by {
            assert(rest[j] == table[j + 1]);
        }
        lemma_first_match_of_distinct(rest, command, i - 1);
    }
}

/// Each instruction is found from its own command line: a command line that starts with an
/// instruction's prefix matches that instruction, in full exactly when the rest of the line
/// has as many words as the instruction has arguments.
pub proof fn lemma_instruction_found_by_its_prefix(command: Seq<String>, i: int)
    requires
        0 <= i < instruction_table().len(),
        starts_with(command, instruction_table()[i].spec_prefix()),
    ensures
        match_of(instruction_table(), command) == if command.len()
            == instruction_table()[i].spec_prefix().len()
            + instruction_table()[i].spec_arguments().len() {
            Match::Full(instruction_table()[i])
        } else {
            Match::Partial(instruction_table()[i])
        },
{
    let table = instruction_table();
    assert forall|j: int| 0 <= j < table.len() && j != i implies #[trigger] table[j] != table[i] by {
    }
    lemma_first_match_of_distinct(table, command, i);
}

proof fn lemma_no_first_word_matches(table: Seq<Instruction>, command: Seq<String>)
    requires
        command.len() > 0,
        forall|j: int|
            0 <= j < table.len() ==> (#[trigger] table[j]).spec_prefix()[0]@ != command[0]@,
        forall|j: int| 0 <= j < table.len() ==> (#[trigger] table[j]).spec_prefix().len() > 0,
    ensures
        first_match(table, command) is None,
    decreases table.len(),
{
    if table.len() > 0 {
        assert(!starts_with(command, table[0].spec_prefix()));
        let rest = table.drop_first();
        assert forall|j: int| 0 <= j < rest.len() implies (#[trigger] rest[j]).spec_prefix()[0]@
            != command[0]@ && rest[j].spec_prefix().len() > 0 by {
            assert(rest[j] == table[j + 1]);
        }
        lemma_no_first_word_matches(rest, command);
    }
}

/// The command `help`, as the usage text advises, matches no instruction: the tool then lists
/// them all.
pub proof fn lemma_help_lists_instructions(command: Seq<String>)
    requires
        command.len() > 0,
        command[0]@ == "help"@,
    ensures
        match_of(instruction_table(), command) == Match::NoMatch,
{
    reveal_strlit("help");
    reveal_strlit("ping");
    reveal_strlit("digital");
    reveal_strlit("analog");
    reveal_strlit("bang");
    reveal_strlit("clear");
    reveal_strlit("display");
    reveal_strlit("example");
    assert("help"@[0] != "ping"@[0]);
    assert("help"@[0] != "bang"@[0]);
    assert("help"@.len() != "digital"@.len());
    assert("help"@.len() != "analog"@.len());
    assert("help"@.len() != "clear"@.len());
    assert("help"@.len() != "display"@.len());
    assert("help"@.len() != "example"@.len());
    let table = instruction_table();
    assert forall|j: int| 0 <= j < table.len() implies (#[trigger] table[j]).spec_prefix()[0]@
        != command[0]@ && table[j].spec_prefix().len() > 0 by {
    }
    lemma_no_first_word_matches(table, command);
}


/// The words that start each instruction: "ping", "digital", "analog", "bang bang" followed by
/// start, stop, input, output, lower, upper, show or hide, "clear display", "display" followed
/// by label, analog, "off on" or "on off", and "example water tank".
pub proof fn lemma_prefix_words(instruction: Instruction)
    ensures
        instruction.spec_prefix() == match instruction {
            Instruction::PingPong => seq!["ping"],
            Instruction::SetDigitalOut => seq!["digital"],
            Instruction::SetAnalogOut => seq!["analog"],
            Instruction::StartBangBang => seq!["bang", "bang", "start"],
            Instruction::StopBangBang => seq!["bang", "bang", "stop"],
            Instruction::SetBangBangInput => seq!["bang", "bang", "input"],
            Instruction::SetBangBangOutput => seq!["bang", "bang", "output"],
            Instruction::SetBangBangLowerLimit => seq!["bang", "bang", "lower"],
            Instruction::SetBangBangUpperLimit => seq!["bang", "bang", "upper"],
            Instruction::ShowBangBang => seq!["bang", "bang", "show"],
            Instruction::HideBangBang => seq!["bang", "bang", "hide"],
            Instruction::ClearDisplay => seq!["clear", "display"],
            Instruction::DisplayText => seq!["display", "label"],
            Instruction::DisplayAnalog => seq!["display", "analog"],
            Instruction::DisplayOffOn => seq!["display", "off", "on"],
            Instruction::DisplayOnOff => seq!["display", "on", "off"],
            Instruction::ExampleWaterTank => seq!["example", "water", "tank"],
        },
{
}

/// The argument names of each instruction: a pin and on/off for a digital output; a pin and a
/// percentage for an analog output; a pin for the controller's input and output; a
/// percentage for each limit; a label for a text line; a label and a pin for the other display
/// lines; and none for ping, starting, stopping, showing and hiding the controller, clearing
/// the display and the water tank example.
pub proof fn lemma_argument_names(instruction: Instruction)
    ensures
        instruction.spec_arguments() == match instruction {
            Instruction::SetDigitalOut => seq!["PIN", "on|off"],
            Instruction::SetAnalogOut => seq!["PIN", "0-100"],
            Instruction::SetBangBangInput | Instruction::SetBangBangOutput => seq!["PIN"],
            Instruction::SetBangBangLowerLimit | Instruction::SetBangBangUpperLimit => seq!["0-100"],
            Instruction::DisplayText => seq!["LABEL"],
            Instruction::DisplayAnalog | Instruction::DisplayOffOn | Instruction::DisplayOnOff => seq![
                "LABEL",
                "PIN",
            ],
            Instruction::PingPong | Instruction::StartBangBang | Instruction::StopBangBang
            | Instruction::ShowBangBang | Instruction::HideBangBang | Instruction::ClearDisplay
            | Instruction::ExampleWaterTank => Seq::<&'static str>::empty(),
        },
{
    assert(instruction.spec_arguments() =~= match instruction {
        Instruction::SetDigitalOut => seq!["PIN", "on|off"],
        Instruction::SetAnalogOut => seq!["PIN", "0-100"],
        Instruction::SetBangBangInput | Instruction::SetBangBangOutput => seq!["PIN"],
        Instruction::SetBangBangLowerLimit | Instruction::SetBangBangUpperLimit => seq!["0-100"],
        Instruction::DisplayText => seq!["LABEL"],
        Instruction::DisplayAnalog | Instruction::DisplayOffOn | Instruction::DisplayOnOff => seq![
            "LABEL",
            "PIN",
        ],
        _ => Seq::<&'static str>::empty(),
    });
}

/// A command line that is exactly the words of an instruction without arguments matches it in
/// full: "bang bang stop" stops the controller, "ping" pings, and so on.
pub proof fn lemma_instructions_without_arguments_match_alone(command: Seq<String>, i: int)
    requires
        0 <= i < instruction_table().len(),
        instruction_table()[i] is PingPong || instruction_table()[i] is StartBangBang
            || instruction_table()[i] is StopBangBang || instruction_table()[i] is ShowBangBang
            || instruction_table()[i] is HideBangBang || instruction_table()[i] is ClearDisplay
            || instruction_table()[i] is ExampleWaterTank,
        starts_with(command, instruction_table()[i].spec_prefix()),
        command.len() == instruction_table()[i].spec_prefix().len(),
    ensures
        match_of(instruction_table(), command) == Match::Full(instruction_table()[i]),
{
    lemma_argument_names(instruction_table()[i]);
    lemma_instruction_found_by_its_prefix(command, i);
}

/// How many leading words of the command line equal the words, in order.
fn matching_words(command: &[String], words: &Vec<&'static str>) -> (count: usize)
    ensures
        count <= words@.len(),
        count == words@.len() <==> starts_with(command@, words@),
{
    let mut count: usize = 0;
    while count < command.len() && count < words.len()
        invariant
            count <= command@.len(),
            count <= words@.len(),
            forall|i: int| 0 <= i < count ==> command@[i]@ == (#[trigger] words@[i])@,
        decreases words@.len() - count,
    {
        let word = String::from_str(words[count]);
        if command[count] != word {
            return count;
        }
        count = count + 1;
    }
    count
}

/// Matches a command line against the instructions, in order: the first instruction whose
/// prefix starts the command line matches in full when the rest of the line is its
/// arguments, and partly otherwise.
pub fn find_instruction(instructions: &[Instruction], command: &[String]) -> (found: Match)
    ensures
        found == match_of(instructions@, command@),
{
    let mut k: usize = 0;
    assert(instructions@.skip(0) =~= instructions@);
    while k < instructions.len()
        invariant
            0 <= k <= instructions@.len(),
            first_match(instructions@, command@) == match first_match(
                instructions@.skip(k as int),
                command@,
            ) {
                Some(j) => Some(j + k),
                None => None,
            },
        decreases instructions.len() - k,
    {
        assert(instructions@.skip(k as int).drop_first() =~= instructions@.skip(k + 1));
        let instruction = instructions[k];
        let prefix = instruction.prefix();
        let arguments = instruction.arguments();
        let count = matching_words(command, &prefix);
        if count == prefix.len() {
            if command.len() == prefix.len() + arguments.len() {
                return Match::Full(instruction);
            } else {
                return Match::Partial(instruction);
            }
        }
        k = k + 1;
    }
    Match::NoMatch
}

/// The text of words, each followed by a space.
pub open spec fn spaced(words: Seq<&'static str>) -> Seq<char>
    decreases words.len(),
{
    if words.len() == 0 {
        Seq::empty()
    } else {
        spaced(words.drop_last()) + words.last()@ + " "@
    }
}

fn append_spaced(text: &mut String, words: &Vec<&'static str>)
    ensures
        final(text)@ == old(text)@ + spaced(words@),
{
    let mut i: usize = 0;
    while i < words.len()
        invariant
            0 <= i <= words@.len(),
            text@ == old(text)@ + spaced(words@.take(i as int)),
        decreases words.len() - i,
    {
        assert(words@.take(i + 1).drop_last() =~= words@.take(i as int));
        text.append(words[i]);
        text.append(" ");
        assert(text@ =~= old(text)@ + spaced(words@.take(i + 1)));
        i = i + 1;
    }
    assert(words@.take(words@.len() as int) =~= words@);
}

impl Instruction {
    /// The instruction as its usage shows it: its prefix and then the names of its
    /// arguments, each word followed by a space.
    pub fn to_string(&self) -> (text: String)
        ensures
            text@ == spaced(self.spec_prefix()) + spaced(self.spec_arguments()),
    {
        let mut text = String::new();
        append_spaced(&mut text, &self.prefix());
        append_spaced(&mut text, &self.arguments());
        assert(text@ =~= spaced(self.spec_prefix()) + spaced(self.spec_arguments()));
        text
    }
}

/// Why a number did not parse, as `std::num::IntErrorKind` tells it.
#[derive(Debug, PartialEq, Eq, Structural, Clone, Copy)]
pub enum ParseError {
    Empty,
    InvalidDigit,
    PosOverflow,
}

/// The message of a parse error, as std writes it.
pub open spec fn error_text(error: ParseError) -> Seq<char> {
    match error {
        ParseError::Empty => "cannot parse integer from empty string"@,
        ParseError::InvalidDigit => "invalid digit found in string"@,
        ParseError::PosOverflow => "number too large to fit in target type"@,
    }
}

/// Whether a character is an ASCII decimal digit.
pub open spec fn is_digit(c: char) -> bool {
    '0' <= c <= '9'
}

/// The value of a string of decimal digits.
pub open spec fn digits_value(digits: Seq<char>) -> int
    decreases digits.len(),
{
    if digits.len() == 0 {
        0
    } else {
        digits_value(digits.drop_last()) * 10 + (digits.last() as int - '0' as int)
    }
}

/// The digits of a numeral: what follows its `+` sign, if it has one.
pub open spec fn numeral_digits(text: Seq<char>) -> Seq<char> {
    if text.len() > 0 && text[0] == '+' {
        text.drop_first()
    } else {
        text
    }
}

/// Whether a text is a numeral: an optional `+` followed by one or more decimal digits.
pub open spec fn is_numeral(text: Seq<char>) -> bool {
    &&& numeral_digits(text).len() > 0
    &&& forall|i: int| 0 <= i < numeral_digits(text).len() ==> is_digit(#[trigger] numeral_digits(text)[i])
}

/// The byte that a text denotes, if it is a numeral of a value up to 255.
pub open spec fn parsed_u8(text: Seq<char>) -> Option<u8> {
    if is_numeral(text) && digits_value(numeral_digits(text)) <= 255 {
        Some(digits_value(numeral_digits(text)) as u8)
    } else {
        None
    }
}

/// What `str::parse::<u8>` reports of a text that does not denote a byte.
pub uninterp spec fn u8_parse_error(text: Seq<char>) -> ParseError;

/// How many decimal digits a text holds.
pub open spec fn digit_count(text: Seq<char>) -> nat
    decreases text.len(),
{
    if text.len() == 0 {
        0
    } else {
        digit_count(text.drop_last()) + if is_digit(text.last()) {
            1nat
        } else {
            0nat
        }
    }
}

/// `str::parse::<u8>`, which std documents as accepting an optional `+` sign followed by
/// decimal digits whose value fits in a byte. Its error is `Empty` exactly for the empty
/// text, `PosOverflow` (an integer too large for the type) for a numeral that is too large,
/// and `InvalidDigit` for a text that is no numeral and holds at most two digits, so that no
/// integer it holds can be too large. For the other texts that do not parse (no numeral, but
/// three digits or more, such as "999x"), std's documentation does not say which of
/// `InvalidDigit` and `PosOverflow` comes, and this contract names it without saying.
#[verifier::external_body]
fn parse_u8(text: &str) -> (result: Result<u8, ParseError>)
    ensures
        result is Ok <==> parsed_u8(text@) is Some,
        result matches Ok(value) ==> parsed_u8(text@) == Some(value),
        result is Err ==> result->Err_0 == u8_parse_error(text@),
        result is Err ==> (result->Err_0 == ParseError::Empty <==> text@.len() == 0),
        is_numeral(text@) && digits_value(numeral_digits(text@)) > 255 ==> result matches Err(
            ParseError::PosOverflow,
        ),
        text@.len() > 0 && !is_numeral(text@) && digit_count(text@) <= 2 ==> result matches Err(
            ParseError::InvalidDigit,
        ),
{
    match text.parse::<u8>() {
        Ok(value) => Ok(value),
        Err(error) => Err(match error.kind() {
            std::num::IntErrorKind::Empty => ParseError::Empty,
            std::num::IntErrorKind::PosOverflow => ParseError::PosOverflow,
            _ => ParseError::InvalidDigit,
        }),
    }
}

fn error_message(error: ParseError) -> (text: &'static str)
    ensures
        text@ == error_text(error),
{
    match error {
        ParseError::Empty => "cannot parse integer from empty string",
        ParseError::InvalidDigit => "invalid digit found in string",
        ParseError::PosOverflow => "number too large to fit in target type",
    }
}

/// Why a text does not denote a byte: `Empty` for the empty text, `PosOverflow` for a
/// numeral above 255, `InvalidDigit` for a text that is no numeral and holds at most two
/// digits, and otherwise what the parser reports.
pub open spec fn byte_error(text: Seq<char>) -> ParseError {
    if text.len() == 0 {
        ParseError::Empty
    } else if is_numeral(text) && digits_value(numeral_digits(text)) > 255 {
        ParseError::PosOverflow
    } else if !is_numeral(text) && digit_count(text) <= 2 {
        ParseError::InvalidDigit
    } else {
        u8_parse_error(text)
    }
}

/// A byte argument: its value, or an error that names what it is and why it does not parse.
pub open spec fn byte_argument(argument: Seq<char>, what: Seq<char>) -> Result<u8, Seq<char>> {
    match parsed_u8(argument) {
        Some(value) => Ok(value),
        None => Err(what + error_text(byte_error(argument))),
    }
}

fn parse_byte(argument: &String, what: &'static str) -> (result: Result<u8, String>)
    ensures
        match byte_argument(argument@, what@) {
            Ok(value) => result == Ok::<u8, String>(value),
            Err(text) => result matches Err(message) && message@ == text,
        },
{
    match parse_u8(argument.as_str()) {
        Ok(value) => Ok(value),
        Err(error) => {
            let mut message = String::from_str(what);
            message.append(error_message(error));
            Err(message)
        },
    }
}

/// A pin argument.
pub fn get_pin(argument: &String) -> (result: Result<u8, String>)
    ensures
        match byte_argument(argument@, "invalid pin: "@) {
            Ok(value) => result == Ok::<u8, String>(value),
            Err(text) => result matches Err(message) && message@ == text,
        },
{
    parse_byte(argument, "invalid pin: ")
}

/// A number argument, from 0 to 255.
pub fn get_number(argument: &String) -> (result: Result<u8, String>)
    ensures
        match byte_argument(argument@, "invalid number: "@) {
            Ok(value) => result == Ok::<u8, String>(value),
            Err(text) => result matches Err(message) && message@ == text,
        },
{
    parse_byte(argument, "invalid number: ")
}

/// An on/off argument: on exactly when it is "on".
pub fn get_on_off(argument: &String) -> (result: Result<bool, String>)
    ensures
        result == Ok::<bool, String>(argument@ == "on"@),
{
    let on = String::from_str("on");
    Ok(*argument == on)
}

/// Whether a label argument fits in a label.
pub open spec fn label_fits(argument: Seq<char>) -> bool {
    encode_utf8(argument).len() <= LABEL_CAPACITY
}

/// The message of a label that does not fit: the `CapacityError` of heapless.
pub open spec fn label_error_text() -> Seq<char> {
    "invalid label: insufficient capacity"@
}

/// A label argument: it fails when it is longer than sixteen bytes.
pub fn get_label(argument: &String) -> (result: Result<Label, String>)
    ensures
        label_fits(argument@) <==> result is Ok,
        result matches Ok(label) ==> label_text(label) == argument@,
        result matches Err(message) ==> message@ == label_error_text(),
{
    match Label::try_from_str(argument.as_str()) {
        Ok(label) => Ok(label),
        Err(_) => {
            let message = String::from_str("invalid label: insufficient capacity");
            Err(message)
        },
    }
}

/// The text of a display line that `add_line` makes of a label: the label, or nothing when
/// it does not fit.
pub open spec fn line_text(label: &str) -> Seq<char> {
    if label.spec_bytes().len() <= LABEL_CAPACITY {
        label@
    } else {
        Seq::empty()
    }
}

/// Whether a command adds a display line with the given text and value.
pub open spec fn adds_line(command: Command, text: Seq<char>, value: Value) -> bool {
    command matches Command::AddLine { label, value: v } && label_text(label) == text && v
        == value
}

/// The command that adds a display line; a label that does not fit becomes empty.
pub fn add_line(label: &str, value: Value) -> (command: Command)
    ensures
        adds_line(command, line_text(label), value),
{
    let label = match Label::try_from_str(label) {
        Ok(text) => text,
        Err(_) => Label::new(),
    };
    Command::AddLine { label, value }
}

/// Whether a result is the given commands.
pub open spec fn gives(result: Result<Vec<Command>, String>, commands: Seq<Command>) -> bool {
    result matches Ok(given) && given@ == commands
}

/// Whether a result is an error with the given message.
pub open spec fn fails_with(result: Result<Vec<Command>, String>, text: Seq<char>) -> bool {
    result matches Err(message) && message@ == text
}

/// Whether a result is one display line, with a label from the argument and the value.
pub open spec fn gives_line(
    result: Result<Vec<Command>, String>,
    argument: Seq<char>,
    value: Value,
) -> bool {
    result matches Ok(given) && given@.len() == 1 && adds_line(given@[0], argument, value)
}

/// A display line whose value names a pin: the label comes first, then the pin.
pub open spec fn line_with_pin(
    result: Result<Vec<Command>, String>,
    arguments: Seq<String>,
    value: spec_fn(u8) -> Value,
) -> bool {
    if !label_fits(arguments[0]@) {
        fails_with(result, label_error_text())
    } else {
        match byte_argument(arguments[1]@, "invalid pin: "@) {
            Err(text) => fails_with(result, text),
            Ok(pin) => gives_line(result, arguments[0]@, value(pin)),
        }
    }
}

/// What an instruction makes of its arguments.
pub open spec fn run_result(
    instruction: Instruction,
    arguments: Seq<String>,
    result: Result<Vec<Command>, String>,
) -> bool {
    match instruction {
        Instruction::PingPong => gives(result, seq![Command::Ping]),
        Instruction::SetDigitalOut => match byte_argument(arguments[0]@, "invalid pin: "@) {
            Err(text) => fails_with(result, text),
            Ok(pin) => gives(result, seq![Command::SetDO { pin, value: arguments[1]@ == "on"@ }]),
        },
        Instruction::SetAnalogOut => match byte_argument(arguments[0]@, "invalid pin: "@) {
            Err(text) => fails_with(result, text),
            Ok(pin) => match byte_argument(arguments[1]@, "invalid number: "@) {
                Err(text) => fails_with(result, text),
                Ok(value) => gives(result, seq![Command::SetAO { pin, value }]),
            },
        },
        Instruction::StartBangBang => gives(result, seq![Command::BangBangStart]),
        Instruction::StopBangBang => gives(result, seq![Command::BangBangStop]),
        Instruction::SetBangBangInput => match byte_argument(arguments[0]@, "invalid pin: "@) {
            Err(text) => fails_with(result, text),
            Ok(pin) => gives(result, seq![Command::BangBangInput { pin }]),
        },
        Instruction::SetBangBangOutput => match byte_argument(arguments[0]@, "invalid pin: "@) {
            Err(text) => fails_with(result, text),
            Ok(pin) => gives(result, seq![Command::BangBangOutput { pin }]),
        },
        Instruction::SetBangBangLowerLimit => match byte_argument(
            arguments[0]@,
            "invalid number: "@,
        ) {
            Err(text) => fails_with(result, text),
            Ok(value) => gives(result, seq![Command::BangBangLowerLimit { value }]),
        },
        Instruction::SetBangBangUpperLimit => match byte_argument(
            arguments[0]@,
            "invalid number: "@,
        ) {
            Err(text) => fails_with(result, text),
            Ok(value) => gives(result, seq![Command::BangBangUpperLimit { value }]),
        },
        Instruction::ShowBangBang => gives(result, seq![Command::BangBangShow]),
        Instruction::HideBangBang => gives(result, seq![Command::BangBangHide]),
        Instruction::ClearDisplay => gives(result, seq![Command::ClearDisplay]),
        Instruction::DisplayText => if label_fits(arguments[0]@) {
            gives_line(result, arguments[0]@, Value::Blank)
        } else {
            fails_with(result, label_error_text())
        },
        Instruction::DisplayAnalog => line_with_pin(result, arguments, |pin: u8| Value::Analog(pin)),
        Instruction::DisplayOffOn => line_with_pin(result, arguments, |pin: u8| Value::OffOn(pin)),
        Instruction::DisplayOnOff => line_with_pin(result, arguments, |pin: u8| Value::OnOff(pin)),
        Instruction::ExampleWaterTank => result matches Ok(given) && {
            let c = given@;
            &&& c.len() == 10
            &&& c[0] == Command::ClearDisplay
            &&& adds_line(c[1], line_text("Water tank"), Value::Blank)
            &&& adds_line(c[2], line_text("Pump"), Value::Analog(PUMP))
            &&& adds_line(c[3], line_text("Fill level"), Value::Analog(FILL))
            &&& adds_line(c[4], line_text("Source (NC)"), Value::OffOn(SOURCE))
            &&& adds_line(c[5], line_text("Drain  (NO)"), Value::OnOff(DRAIN))
            &&& c[6] == Command::BangBangInput { pin: FILL }
            &&& c[7] == Command::BangBangOutput { pin: SET_PUMP }
            &&& c[8] == Command::BangBangLowerLimit { value: CONTROLLER_LOWER_LIMIT }
            &&& c[9] == Command::BangBangUpperLimit { value: CONTROLLER_UPPER_LIMIT }
        },
    }
}

fn one(command: Command) -> (commands: Vec<Command>)
    ensures
        commands@ == seq![command],
{
    let mut commands: Vec<Command> = Vec::new();
    commands.push(command);
    commands
}

impl Instruction {
    /// Turns the instruction's arguments into the commands to send, or the error of the first
    /// argument that is wrong.
    pub fn run(&self, arguments: &[String]) -> (result: Result<Vec<Command>, String>)
        requires
            arguments@.len() >= self.spec_arguments().len(),
        ensures
            run_result(*self, arguments@, result),
    {
        match self {
            Instruction::PingPong => Ok(one(Command::Ping)),
            Instruction::SetDigitalOut => {
                let pin = get_pin(&arguments[0])?;
                let value = get_on_off(&arguments[1])?;
                Ok(one(Command::SetDO { pin, value }))
            },
            Instruction::SetAnalogOut => {
                let pin = get_pin(&arguments[0])?;
                let value = get_number(&arguments[1])?;
                Ok(one(Command::SetAO { pin, value }))
            },
            Instruction::StartBangBang => Ok(one(Command::BangBangStart)),
            Instruction::StopBangBang => Ok(one(Command::BangBangStop)),
            Instruction::SetBangBangInput => {
                let pin = get_pin(&arguments[0])?;
                Ok(one(Command::BangBangInput { pin }))
            },
            Instruction::SetBangBangOutput => {
                let pin = get_pin(&arguments[0])?;
                Ok(one(Command::BangBangOutput { pin }))
            },
            Instruction::SetBangBangLowerLimit => {
                let value = get_number(&arguments[0])?;
                Ok(one(Command::BangBangLowerLimit { value }))
            },
            Instruction::SetBangBangUpperLimit => {
                let value = get_number(&arguments[0])?;
                Ok(one(Command::BangBangUpperLimit { value }))
            },
            Instruction::ShowBangBang => Ok(one(Command::BangBangShow)),
            Instruction::HideBangBang => Ok(one(Command::BangBangHide)),
            Instruction::ClearDisplay => Ok(one(Command::ClearDisplay)),
            Instruction::DisplayText => {
                let label = get_label(&arguments[0])?;
                Ok(one(Command::AddLine { label, value: Value::Blank }))
            },
            Instruction::DisplayAnalog => {
                let label = get_label(&arguments[0])?;
                let pin = get_pin(&arguments[1])?;
                Ok(one(Command::AddLine { label, value: Value::Analog(pin) }))
            },
            Instruction::DisplayOffOn => {
                let label = get_label(&arguments[0])?;
                let pin = get_pin(&arguments[1])?;
                Ok(one(Command::AddLine { label, value: Value::OffOn(pin) }))
            },
            Instruction::DisplayOnOff => {
                let label = get_label(&arguments[0])?;
                let pin = get_pin(&arguments[1])?;
                Ok(one(Command::AddLine { label, value: Value::OnOff(pin) }))
            },
            Instruction::ExampleWaterTank => {
                let mut commands: Vec<Command> = Vec::new();
                commands.push(Command::ClearDisplay);
                commands.push(add_line("Water tank", Value::Blank));
                commands.push(add_line("Pump", Value::Analog(PUMP)));
                commands.push(add_line("Fill level", Value::Analog(FILL)));
                commands.push(add_line("Source (NC)", Value::OffOn(SOURCE)));
                commands.push(add_line("Drain  (NO)", Value::OnOff(DRAIN)));
                commands.push(Command::BangBangInput { pin: FILL });
                commands.push(Command::BangBangOutput { pin: SET_PUMP });
                commands.push(Command::BangBangLowerLimit { value: CONTROLLER_LOWER_LIMIT });
                commands.push(Command::BangBangUpperLimit { value: CONTROLLER_UPPER_LIMIT });
                Ok(commands)
            },
        }
    }
}

/// The instruction that a command line matches is the first in the table whose prefix starts
/// it; when none matches, no instruction's prefix starts it.
pub proof fn lemma_first_match_is_first(instructions: Seq<Instruction>, command: Seq<String>)
    ensures
        first_match(instructions, command) matches Some(i) ==> {
            &&& 0 <= i < instructions.len()
            &&& starts_with(command, instructions[i].spec_prefix())
            &&& forall|j: int| 0 <= j < i ==> !starts_with(command, (#[trigger] instructions[j]).spec_prefix())
        },
        first_match(instructions, command) is None ==> forall|j: int|
            0 <= j < instructions.len() ==> !starts_with(command, (#[trigger] instructions[j]).spec_prefix()),
    decreases instructions.len(),
{
    if instructions.len() > 0 {
        let rest = instructions.drop_first();
        lemma_first_match_is_first(rest, command);
        assert forall|j: int| 0 < j < instructions.len() implies instructions[j] == rest[j - 1] by {}
    }
}

/// Words start a command line exactly when the command line has at least as many words and
/// its first words are those words, in order.
pub proof fn lemma_starts_with_words(command: Seq<String>, words: Seq<&'static str>)
    ensures
        starts_with(command, words) <==> (words.len() <= command.len() && forall|i: int|
            0 <= i < words.len() ==> (#[trigger] command[i])@ == words[i]@),
{
}

/// The commands that each instruction sends, when its byte arguments parse: a ping; the
/// digital output of the pin, on exactly when the second word is "on"; the analog output of
/// the pin with the number; the controller's start, stop, show and hide; its input or output
/// pin; its lower or upper limit; and clearing the display.
pub proof fn lemma_instruction_commands(instruction: Instruction, arguments: Seq<String>, result: Result<Vec<Command>, String>)
    requires
        arguments.len() >= instruction.spec_arguments().len(),
        run_result(instruction, arguments, result),
    ensures
        instruction is PingPong ==> (result matches Ok(c) && c@ == seq![Command::Ping]),
        instruction is StartBangBang ==> (result matches Ok(c) && c@ == seq![Command::BangBangStart]),
        instruction is StopBangBang ==> (result matches Ok(c) && c@ == seq![Command::BangBangStop]),
        instruction is ShowBangBang ==> (result matches Ok(c) && c@ == seq![Command::BangBangShow]),
        instruction is HideBangBang ==> (result matches Ok(c) && c@ == seq![Command::BangBangHide]),
        instruction is ClearDisplay ==> (result matches Ok(c) && c@ == seq![Command::ClearDisplay]),
        ({
            let first = parsed_u8(arguments[0]@);
            &&& instruction is SetDigitalOut && first is Some ==> (result matches Ok(c) && c@ == seq![
                Command::SetDO { pin: first->0, value: arguments[1]@ == "on"@ },
            ])
            &&& instruction is SetAnalogOut && first is Some && parsed_u8(arguments[1]@) is Some
                ==> (result matches Ok(c) && c@ == seq![
                Command::SetAO { pin: first->0, value: parsed_u8(arguments[1]@)->0 },
            ])
            &&& instruction is SetBangBangInput && first is Some ==> (result matches Ok(c) && c@
                == seq![Command::BangBangInput { pin: first->0 }])
            &&& instruction is SetBangBangOutput && first is Some ==> (result matches Ok(c) && c@
                == seq![Command::BangBangOutput { pin: first->0 }])
            &&& instruction is SetBangBangLowerLimit && first is Some ==> (result matches Ok(c)
                && c@ == seq![Command::BangBangLowerLimit { value: first->0 }])
            &&& instruction is SetBangBangUpperLimit && first is Some ==> (result matches Ok(c)
                && c@ == seq![Command::BangBangUpperLimit { value: first->0 }])
            &&& (instruction is SetDigitalOut || instruction is SetAnalogOut
                || instruction is SetBangBangInput || instruction is SetBangBangOutput
                || instruction is SetBangBangLowerLimit || instruction is SetBangBangUpperLimit)
                && first is None ==> result is Err
        }),
{
}

} // verus!
