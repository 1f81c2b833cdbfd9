//! The command line tool that sends instructions to the pico: its configuration, its usage
//! texts, and the commands that an instruction sends.
use vstd::prelude::*;
use vstd::string::StringExecFns;
use crate::messages::Command;
use super::instruction::{run_result, spaced, Instruction};

verus! {

/// How to use the tool.
pub const USAGE: &'static str = "usage: COMMAND
Use command 'help' to show available commands.

Set environment variable PICO_ADDRESS to the address and port
of your pico. By default: PICO_ADDRESS=192.168.7.1:1234";

/// The configuration of the tool: the words of its command line.
pub struct Config {
    pub command: Vec<String>,
}

impl Config {
    /// The configuration from the tool's arguments, the first of which names the executable:
    /// the other arguments are the command, which must not be empty.
    pub fn build(arguments: Vec<String>) -> (config: Result<Config, String>)
        ensures
            arguments@.len() <= 1 ==> (config matches Err(message) && message@ == "missing command"@
                + "\n"@ + USAGE@),
            arguments@.len() > 1 ==> (config matches Ok(config) && config.command@
                == arguments@.skip(1)),
    {
        let mut arguments = arguments;
        if arguments.len() <= 1 {
            return Self::error(String::from_str("missing command"));
        }
        let command = arguments.split_off(1);
        Ok(Config { command })
    }

    /// The error of a wrong command line: the message, then how to use the tool.
    pub fn error(message: String) -> (config: Result<Config, String>)
        ensures
            config matches Err(text) && text@ == message@ + "\n"@ + USAGE@,
    {
        let mut text = message;
        text.append("\n");
        text.append(USAGE);
        Err(text)
    }
}

/// How to use an instruction.
pub fn usage(instruction: &Instruction) -> (text: String)
    ensures
        text@ == "usage: "@ + spaced(instruction.spec_prefix()) + spaced(
            instruction.spec_arguments(),
        ),
{
    let mut text = String::from_str("usage: ");
    let described = instruction.to_string();
    text.append(described.as_str());
    text
}

/// The list of the instructions: a title line, then one indented line per instruction.
pub fn list_instructions(instructions: &[Instruction]) -> (lines: Vec<String>)
    ensures
        lines@.len() == instructions@.len() + 1,
        lines@[0]@ == "Available commands:"@,
        forall|i: int|
            0 <= i < instructions@.len() ==> (#[trigger] lines@[i + 1])@ == "    "@ + spaced(
                instructions@[i].spec_prefix(),
            ) + spaced(instructions@[i].spec_arguments()),
{
    let mut lines: Vec<String> = Vec::new();
    lines.push(String::from_str("Available commands:"));
    let mut i: usize = 0;
    while i < instructions.len()
        invariant
            0 <= i <= instructions@.len(),
            lines@.len() == i + 1,
            lines@[0]@ == "Available commands:"@,
            forall|k: int|
                0 <= k < i ==> (#[trigger] lines@[k + 1])@ == "    "@ + spaced(
                    instructions@[k].spec_prefix(),
                ) + spaced(instructions@[k].spec_arguments()),
        decreases instructions.len() - i,
    {
        let mut line = String::from_str("    ");
        let described = instructions[i].to_string();
        line.append(described.as_str());
        lines.push(line);
        i = i + 1;
    }
    lines
}

/// The commands of an instruction whose prefix starts the command line: the instruction runs
/// once on the words after its prefix, and extra words are ignored; its error is passed back.
pub fn process_instruction(instruction: &Instruction, command: &[String]) -> (result: Result<
    Vec<Command>,
    String,
>)
    requires
        command@.len() >= instruction.spec_prefix().len() + instruction.spec_arguments().len(),
    ensures
        run_result(*instruction, command@.skip(instruction.spec_prefix().len() as int), result),
{
    let first_argument = instruction.prefix().len();
    let (_, arguments) = command.split_at(first_argument);
    assert(arguments@ =~= command@.skip(first_argument as int));
    instruction.run(arguments)
}

/// Whether the pico answers a command: it answers a ping.
pub fn expects_reply(command: &Command) -> (answered: bool)
    ensures
        answered == (*command is Ping),
{
    match command {
        Command::Ping => true,
        _ => false,
    }
}

} // verus!
