//! The tool that subscribes to the reports of the pico and logs them: its configuration and
//! how it names what it logs.
use vstd::prelude::*;
use vstd::string::StringExecFns;
use crate::messages::Content;
use super::PICO_ADDRESS_USAGE;

verus! {

/// The error of a wrong command line: the message, then how to tell the tool where the pico
/// is.
pub fn error(message: String) -> (text: String)
    ensures
        text@ == message@ + "\n"@ + PICO_ADDRESS_USAGE@,
{
    let mut text = message;
    text.append("\n");
    text.append(PICO_ADDRESS_USAGE);
    text
}

/// Checks the tool's arguments, the first of which names the executable: the tool takes no
/// others.
pub fn check_arguments(arguments: &[String]) -> (checked: Result<(), String>)
    ensures
        arguments@.len() <= 1 ==> checked is Ok,
        arguments@.len() > 1 ==> (checked matches Err(text) && text@
            == "command does not expect arguments"@ + "\n"@ + PICO_ADDRESS_USAGE@),
{
    if arguments.len() > 1 {
        return Err(error(String::from_str("command does not expect arguments")));
    }
    Ok(())
}

/// The name under which a report is logged; a pong is not expected and gets none.
pub fn task_name(content: &Content) -> (name: Option<&'static str>)
    ensures
        *content is Pong ==> name is None,
        *content is DI ==> (name matches Some(text) && text@ == "digital in"@),
        *content is DO ==> (name matches Some(text) && text@ == "digital out"@),
        *content is AI ==> (name matches Some(text) && text@ == "analog in"@),
        *content is AO ==> (name matches Some(text) && text@ == "analog out"@),
        *content is BangBang ==> (name matches Some(text) && text@ == "bang bang"@),
{
    match content {
        Content::Pong => None,
        Content::DI { .. } => Some("digital in"),
        Content::DO { .. } => Some("digital out"),
        Content::AI { .. } => Some("analog in"),
        Content::AO { .. } => Some("analog out"),
        Content::BangBang { .. } => Some("bang bang"),
    }
}

} // verus!
