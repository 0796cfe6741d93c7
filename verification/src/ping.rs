//! The `ping` command: replies with one fixed line of text, whatever
//! options the interaction carried.

use vstd::prelude::*;
use crate::command::CommandDefinition;
use crate::command::CommandOption;

verus! {

/// The reply of the `ping` command, the same for every invocation.
pub fn run(options: &Vec<CommandOption>) -> (reply: String)
    ensures
        reply@ == "Wow, this is so rusty!"@,
{
    let _ = options;
    String::from_str("Wow, this is so rusty!")
}

/// The registration data of the `ping` command.
pub fn register() -> (command: CommandDefinition)
    ensures
        command.name@ == "ping"@,
        command.description@ == "This gives you a message back."@,
{
    CommandDefinition {
        name: String::from_str("ping"),
        description: String::from_str("This gives you a message back."),
    }
}

} // verus!
