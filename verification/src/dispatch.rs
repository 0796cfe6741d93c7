//! The command dispatcher: one interaction, one decision. A known name
//! selects its handler; an unknown one gets a fixed reply.

use vstd::prelude::*;
use vstd::string::StringExecFns;
use crate::command::CommandOption;
use crate::ping;

verus! {

/// What the dispatcher decides for one interaction: reply at once with
/// the given text, or run the voice flow of the `bing` command. Either
/// way exactly one interaction response is produced.
pub enum Dispatch {
    Reply { content: String },
    RunBing,
}

/// The two command names differ.
proof fn lemma_command_names_distinct()
    ensures
        "ping"@ != "bing"@,
{
    reveal_strlit("ping");
    reveal_strlit("bing");
    assert(("ping"@)[0] == 'p');
    assert(("bing"@)[0] == 'b');
}

/// The fixed reply for a command name that no handler exists for.
pub fn not_implemented_reply() -> (m: String)
    ensures
        m@ == "not implemented :("@,
{
    String::from_str("not implemented :(")
}

/// Selects exactly one handler for a command name: `ping` replies with
/// its fixed text, `bing` starts the voice flow, and any other name gets
/// the fixed not-implemented reply. The options never change the choice.
pub fn dispatch(name: &str, options: &Vec<CommandOption>) -> (d: Dispatch)
    ensures
        name@ == "ping"@ ==> (d matches Dispatch::Reply { content } && content@
            == "Wow, this is so rusty!"@),
        name@ == "bing"@ ==> d is RunBing,
        name@ != "ping"@ && name@ != "bing"@ ==> (d matches Dispatch::Reply { content }
            && content@ == "not implemented :("@),
{
    proof {
        lemma_command_names_distinct();
    }
    let n = String::from_str(name);
    let ping_name = String::from_str("ping");
    let bing_name = String::from_str("bing");
    if n == ping_name {
        Dispatch::Reply { content: ping::run(options) }
    } else if n == bing_name {
        Dispatch::RunBing
    } else {
        Dispatch::Reply { content: not_implemented_reply() }
    }
}

} // verus!
