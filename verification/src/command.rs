//! Plain data carried between the gateway plumbing and the command
//! handlers: the name and description a command is registered under,
//! and the options an interaction delivers to a handler.

use vstd::prelude::*;

verus! {

/// What a slash command is registered as: its name and description.
pub struct CommandDefinition {
    pub name: String,
    pub description: String,
}

/// One option of an incoming interaction, reduced to its textual form.
/// The handlers of this bot ignore options, so nothing more is kept.
pub struct CommandOption {
    pub name: String,
    pub value: String,
}

} // verus!
