//! What one invocation does, decided from its two possible arguments: a
//! prompt and a generation key are each optional and mutually exclusive.

use vstd::prelude::*;

verus! {

/// The one thing a run does.
pub enum CliAction {
    /// Resolve the configuration and send this prompt.
    Ask(String),
    /// Write a fresh configuration file holding this key.
    Generate(String),
    /// Report the usage hint; resolve nothing, contact nothing.
    Usage,
}

/// Decides the action from the command line: a prompt alone asks, a
/// generation key alone generates, and anything else — neither argument,
/// or both at once — is a usage error.
pub fn decide(prompt: Option<String>, generate_key: Option<String>) -> (r: CliAction)
    ensures
        prompt is Some && generate_key is None ==> r == CliAction::Ask(prompt->0),
        prompt is None && generate_key is Some ==> r == CliAction::Generate(generate_key->0),
        (prompt is Some) == (generate_key is Some) ==> r is Usage,
{
    match (prompt, generate_key) {
        (Some(p), None) => CliAction::Ask(p),
        (None, Some(k)) => CliAction::Generate(k),
        _ => CliAction::Usage,
    }
}

} // verus!
