//! The command that shows or hides the help.

use crate::command_mode::registry::{shares, texts, Command, SharedCommand};
use crate::state::AppState;
use crate::text::{chars_of, string_of, succeeds_with};
use std::rc::Rc;
use vstd::prelude::*;

verus! {

/// The command `help`.
pub struct HelpCommand;

/// What `help` does, whatever its arguments: the help is shown
/// if it was hidden, and hidden if it was shown.
pub open spec fn help_outcome(
    args: Seq<Seq<char>>,
    before: AppState,
    after: AppState,
    result: Result<String, String>,
) -> bool {
    &&& after == (AppState { show_help: !before.show_help, ..before })
    &&& succeeds_with(result, "help"@)
}

/// Runs `help`.
pub fn help(args: &[&str], state: &mut AppState) -> (r: Result<String, String>)
    ensures
        help_outcome(texts(args@), *old(state), *final(state), r),
{
    state.show_help = !state.show_help;
    Ok(string_of(&chars_of("help")))
}

impl Command<AppState> for HelpCommand {
    open spec fn spec_name(&self) -> Seq<char> {
        "help"@
    }

    open spec fn spec_aliases(&self) -> Seq<Seq<char>> {
        seq!["h"@]
    }

    open spec fn spec_description(&self) -> Seq<char> {
        "Show help information"@
    }

    open spec fn outcome(
        &self,
        args: Seq<Seq<char>>,
        before: AppState,
        after: AppState,
        result: Result<String, String>,
    ) -> bool {
        help_outcome(args, before, after, result)
    }

    fn name(&self) -> (r: &str) {
        "help"
    }

    fn aliases(&self) -> (r: Vec<&str>) {
        let mut r: Vec<&str> = Vec::new();
        r.push("h");
        r
    }

    fn description(&self) -> (r: &str) {
        "Show help information"
    }

    fn execute(&self, args: &[&str], state: &mut AppState) -> (r: Result<String, String>) {
        help(args, state)
    }
}

/// The command `help`, ready to be registered.
pub fn create() -> (r: SharedCommand<AppState>)
    ensures
        shares(r, HelpCommand),
{
    let boxed: Box<dyn Command<AppState>> = Box::new(HelpCommand);
    let r = Rc::new(boxed);
    r
}

} // verus!
