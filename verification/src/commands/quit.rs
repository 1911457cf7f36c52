//! The command that ends the viewer.

use crate::command_mode::registry::{shares, texts, Command, SharedCommand};
use crate::state::AppState;
use crate::text::{chars_of, string_of, succeeds_with};
use std::rc::Rc;
use vstd::prelude::*;

verus! {

/// The command `quit`.
pub struct QuitCommand;

/// What `quit` does, whatever its arguments: the viewer is about to
/// end.
pub open spec fn quit_outcome(
    args: Seq<Seq<char>>,
    before: AppState,
    after: AppState,
    result: Result<String, String>,
) -> bool {
    &&& after == (AppState { exit: true, ..before })
    &&& succeeds_with(result, "Exiting digisurf..."@)
}

/// Runs `quit`.
pub fn quit(args: &[&str], state: &mut AppState) -> (r: Result<String, String>)
    ensures
        quit_outcome(texts(args@), *old(state), *final(state), r),
{
    state.exit = true;
    Ok(string_of(&chars_of("Exiting digisurf...")))
}

impl Command<AppState> for QuitCommand {
    open spec fn spec_name(&self) -> Seq<char> {
        "quit"@
    }

    open spec fn spec_aliases(&self) -> Seq<Seq<char>> {
        seq!["q"@]
    }

    open spec fn spec_description(&self) -> Seq<char> {
        "Quit digisurf"@
    }

    open spec fn outcome(
        &self,
        args: Seq<Seq<char>>,
        before: AppState,
        after: AppState,
        result: Result<String, String>,
    ) -> bool {
        quit_outcome(args, before, after, result)
    }

    fn name(&self) -> (r: &str) {
        "quit"
    }

    fn aliases(&self) -> (r: Vec<&str>) {
        let mut r: Vec<&str> = Vec::new();
        r.push("q");
        r
    }

    fn description(&self) -> (r: &str) {
        "Quit digisurf"
    }

    fn execute(&self, args: &[&str], state: &mut AppState) -> (r: Result<String, String>) {
        quit(args, state)
    }
}

/// The command `quit`, ready to be registered.
pub fn create() -> (r: SharedCommand<AppState>)
    ensures
        shares(r, QuitCommand),
{
    let boxed: Box<dyn Command<AppState>> = Box::new(QuitCommand);
    let r = Rc::new(boxed);
    r
}

} // verus!
