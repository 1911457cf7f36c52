//! The command that opens the signal finder.

use crate::command_mode::registry::{shares, texts, Command, SharedCommand};
use crate::state::{AppMode, AppState};
use crate::text::{chars_of, string_of, succeeds_with};
use std::rc::Rc;
use vstd::prelude::*;

verus! {

/// The command `findsignal`.
pub struct FindSignalCommand;

/// What `findsignal` does, whatever its arguments: the viewer enters
/// the signal finder. The finder shows itself, so the command says nothing.
pub open spec fn find_signal_outcome(
    args: Seq<Seq<char>>,
    before: AppState,
    after: AppState,
    result: Result<String, String>,
) -> bool {
    &&& after == (AppState { mode: AppMode::FuzzyFinder, ..before })
    &&& succeeds_with(result, ""@)
}

/// Runs `findsignal`.
pub fn find_signal(args: &[&str], state: &mut AppState) -> (r: Result<String, String>)
    ensures
        find_signal_outcome(texts(args@), *old(state), *final(state), r),
{
    state.mode = AppMode::FuzzyFinder;
    Ok(string_of(&chars_of("")))
}

impl Command<AppState> for FindSignalCommand {
    open spec fn spec_name(&self) -> Seq<char> {
        "findsignal"@
    }

    open spec fn spec_aliases(&self) -> Seq<Seq<char>> {
        seq!["fs"@]
    }

    open spec fn spec_description(&self) -> Seq<char> {
        "Open signal finder to select signals to display"@
    }

    open spec fn outcome(
        &self,
        args: Seq<Seq<char>>,
        before: AppState,
        after: AppState,
        result: Result<String, String>,
    ) -> bool {
        find_signal_outcome(args, before, after, result)
    }

    fn name(&self) -> (r: &str) {
        "findsignal"
    }

    fn aliases(&self) -> (r: Vec<&str>) {
        let mut r: Vec<&str> = Vec::new();
        r.push("fs");
        r
    }

    fn description(&self) -> (r: &str) {
        "Open signal finder to select signals to display"
    }

    fn execute(&self, args: &[&str], state: &mut AppState) -> (r: Result<String, String>) {
        find_signal(args, state)
    }
}

/// The command `findsignal`, ready to be registered.
pub fn create() -> (r: SharedCommand<AppState>)
    ensures
        shares(r, FindSignalCommand),
{
    let boxed: Box<dyn Command<AppState>> = Box::new(FindSignalCommand);
    let r = Rc::new(boxed);
    r
}

} // verus!
