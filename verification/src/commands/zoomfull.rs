//! The command that shows the whole trace.

use crate::command_mode::registry::{shares, texts, Command, SharedCommand};
use crate::navigation::Window;
use crate::state::AppState;
use crate::text::{chars_of, string_of, succeeds_with};
use std::rc::Rc;
use vstd::prelude::*;

verus! {

/// The command `zoomfull`.
pub struct ZoomFullCommand;

/// What `zoomfull` does, whatever its arguments: the window shows the
/// whole trace.
pub open spec fn zoomfull_outcome(
    args: Seq<Seq<char>>,
    before: AppState,
    after: AppState,
    result: Result<String, String>,
) -> bool {
    &&& after == before.with_window(Window { start: 0, range: before.waveform_data.max_time as int })
    &&& succeeds_with(result, "Zoomed to full view"@)
}

/// Runs `zoomfull`.
pub fn zoomfull(args: &[&str], state: &mut AppState) -> (r: Result<String, String>)
    ensures
        zoomfull_outcome(texts(args@), *old(state), *final(state), r),
{
    state.zoom_full();
    Ok(string_of(&chars_of("Zoomed to full view")))
}

impl Command<AppState> for ZoomFullCommand {
    open spec fn spec_name(&self) -> Seq<char> {
        "zoomfull"@
    }

    open spec fn spec_aliases(&self) -> Seq<Seq<char>> {
        seq!["zf"@]
    }

    open spec fn spec_description(&self) -> Seq<char> {
        "Zoom to show the full waveform"@
    }

    open spec fn outcome(
        &self,
        args: Seq<Seq<char>>,
        before: AppState,
        after: AppState,
        result: Result<String, String>,
    ) -> bool {
        zoomfull_outcome(args, before, after, result)
    }

    fn name(&self) -> (r: &str) {
        "zoomfull"
    }

    fn aliases(&self) -> (r: Vec<&str>) {
        let mut r: Vec<&str> = Vec::new();
        r.push("zf");
        r
    }

    fn description(&self) -> (r: &str) {
        "Zoom to show the full waveform"
    }

    fn execute(&self, args: &[&str], state: &mut AppState) -> (r: Result<String, String>) {
        zoomfull(args, state)
    }
}

/// The command `zoomfull`, ready to be registered.
pub fn create() -> (r: SharedCommand<AppState>)
    ensures
        shares(r, ZoomFullCommand),
{
    let boxed: Box<dyn Command<AppState>> = Box::new(ZoomFullCommand);
    let r = Rc::new(boxed);
    r
}

} // verus!
