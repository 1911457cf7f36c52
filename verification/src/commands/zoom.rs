//! The command that shows one part in so many of the trace.

use crate::command_mode::registry::{shares, texts, Command, SharedCommand};
use crate::navigation::zoomed_to;
use crate::state::AppState;
use crate::text::{fails_with, succeeds_with, chars_of, decimal, parse_u64, parsed_u64, push_decimal, string_of};
use std::rc::Rc;
use vstd::prelude::*;

verus! {

/// The command `zoom <factor>`.
pub struct ZoomCommand;

/// What `zoom` does.
///
/// Without an argument it tells how it is used. With a first argument
/// that is no number above zero it says so. In these cases the state
/// stays. Else the window shows one part in so many of the trace, around
/// the same middle, and the command says what it zoomed to.
pub open spec fn zoom_outcome(
    args: Seq<Seq<char>>,
    before: AppState,
    after: AppState,
    result: Result<String, String>,
) -> bool {
    if args.len() == 0 {
        after == before && fails_with(result, "Usage: zoom <factor>"@)
    } else {
        match parsed_u64(args[0]) {
            Some(factor) => if factor > 0 {
                &&& after == before.with_window(
                    zoomed_to(
                        before.window(),
                        before.waveform_data.max_time as int,
                        factor as int,
                    ),
                )
                &&& succeeds_with(result, "Zoomed to 1/"@ + decimal(factor as nat))
            } else {
                after == before && fails_with(result, "Invalid zoom factor"@)
            },
            None => after == before && fails_with(result, "Invalid zoom factor"@),
        }
    }
}

/// Runs `zoom` on its arguments.
pub fn zoom(args: &[&str], state: &mut AppState) -> (r: Result<String, String>)
    ensures
        zoom_outcome(texts(args@), *old(state), *final(state), r),
{
    if args.len() == 0 {
        return Err(string_of(&chars_of("Usage: zoom <factor>")));
    }
    match parse_u64(&chars_of(args[0])) {
        Some(factor) => {
            match state.zoom_to_factor(factor) {
                Ok(()) => {
                    let mut message = chars_of("Zoomed to 1/");
                    push_decimal(&mut message, factor);
                    Ok(string_of(&message))
                },
                Err(_) => Err(string_of(&chars_of("Invalid zoom factor"))),
            }
        },
        None => Err(string_of(&chars_of("Invalid zoom factor"))),
    }
}

impl Command<AppState> for ZoomCommand {
    open spec fn spec_name(&self) -> Seq<char> {
        "zoom"@
    }

    open spec fn spec_aliases(&self) -> Seq<Seq<char>> {
        Seq::empty()
    }

    open spec fn spec_description(&self) -> Seq<char> {
        "Zoom to a specific level"@
    }

    open spec fn outcome(
        &self,
        args: Seq<Seq<char>>,
        before: AppState,
        after: AppState,
        result: Result<String, String>,
    ) -> bool {
        zoom_outcome(args, before, after, result)
    }

    fn name(&self) -> (r: &str) {
        "zoom"
    }

    fn aliases(&self) -> (r: Vec<&str>) {
        Vec::new()
    }

    fn description(&self) -> (r: &str) {
        "Zoom to a specific level"
    }

    fn execute(&self, args: &[&str], state: &mut AppState) -> (r: Result<String, String>) {
        zoom(args, state)
    }
}

/// The command `zoom`, ready to be registered.
pub fn create() -> (r: SharedCommand<AppState>)
    ensures
        shares(r, ZoomCommand),
{
    let boxed: Box<dyn Command<AppState>> = Box::new(ZoomCommand);
    let r = Rc::new(boxed);
    r
}

} // verus!
