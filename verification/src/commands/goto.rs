//! The command that centers the window on a time.

use crate::command_mode::registry::{shares, texts, Command, SharedCommand};
use crate::navigation::centered_on;
use crate::state::AppState;
use crate::text::{fails_with, succeeds_with, 
    chars_of, decimal, parse_u64, parsed_u64, push_decimal, push_str_chars, string_of,
};
use std::rc::Rc;
use vstd::prelude::*;

verus! {

/// The command `goto <time>`.
pub struct GotoCommand;

/// What `goto` does.
///
/// Without an argument it tells how it is used. With a first argument
/// that is no time it says so. With a time behind the end of the trace it
/// says where the trace ends. In these cases the state stays. Else the
/// window is centered on the time, and the command says where it moved.
pub open spec fn goto_outcome(
    args: Seq<Seq<char>>,
    before: AppState,
    after: AppState,
    result: Result<String, String>,
) -> bool {
    if args.len() == 0 {
        after == before && fails_with(result, "Usage: goto <time>"@)
    } else {
        match parsed_u64(args[0]) {
            None => after == before && fails_with(result, "Invalid time format"@),
            Some(t) => if t <= before.waveform_data.max_time {
                &&& after == before.with_window(centered_on(before.window(), t as int))
                &&& succeeds_with(result, "Moved to time "@ + decimal(t as nat))
            } else {
                &&& after == before
                &&& fails_with(
                    result,
                    "Time out of range (0-"@ + decimal(before.waveform_data.max_time as nat) + ")"@,
                )
            },
        }
    }
}

/// The text that says where the trace ends.
pub fn out_of_range_message(max_time: u64) -> (r: String)
    ensures
        r@ == "Time out of range (0-"@ + decimal(max_time as nat) + ")"@,
{
    let mut message = chars_of("Time out of range (0-");
    push_decimal(&mut message, max_time);
    push_str_chars(&mut message, ")");
    string_of(&message)
}

/// Runs `goto` on its arguments.
pub fn goto(args: &[&str], state: &mut AppState) -> (r: Result<String, String>)
    ensures
        goto_outcome(texts(args@), *old(state), *final(state), r),
{
    if args.len() == 0 {
        return Err(string_of(&chars_of("Usage: goto <time>")));
    }
    match parse_u64(&chars_of(args[0])) {
        Some(time) => {
            match state.goto(time) {
                Ok(()) => {
                    let mut message = chars_of("Moved to time ");
                    push_decimal(&mut message, time);
                    Ok(string_of(&message))
                },
                Err(_) => Err(out_of_range_message(state.waveform_data.max_time)),
            }
        },
        None => Err(string_of(&chars_of("Invalid time format"))),
    }
}

impl Command<AppState> for GotoCommand {
    open spec fn spec_name(&self) -> Seq<char> {
        "goto"@
    }

    open spec fn spec_aliases(&self) -> Seq<Seq<char>> {
        Seq::empty()
    }

    open spec fn spec_description(&self) -> Seq<char> {
        "Move to a specific time"@
    }

    open spec fn outcome(
        &self,
        args: Seq<Seq<char>>,
        before: AppState,
        after: AppState,
        result: Result<String, String>,
    ) -> bool {
        goto_outcome(args, before, after, result)
    }

    fn name(&self) -> (r: &str) {
        "goto"
    }

    fn aliases(&self) -> (r: Vec<&str>) {
        Vec::new()
    }

    fn description(&self) -> (r: &str) {
        "Move to a specific time"
    }

    fn execute(&self, args: &[&str], state: &mut AppState) -> (r: Result<String, String>) {
        goto(args, state)
    }
}

/// The command `goto`, ready to be registered.
pub fn create() -> (r: SharedCommand<AppState>)
    ensures
        shares(r, GotoCommand),
{
    let boxed: Box<dyn Command<AppState>> = Box::new(GotoCommand);
    let r = Rc::new(boxed);
    r
}

} // verus!
