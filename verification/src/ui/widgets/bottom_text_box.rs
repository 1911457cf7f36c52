//! The line at the bottom of the screen: the mode, and the command being
//! typed.

use crate::state::{AppMode, AppState};
use crate::text::{chars_of, push_str_chars, string_of};
use vstd::prelude::*;

verus! {

/// The line at the bottom of the screen.
#[derive(Debug, Clone, Copy, PartialEq, Eq, Structural)]
pub struct BottomTextBoxWidget {}

impl Default for BottomTextBoxWidget {
    fn default() -> (r: Self) {
        BottomTextBoxWidget {  }
    }
}

/// The name of a mode.
pub open spec fn mode_name(mode: AppMode) -> Seq<char> {
    match mode {
        AppMode::Normal => "Normal"@,
        AppMode::Command => "Command"@,
        AppMode::FuzzyFinder => "FuzzyFinder"@,
    }
}

/// What the line says: the command being typed behind a colon in command
/// mode, else how to get on.
pub open spec fn command_text(state: AppState) -> Seq<char> {
    if state.mode == AppMode::Command {
        ":"@ + state.command_mode_state.input_buffer@
    } else {
        " ':' for command mode. :q, then <Enter> to quit. :h then <Enter> for help."@
    }
}

/// The column of the cursor in a line that starts at the column `left`
/// and ends before the column `right`: one column for the colon, and one
/// for each character before the cursor. There is none outside command
/// mode, and none behind the line.
pub open spec fn cursor_column(state: AppState, left: u16, right: u16) -> Option<u16> {
    if state.mode == AppMode::Command && left + 1 + state.command_mode_state.cursor_position
        < right {
        Some((left + 1 + state.command_mode_state.cursor_position) as u16)
    } else {
        None
    }
}

impl BottomTextBoxWidget {
    /// The name of the mode, which the line has as its title.
    pub fn title(&self, state: &AppState) -> (r: &'static str)
        ensures
            r@ == mode_name(state.mode),
    {
        match state.mode {
            AppMode::Normal => "Normal",
            AppMode::Command => "Command",
            AppMode::FuzzyFinder => "FuzzyFinder",
        }
    }

    /// What the line says.
    pub fn text(&self, state: &AppState) -> (r: String)
        ensures
            r@ == command_text(*state),
    {
        if state.mode == AppMode::Command {
            let mut out = chars_of(":");
            push_str_chars(&mut out, state.command_mode_state.input_buffer.as_str());
            string_of(&out)
        } else {
            string_of(
                &chars_of(
                    " ':' for command mode. :q, then <Enter> to quit. :h then <Enter> for help.",
                ),
            )
        }
    }

    /// The column of the cursor.
    pub fn cursor(&self, state: &AppState, left: u16, right: u16) -> (r: Option<u16>)
        ensures
            r == cursor_column(*state, left, right),
    {
        if state.mode != AppMode::Command || right <= left {
            return None;
        }
        let room: u16 = right - left - 1;
        if state.command_mode_state.cursor_position < room as usize {
            Some(left + 1 + state.command_mode_state.cursor_position as u16)
        } else {
            None
        }
    }
}

} // verus!
