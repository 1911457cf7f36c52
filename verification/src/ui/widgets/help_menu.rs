//! The help.

use crate::layout::Rect;
use crate::state::AppState;
use vstd::prelude::*;

verus! {

/// The help.
#[derive(Debug, Clone, Copy, PartialEq, Eq, Structural)]
pub struct HelpMenuWidget {}

impl Default for HelpMenuWidget {
    fn default() -> (r: Self) {
        HelpMenuWidget {  }
    }
}

/// How far a text of `lines` lines is scrolled in a box `height` rows
/// high, where `wanted` is asked for: no further than that the last lines
/// fill the box.
pub open spec fn scroll_of(wanted: usize, lines: usize, height: u16) -> usize {
    let latest = if lines > height {
        (lines - height) as usize
    } else {
        0
    };
    if wanted > latest {
        latest
    } else {
        wanted
    }
}

impl HelpMenuWidget {
    /// The box of the help in the middle of `area`.
    pub fn area(&self, area: Rect) -> (r: Rect)
        requires
            area.x + area.width <= u16::MAX,
            area.y + area.height <= u16::MAX,
        ensures
            r == area.centered(70, 20),
    {
        area.center(70, 20)
    }

    /// Brings the scroll of the help back to where the last of its
    /// `lines` lines fill a box `height` rows high.
    pub fn clamp_scroll(&self, state: &mut AppState, lines: usize, height: u16)
        ensures
            *final(state) == (AppState {
                help_menu_scroll: scroll_of(old(state).help_menu_scroll, lines, height),
                ..*old(state)
            }),
    {
        let latest = if lines > height as usize {
            lines - height as usize
        } else {
            0
        };
        if state.help_menu_scroll > latest {
            state.help_menu_scroll = latest;
        }
    }
}

} // verus!
