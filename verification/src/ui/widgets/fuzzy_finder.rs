//! The signal finder.

use crate::layout::Rect;
use crate::state::{is_listed, listed, AppState};
use crate::text::{chars_of, decimal, push_decimal, push_str_chars, string_of};
use vstd::prelude::*;

verus! {

/// The signal finder.
#[derive(Debug, Clone, Copy, PartialEq, Eq, Structural)]
pub struct FuzzyFinderWidget {}

impl Default for FuzzyFinderWidget {
    fn default() -> (r: Self) {
        FuzzyFinderWidget {  }
    }
}

/// What the finder says of the choice: how many signals are chosen, and
/// of how many.
pub open spec fn info_text(state: AppState) -> Seq<char> {
    "Selected: "@ + decimal(state.fuzzy_finder_state.selected_signals@.len()) + "/"@ + decimal(
        state.fuzzy_finder_state.all_signals@.len(),
    )
}

impl FuzzyFinderWidget {
    /// The box of the finder in the middle of `area`.
    pub fn area(&self, area: Rect) -> (r: Rect)
        requires
            area.x + area.width <= u16::MAX,
            area.y + area.height <= u16::MAX,
        ensures
            r == area.centered(100, 33),
    {
        area.center(100, 33)
    }

    /// The line that shows the query.
    pub fn query_text(&self, state: &AppState) -> (r: String)
        ensures
            r@ == "> "@ + state.fuzzy_finder_state.query@,
    {
        let mut out = chars_of("> ");
        push_str_chars(&mut out, state.fuzzy_finder_state.query.as_str());
        string_of(&out)
    }

    /// The line that tells how many signals are chosen.
    pub fn info(&self, state: &AppState) -> (r: String)
        ensures
            r@ == info_text(*state),
    {
        let mut out = chars_of("Selected: ");
        push_decimal(&mut out, state.fuzzy_finder_state.selected_signals.len() as u64);
        push_str_chars(&mut out, "/");
        push_decimal(&mut out, state.fuzzy_finder_state.all_signals.len() as u64);
        string_of(&out)
    }

    /// Tests whether the filtered signal at `index` is chosen.
    pub fn is_chosen(&self, state: &AppState, index: usize) -> (b: bool)
        requires
            index < state.fuzzy_finder_state.filtered_signals@.len(),
        ensures
            b == is_listed(
                state.fuzzy_finder_state.selected_signals@,
                state.fuzzy_finder_state.filtered_signals@[index as int]@,
            ),
    {
        listed(
            &state.fuzzy_finder_state.selected_signals,
            state.fuzzy_finder_state.filtered_signals[index].as_str(),
        )
    }
}

} // verus!
