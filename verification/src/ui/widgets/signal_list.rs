//! The list of the displayed signals.

use crate::input::WAVEFORM_HEIGHT;
use crate::radix::display_text;
use crate::state::{transition_at, value_at, AppState};
use vstd::prelude::*;

verus! {

/// The list of the displayed signals.
#[derive(Debug, Clone, Copy, PartialEq, Eq, Structural)]
pub struct SignalListWidget {}

impl Default for SignalListWidget {
    fn default() -> (r: Self) {
        SignalListWidget {  }
    }
}

/// What the list shows beside the name of a signal.
#[derive(Debug, PartialEq, Eq)]
pub enum RowValue {
    /// Nothing: there is no primary marker, or the signal has no value at
    /// it.
    Nothing,
    /// The step that the signal makes at the primary marker.
    Transition(String),
    /// The value of the signal at the primary marker, in base ten.
    Value(String),
}

/// What a `RowValue` holds, with its text as a sequence of characters.
pub ghost enum RowValueView {
    Nothing,
    Transition(Seq<char>),
    Value(Seq<char>),
}

impl View for RowValue {
    type V = RowValueView;

    open spec fn view(&self) -> RowValueView {
        match self {
            RowValue::Nothing => RowValueView::Nothing,
            RowValue::Transition(s) => RowValueView::Transition(s@),
            RowValue::Value(s) => RowValueView::Value(s@),
        }
    }
}

/// A row of the list.
#[derive(Debug, PartialEq, Eq)]
pub struct SignalRow {
    /// The place of the signal among the displayed signals.
    pub index: usize,
    /// The name of the signal.
    pub name: String,
    /// Whether the signal is highlighted.
    pub selected: bool,
    /// What stands beside the name.
    pub value: RowValue,
}

/// The place of the first signal on a screen `height` rows high, which
/// `offset` wants to be: no further down than that the last signals fill
/// the screen.
pub open spec fn scroll_within(offset: int, count: int, height: int) -> int {
    let rows = height / (WAVEFORM_HEIGHT as int);
    let latest = if count > rows {
        count - rows
    } else {
        0
    };
    if offset > latest {
        latest
    } else {
        offset
    }
}

/// How many signals the list shows.
pub open spec fn rows_shown(offset: int, count: int, height: int) -> int {
    let rows = height / (WAVEFORM_HEIGHT as int);
    let first = scroll_within(offset, count, height);
    if count - first > rows {
        rows
    } else {
        count - first
    }
}

/// What stands beside the name of the signal `name`: with a primary
/// marker, the step that the signal makes at the marker, or else its value
/// there.
pub open spec fn row_value(state: AppState, name: Seq<char>) -> RowValueView {
    match (state.primary_marker, state.log_of(name)) {
        (Some(t), Some(log)) => match transition_at(log, t) {
            Some(text) => RowValueView::Transition(text),
            None => match value_at(log, t) {
                Some(v) => RowValueView::Value(display_text(v, 10, false, false)),
                None => RowValueView::Nothing,
            },
        },
        _ => RowValueView::Nothing,
    }
}

impl SignalListWidget {
    /// Brings the scroll offset back to where the last signals fill a
    /// screen `height` rows high.
    pub fn clamp_scroll(&self, state: &mut AppState, height: u16)
        ensures
            *final(state) == (AppState {
                signal_scroll_offset: scroll_within(
                    old(state).signal_scroll_offset as int,
                    old(state).displayed_signals@.len() as int,
                    height as int,
                ) as usize,
                ..*old(state)
            }),
    {
        let rows = height as usize / WAVEFORM_HEIGHT;
        let count = state.displayed_signals.len();
        let latest = if count > rows {
            count - rows
        } else {
            0
        };
        if state.signal_scroll_offset > latest {
            state.signal_scroll_offset = latest;
        }
    }

    /// What beside its name the list shows of the signal `name`.
    pub fn value_of(&self, state: &AppState, name: &str) -> (r: RowValue)
        ensures
            r@ == row_value(*state, name@),
    {
        match state.primary_marker {
            Some(t) => {
                match state.get_transition_at_marker(name, t) {
                    Some(text) => RowValue::Transition(text),
                    None => match state.get_value_at_marker(name, t) {
                        Some(v) => RowValue::Value(v.to_string()),
                        None => RowValue::Nothing,
                    },
                }
            },
            None => RowValue::Nothing,
        }
    }

    /// The rows of the list on a screen `height` rows high, from the top.
    pub fn rows(&self, state: &AppState, height: u16) -> (r: Vec<SignalRow>)
        ensures
            r@.len() == rows_shown(
                state.signal_scroll_offset as int,
                state.displayed_signals@.len() as int,
                height as int,
            ),
            forall|k: int|
                0 <= k < r@.len() ==> {
                    let row = #[trigger] r@[k];
                    &&& row.index == scroll_within(
                        state.signal_scroll_offset as int,
                        state.displayed_signals@.len() as int,
                        height as int,
                    ) + k
                    &&& row.name == state.displayed_signals@[row.index as int]
                    &&& row.selected == (row.index == state.selected_signal)
                    &&& row.value@ == row_value(*state, row.name@)
                },
    {
        let rows = height as usize / WAVEFORM_HEIGHT;
        let count = state.displayed_signals.len();
        let latest = if count > rows {
            count - rows
        } else {
            0
        };
        let first = if state.signal_scroll_offset > latest {
            latest
        } else {
            state.signal_scroll_offset
        };
        let shown = if count - first > rows {
            rows
        } else {
            count - first
        };
        let mut r: Vec<SignalRow> = Vec::new();
        let mut k: usize = 0;
        while k < shown
            invariant
                k <= shown,
                first + shown <= count == state.displayed_signals@.len(),
                r@.len() == k,
                forall|j: int|
                    0 <= j < k ==> {
                        let row = #[trigger] r@[j];
                        &&& row.index == first + j
                        &&& row.name == state.displayed_signals@[row.index as int]
                        &&& row.selected == (row.index == state.selected_signal)
                        &&& row.value@ == row_value(*state, row.name@)
                    },
            decreases shown - k,
        {
            let index = first + k;
            let name = state.displayed_signals[index].clone();
            let value = self.value_of(state, name.as_str());
            r.push(SignalRow { index, name, selected: index == state.selected_signal, value });
            k += 1;
        }
        r
    }
}

} // verus!
