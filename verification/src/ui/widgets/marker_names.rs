//! The names of the saved markers above the waveform.

use crate::marker::{marker_views, MarkerView};
use crate::state::AppState;
use crate::text::chars_of;
use crate::ui::waveform::{marker_in_view, marker_is_visible_at_current_zoom_level};
use crate::ui::widgets::time_ruler::{column_of, time_to_x};
use vstd::prelude::*;

verus! {

/// The names of the saved markers above the waveform.
#[derive(Debug, Clone, Copy, PartialEq, Eq, Structural)]
pub struct MarkerNamesWidget {}

impl Default for MarkerNamesWidget {
    fn default() -> (r: Self) {
        MarkerNamesWidget {  }
    }
}

/// The name of a saved marker on the screen.
#[derive(Debug, PartialEq, Eq)]
pub struct MarkerLabel {
    /// The column of the marker, counted from the left edge of the
    /// waveform.
    pub column: u16,
    /// The name of the marker.
    pub name: String,
    /// How many characters of the name there is room for.
    pub shown: usize,
}

/// A marker with its column.
pub type Placed = (int, Seq<char>);

/// The markers that stand in the window, each with its column: those
/// whose time lies in the window or at its end, and whose column lies in
/// the waveform.
pub open spec fn placed(
    markers: Seq<MarkerView>,
    time_start: u64,
    time_range: u64,
    width: u16,
) -> Seq<Placed>
    decreases markers.len(),
{
    if markers.len() == 0 {
        Seq::empty()
    } else {
        let front = placed(markers.drop_last(), time_start, time_range, width);
        let m = markers.last();
        let column = column_of(m.time, time_start, time_range, width);
        if marker_in_view(m.time, time_start, time_range) && column < width {
            front.push((column, m.name))
        } else {
            front
        }
    }
}

/// The place of the first entry at or after `from` whose column lies
/// right of `column`, or the end of the list.
pub open spec fn first_right_of(items: Seq<Placed>, from: int, column: int) -> int
    decreases items.len() - from,
{
    if 0 <= from < items.len() && items[from].0 <= column {
        first_right_of(items, from + 1, column)
    } else {
        from
    }
}

/// The markers from left to right; markers in the same column keep their
/// order.
pub open spec fn arranged(items: Seq<Placed>) -> Seq<Placed>
    decreases items.len(),
{
    if items.len() == 0 {
        Seq::empty()
    } else {
        let front = arranged(items.drop_last());
        front.insert(first_right_of(front, 0, items.last().0), items.last())
    }
}

/// How many characters of the name at `i` there is room for: all that
/// fit in the waveform, or only the first where the name would reach the
/// next marker.
pub open spec fn room_for(items: Seq<Placed>, i: int, width: u16) -> int {
    let column = items[i].0;
    let length = items[i].1.len() as int;
    let fitting = if column + length > width {
        if width > column {
            width - column
        } else {
            0
        }
    } else {
        length
    };
    if length == 0 {
        0
    } else if i + 1 < items.len() && column + fitting > items[i + 1].0 {
        1
    } else {
        fitting
    }
}

/// What a list of labels holds.
pub open spec fn label_views(labels: Seq<MarkerLabel>) -> Seq<Placed> {
    Seq::new(labels.len(), |i: int| (labels[i].column as int, labels[i].name@))
}

impl MarkerNamesWidget {
    /// The names of the saved markers that stand in the window, from left
    /// to right, in a waveform `width` columns wide.
    pub fn labels(&self, state: &AppState, width: u16) -> (r: Vec<MarkerLabel>)
        ensures
            label_views(r@) == arranged(
                placed(
                    marker_views(state.saved_markers@),
                    state.time_start,
                    state.time_range,
                    width,
                ),
            ),
            forall|i: int|
                0 <= i < r@.len() ==> (#[trigger] r@[i]).shown == room_for(
                    label_views(r@),
                    i,
                    width,
                ),
    {
        let ghost markers = marker_views(state.saved_markers@);
        let mut labels: Vec<MarkerLabel> = Vec::new();
        let mut i: usize = 0;
        while i < state.saved_markers.len()
            invariant
                i <= state.saved_markers.len(),
                markers == marker_views(state.saved_markers@),
                label_views(labels@) == arranged(
                    placed(markers.take(i as int), state.time_start, state.time_range, width),
                ),
            decreases state.saved_markers.len() - i,
        {
            let marker = &state.saved_markers[i];
            proof {
                let t = markers.take(i + 1);
                assert(t.drop_last() == markers.take(i as int));
            }
            let column = time_to_x(marker.time, state.time_start, state.time_range, width);
            if marker_is_visible_at_current_zoom_level(
                marker.time,
                state.time_start,
                state.time_range,
            ) && column < width {
                let ghost before = label_views(labels@);
                let ghost found = placed(
                    markers.take(i as int),
                    state.time_start,
                    state.time_range,
                    width,
                );
                let mut at: usize = 0;
                while at < labels.len() && labels[at].column <= column
                    invariant
                        at <= labels.len(),
                        before == label_views(labels@),
                        first_right_of(before, 0, column as int) == first_right_of(
                            before,
                            at as int,
                            column as int,
                        ),
                    decreases labels.len() - at,
                {
                    at += 1;
                }
                proof {
                    let grown = found.push((column as int, marker.name@));
                    assert(grown.drop_last() == found);
                }
                labels.insert(at, MarkerLabel { column, name: marker.name.clone(), shown: 0 });
            }
            i += 1;
        }
        assert(markers.take(state.saved_markers@.len() as int) == markers);
        let ghost views = label_views(labels@);
        let mut k: usize = 0;
        while k < labels.len()
            invariant
                k <= labels.len(),
                views == label_views(labels@),
                forall|j: int|
                    0 <= j < k ==> (#[trigger] labels@[j]).shown == room_for(views, j, width),
            decreases labels.len() - k,
        {
            let column = labels[k].column as usize;
            let length = chars_of(labels[k].name.as_str()).len();
            let fitting: usize = if length > width as usize || column > width as usize - length {
                if width as usize > column {
                    width as usize - column
                } else {
                    0
                }
            } else {
                length
            };
            let reaches_next = if k + 1 < labels.len() {
                column + fitting > labels[k + 1].column as usize
            } else {
                false
            };
            let shown = if length == 0 {
                0
            } else if reaches_next {
                1
            } else {
                fitting
            };
            labels[k].shown = shown;
            k += 1;
        }
        labels
    }
}

} // verus!
