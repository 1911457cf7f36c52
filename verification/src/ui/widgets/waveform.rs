//! The waveform: the traces of the displayed signals, the markers and the
//! selection.

use crate::state::AppState;
use crate::text::chars_of;
use crate::ui::waveform::marker_in_view;
use crate::value::{WaveValue, WaveValueView};
use crate::waveform::LogView;
use vstd::prelude::*;

verus! {

/// The waveform.
#[derive(Debug, Clone, Copy, PartialEq, Eq, Structural)]
pub struct WaveformWidget {}

impl Default for WaveformWidget {
    fn default() -> (r: Self) {
        WaveformWidget {  }
    }
}

/// The column nearest to a time in a window that starts at `time_start`,
/// spans `time_span` and is `width` columns wide: the part of the width
/// that the time has covered, rounded to the nearest column, halves
/// upwards, and no more than the largest column of all. A time before the
/// window stands in the first column. In a window that spans no time, a
/// time behind its start stands in the largest column of all, if the
/// window has any width.
pub open spec fn nearest_column(time: u64, time_start: u64, time_span: u64, width: u16) -> int {
    let covered = if time > time_start {
        time - time_start
    } else {
        0
    };
    if time_span == 0 {
        if covered > 0 && width > 0 {
            u16::MAX as int
        } else {
            0
        }
    } else if (2 * covered * width + time_span) / (2 * time_span) > u16::MAX {
        u16::MAX as int
    } else {
        (2 * covered * width + time_span) / (2 * time_span)
    }
}

/// The column nearest to a time in the window.
pub fn time_to_column(time: u64, time_start: u64, time_span: u64, width: u16) -> (x: u16)
    ensures
        x == nearest_column(time, time_start, time_span, width),
{
    let covered: u64 = if time > time_start {
        time - time_start
    } else {
        0
    };
    if time_span == 0 {
        if covered > 0 && width > 0 {
            u16::MAX
        } else {
            0
        }
    } else {
        let doubled: u128 = 2 * (covered as u128);
        assert(doubled * width <= 0x1_ffff_ffff_ffff_fffe * 0xffff) by (nonlinear_arith)
            requires
                doubled <= 0x1_ffff_ffff_ffff_fffe,
                width <= 0xffff,
        ;
        let x: u128 = (doubled * (width as u128) + (time_span as u128)) / (2 * (
        time_span as u128));
        if x > u16::MAX as u128 {
            u16::MAX
        } else {
            x as u16
        }
    }
}

/// The text of a bus on the screen.
#[derive(Debug, PartialEq, Eq)]
pub struct BusLabel {
    /// The column where the text begins, counted from the left edge of
    /// the waveform.
    pub column: u16,
    /// The text.
    pub text: String,
}

/// The column where the stretch of the change at `i` ends: the column of
/// the next change, or the right edge of the waveform.
pub open spec fn stretch_end(log: LogView, i: int, start: u64, span: u64, width: u16) -> int {
    if i + 1 < log.len() {
        nearest_column(log[i + 1].0, start, span, width)
    } else {
        width as int
    }
}

/// Where the text of the change at `i` stands, if it is a bus and its
/// stretch is wider than its text: in the middle of the stretch.
pub open spec fn label_place(log: LogView, i: int, start: u64, span: u64, width: u16) -> Option<
    (int, Seq<char>),
> {
    match log[i].1 {
        WaveValueView::Bus(text) => {
            let from = nearest_column(log[i].0, start, span, width);
            let to = stretch_end(log, i, start, span, width);
            if to - from > text.len() {
                Some((from + (to - from - text.len()) / 2, text))
            } else {
                None
            }
        },
        WaveValueView::Binary(_) => None,
    }
}

/// The texts of the first `n` changes that have room, from left to right.
pub open spec fn labels_of(log: LogView, n: int, start: u64, span: u64, width: u16) -> Seq<
    (int, Seq<char>),
>
    decreases n,
{
    if n <= 0 {
        Seq::empty()
    } else {
        match label_place(log, n - 1, start, span, width) {
            Some(label) => labels_of(log, n - 1, start, span, width).push(label),
            None => labels_of(log, n - 1, start, span, width),
        }
    }
}

/// What a list of bus labels holds.
pub open spec fn bus_label_views(labels: Seq<BusLabel>) -> Seq<(int, Seq<char>)> {
    Seq::new(labels.len(), |i: int| (labels[i].column as int, labels[i].text@))
}

/// Whether a change of the log is a change of a bus.
pub open spec fn has_bus(log: LogView) -> bool {
    exists|i: int| 0 <= i < log.len() && (#[trigger] log[i]).1 is Bus
}

/// The selection that a drag of the mouse shows: from the leftmost of
/// the two columns of the drag, as wide as they lie apart, if that is more
/// than one column.
pub open spec fn selection(state: AppState) -> Option<(u16, u16)> {
    match (state.drag_start, state.drag_current) {
        (Some((a, _)), Some((b, _))) => {
            let left = if a < b {
                a
            } else {
                b
            };
            let right = if a < b {
                b
            } else {
                a
            };
            if state.is_dragging && right - left > 1 {
                Some((left, (right - left) as u16))
            } else {
                None
            }
        },
        _ => None,
    }
}

impl WaveformWidget {
    /// Tests whether a marker lies in the window or at its end, so that
    /// it is drawn.
    pub fn is_marker_visible(&self, marker_time: u64, time_start: u64, time_range: u64) -> (b:
        bool)
        ensures
            b == marker_in_view(marker_time, time_start, time_range),
    {
        marker_time >= time_start && marker_time - time_start <= time_range
    }

    /// The column of a marker in a waveform `width` columns wide, if the
    /// marker lies in the window or at its end.
    pub fn marker_column(&self, marker_time: u64, state: &AppState, width: u16) -> (r: Option<
        u16,
    >)
        ensures
            r == if marker_in_view(marker_time, state.time_start, state.time_range) {
                Some(
                    nearest_column(marker_time, state.time_start, state.time_range, width) as u16,
                )
            } else {
                None
            },
    {
        if self.is_marker_visible(marker_time, state.time_start, state.time_range) {
            Some(time_to_column(marker_time, state.time_start, state.time_range, width))
        } else {
            None
        }
    }

    /// Tests whether the changes are those of a bus, which is drawn as a
    /// band with its texts.
    pub fn is_bus(&self, values: &Vec<(u64, WaveValue)>) -> (b: bool)
        ensures
            b == has_bus(values.deep_view()),
    {
        let ghost log = values.deep_view();
        let mut i: usize = 0;
        while i < values.len()
            invariant
                i <= values.len(),
                log == values.deep_view(),
                forall|k: int| 0 <= k < i ==> !((#[trigger] log[k]).1 is Bus),
            decreases values.len() - i,
        {
            assert(log[i as int].1 == values@[i as int].1@);
            match &values[i].1 {
                WaveValue::Bus(_) => {
                    return true;
                },
                WaveValue::Binary(_) => {},
            }
            i += 1;
        }
        false
    }

    /// The texts of a bus that have room in a waveform `width` columns
    /// wide, from left to right.
    pub fn bus_labels(
        &self,
        values: &Vec<(u64, WaveValue)>,
        time_start: u64,
        time_range: u64,
        width: u16,
    ) -> (r: Vec<BusLabel>)
        ensures
            bus_label_views(r@) == labels_of(
                values.deep_view(),
                values@.len() as int,
                time_start,
                time_range,
                width,
            ),
    {
        let ghost log = values.deep_view();
        let mut labels: Vec<BusLabel> = Vec::new();
        let mut i: usize = 0;
        while i < values.len()
            invariant
                i <= values.len(),
                log == values.deep_view(),
                bus_label_views(labels@) == labels_of(log, i as int, time_start, time_range, width),
            decreases values.len() - i,
        {
            match &values[i].1 {
                WaveValue::Bus(text) => {
                    let from = time_to_column(values[i].0, time_start, time_range, width);
                    let to = if i + 1 < values.len() {
                        time_to_column(values[i + 1].0, time_start, time_range, width)
                    } else {
                        width
                    };
                    let length = chars_of(text.as_str()).len();
                    if to > from && ((to - from) as usize) > length {
                        let column = from + ((to - from) as usize - length) as u16 / 2;
                        labels.push(BusLabel { column, text: text.clone() });
                    }
                },
                WaveValue::Binary(_) => {},
            }
            i += 1;
        }
        labels
    }

    /// The selection that a drag of the mouse shows: its left column and
    /// its width.
    pub fn drag_selection(&self, state: &AppState) -> (r: Option<(u16, u16)>)
        ensures
            r == selection(*state),
    {
        if !state.is_dragging {
            return None;
        }
        match (state.drag_start, state.drag_current) {
            (Some((a, _)), Some((b, _))) => {
                let left = if a < b {
                    a
                } else {
                    b
                };
                let right = if a < b {
                    b
                } else {
                    a
                };
                if right - left > 1 {
                    Some((left, right - left))
                } else {
                    None
                }
            },
            _ => None,
        }
    }
}

} // verus!
