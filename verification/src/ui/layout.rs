//! How the screen is divided among the parts of the display.

use crate::config::AppConfig;
use crate::layout::{AppLayout, Rect};
use ratatui::layout::{Constraint, Layout};
use vstd::prelude::*;

verus! {

/// The direction along which an area is cut into parts.
#[derive(Debug, Clone, Copy, PartialEq, Eq, Structural)]
pub enum Direction {
    Horizontal,
    Vertical,
}

/// How much of an area one of its parts asks for.
#[derive(Debug, Clone, Copy, PartialEq, Eq, Structural)]
pub enum Extent {
    /// At least so many cells.
    Min(u16),
    /// Exactly so many cells.
    Length(u16),
    /// So many hundredths of the area.
    Percentage(u16),
}

/// Whether `part` reaches from one side of `area` to the other, across the
/// direction of a cut: a part of a cut from left to right is as high as
/// the area, a part of a cut from top to bottom is as wide.
pub open spec fn spans(area: Rect, direction: Direction, part: Rect) -> bool {
    match direction {
        Direction::Horizontal => part.y == area.y && part.height == area.height,
        Direction::Vertical => part.x == area.x && part.width == area.width,
    }
}

/// `Layout::split`, for a layout without margin: the area is cut along the
/// direction into one part for each of the extents asked for, in their
/// order, and each part spans the area across the direction. Where the
/// cuts fall is left to the solver of the layout.
#[verifier::external_body]
pub(crate) fn split(area: Rect, direction: Direction, extents: &Vec<Extent>) -> (parts: Vec<Rect>)
    ensures
        parts@.len() == extents@.len(),
        forall|i: int| 0 <= i < parts@.len() ==> spans(area, direction, #[trigger] parts@[i]),
{
    let direction = match direction {
        Direction::Horizontal => ratatui::layout::Direction::Horizontal,
        Direction::Vertical => ratatui::layout::Direction::Vertical,
    };
    let constraints = extents.iter().map(|extent| match *extent {
        Extent::Min(n) => Constraint::Min(n),
        Extent::Length(n) => Constraint::Length(n),
        Extent::Percentage(n) => Constraint::Percentage(n),
    });
    let area = ratatui::layout::Rect { x: area.x, y: area.y, width: area.width, height: area.height };
    let parts = Layout::new(direction, constraints).split(area);
    parts.iter().map(|p| Rect { x: p.x, y: p.y, width: p.width, height: p.height }).collect()
}

/// The two columns that `area` is cut into, the left one asking for
/// `list_width` hundredths of the width and the right one for the rest.
fn columns(area: Rect, list_width: u16) -> (r: (Rect, Rect))
    requires
        list_width <= 100,
    ensures
        spans(area, Direction::Horizontal, r.0),
        spans(area, Direction::Horizontal, r.1),
{
    let mut extents: Vec<Extent> = Vec::new();
    extents.push(Extent::Percentage(list_width));
    extents.push(Extent::Percentage(100 - list_width));
    let parts = split(area, Direction::Horizontal, &extents);
    (parts[0], parts[1])
}

/// What holds of the parts of the screen wherever the cuts fall: the
/// command line is as wide as the screen, and the signal list and the
/// waveform stand side by side, in the same rows.
pub open spec fn laid_out(area: Rect, layout: AppLayout) -> bool {
    &&& spans(area, Direction::Vertical, layout.command_bar)
    &&& spans(layout.signal_list, Direction::Horizontal, layout.waveform)
}

/// Lays out the screen. The command line takes the three lowest rows. Of
/// the rest, the first row is for the time ruler, the second for the names
/// of the markers, and what is left for the signals. Each of the three is
/// cut into two columns, the left one as wide as the configuration asks
/// for the signal list: it holds the list beside the waveform, and stays
/// empty beside the ruler and the marker names.
pub fn create_layout(area: Rect, config: &AppConfig) -> (r: AppLayout)
    requires
        config.ui.signal_list_width <= 100,
    ensures
        laid_out(area, r),
{
    let list_width = config.ui.signal_list_width;

    let mut extents: Vec<Extent> = Vec::new();
    extents.push(Extent::Min(1));
    extents.push(Extent::Length(3));
    let main_chunks = split(area, Direction::Vertical, &extents);
    let content = main_chunks[0];
    let command_bar = main_chunks[1];

    let mut extents: Vec<Extent> = Vec::new();
    extents.push(Extent::Length(1));
    extents.push(Extent::Length(1));
    extents.push(Extent::Min(5));
    let rows = split(content, Direction::Vertical, &extents);

    let (_, time_ruler) = columns(rows[0], list_width);
    let (_, marker_names) = columns(rows[1], list_width);
    let (signal_list, waveform) = columns(rows[2], list_width);

    AppLayout { marker_names, signal_list, time_ruler, waveform, command_bar }
}

} // verus!
