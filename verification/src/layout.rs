//! Rectangles of the screen and the parts that the screen is laid out in.

use vstd::prelude::*;

verus! {

/// A rectangle of the screen, in cells.
#[derive(Debug, Clone, Copy, PartialEq, Eq, Structural)]
pub struct Rect {
    pub x: u16,
    pub y: u16,
    pub width: u16,
    pub height: u16,
}

impl Rect {
    /// The first column behind the rectangle, or the last column of all
    /// if the rectangle reaches it.
    pub open spec fn spec_right(self) -> int {
        if self.x + self.width > u16::MAX {
            u16::MAX as int
        } else {
            self.x + self.width
        }
    }

    /// The first row below the rectangle, or the last row of all if the
    /// rectangle reaches it.
    pub open spec fn spec_bottom(self) -> int {
        if self.y + self.height > u16::MAX {
            u16::MAX as int
        } else {
            self.y + self.height
        }
    }

    /// Whether the cell at `column`, `row` lies in the rectangle or on its
    /// right or lower edge.
    pub open spec fn holds(self, column: u16, row: u16) -> bool {
        self.x <= column <= self.spec_right() && self.y <= row <= self.spec_bottom()
    }

    /// The first column behind the rectangle.
    pub fn right(&self) -> (r: u16)
        ensures
            r == self.spec_right(),
    {
        if self.width > u16::MAX - self.x {
            u16::MAX
        } else {
            self.x + self.width
        }
    }

    /// The first row below the rectangle.
    pub fn bottom(&self) -> (r: u16)
        ensures
            r == self.spec_bottom(),
    {
        if self.height > u16::MAX - self.y {
            u16::MAX
        } else {
            self.y + self.height
        }
    }

    /// The rectangle in the middle of this one that is no wider than
    /// `max_width` and no higher than `max_height`.
    pub open spec fn centered(self, max_width: u16, max_height: u16) -> Rect {
        let width = if self.width < max_width {
            self.width
        } else {
            max_width
        };
        let height = if self.height < max_height {
            self.height
        } else {
            max_height
        };
        Rect {
            x: (self.x + (self.width - width) / 2) as u16,
            y: (self.y + (self.height - height) / 2) as u16,
            width,
            height,
        }
    }

    /// The rectangle in the middle of this one that is no wider than
    /// `max_width` and no higher than `max_height`.
    pub fn center(&self, max_width: u16, max_height: u16) -> (r: Rect)
        requires
            self.x + self.width <= u16::MAX,
            self.y + self.height <= u16::MAX,
        ensures
            r == self.centered(max_width, max_height),
    {
        let width = if self.width < max_width {
            self.width
        } else {
            max_width
        };
        let height = if self.height < max_height {
            self.height
        } else {
            max_height
        };
        Rect {
            x: self.x + (self.width - width) / 2,
            y: self.y + (self.height - height) / 2,
            width,
            height,
        }
    }

    /// Tests whether the cell at `column`, `row` lies in the rectangle or
    /// on its right or lower edge.
    pub fn contains(&self, column: u16, row: u16) -> (b: bool)
        ensures
            b == self.holds(column, row),
    {
        column >= self.x && column <= self.right() && row >= self.y && row <= self.bottom()
    }
}

impl Default for Rect {
    fn default() -> (r: Self)
        ensures
            r == (Rect { x: 0, y: 0, width: 0, height: 0 }),
    {
        Rect { x: 0, y: 0, width: 0, height: 0 }
    }
}

/// The parts that the screen is laid out in.
#[derive(Debug, Clone, Copy, PartialEq, Eq, Structural)]
pub struct AppLayout {
    pub marker_names: Rect,
    pub signal_list: Rect,
    pub time_ruler: Rect,
    pub waveform: Rect,
    pub command_bar: Rect,
}

impl Default for AppLayout {
    fn default() -> (r: Self)
        ensures
            r.waveform == (Rect { x: 0, y: 0, width: 0, height: 0 }),
            r.signal_list == r.waveform,
            r.marker_names == r.waveform,
            r.time_ruler == r.waveform,
            r.command_bar == r.waveform,
    {
        AppLayout {
            marker_names: Rect::default(),
            signal_list: Rect::default(),
            time_ruler: Rect::default(),
            waveform: Rect::default(),
            command_bar: Rect::default(),
        }
    }
}

} // verus!
