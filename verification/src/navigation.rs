//! Moving the window over the trace: panning, zooming, jumping to a time,
//! selecting a span with the mouse, and placing markers.

use crate::command_mode::state::CommandModeState;
use crate::config::AppConfig;
use crate::fuzzy_finder::state::{filtered, FuzzyFinderState};
use crate::state::{AppMode, AppState, DEFAULT_TIME_RANGE};
use crate::text::views;
use crate::waveform::WaveformData;
use vstd::prelude::*;

verus! {

/// The narrowest window that zooming in leads to.
pub const MIN_TIME_RANGE: u64 = 10;

/// How many columns the mouse has to cover for a drag to zoom.
pub const DRAG_STARTED_THRESHOLD_PIXELS: u16 = 5;

/// A window on the trace: its first time and its width.
pub ghost struct Window {
    pub start: int,
    pub range: int,
}

/// A way to move the window with the keys.
#[derive(Debug, Clone, Copy, PartialEq, Eq, Structural)]
pub enum Motion {
    PanLeft,
    PanRight,
    ZoomIn,
    ZoomOut,
}

/// Why the window was not moved.
#[derive(Debug, Clone, Copy, PartialEq, Eq, Structural)]
pub enum NavigationError {
    /// The time lies behind the end of the trace, which is at `max_time`.
    TimeOutOfRange { max_time: u64 },
    /// The trace cannot be divided by zero.
    InvalidZoomFactor,
}

/// Whether a window is at least as wide as zooming in allows and ends at
/// or before the end of the trace.
pub open spec fn in_bounds(w: Window, max_time: int) -> bool {
    MIN_TIME_RANGE <= w.range && 0 <= w.start && w.start + w.range <= max_time
}

/// The time in the middle of a window.
pub open spec fn center(w: Window) -> int {
    w.start + w.range / 2
}

/// The start of a window of width `range` around the time `middle`, or
/// zero where the window would begin before the trace.
pub open spec fn start_around(middle: int, range: int) -> int {
    if middle > range / 2 {
        middle - range / 2
    } else {
        0
    }
}

/// The latest start of a window of width `range` that ends within the
/// trace, or zero where the window is wider than the trace.
pub open spec fn latest_start(range: int, max_time: int) -> int {
    if max_time >= range {
        max_time - range
    } else {
        0
    }
}

/// `start`, or the latest start within the trace where a window from
/// `start` would end behind the trace.
pub open spec fn clamped_start(start: int, range: int, max_time: int) -> int {
    if start + range > max_time {
        latest_start(range, max_time)
    } else {
        start
    }
}

/// The window after a step to the left by a quarter of its width: it
/// stays within the trace.
pub open spec fn panned_left(w: Window, max_time: int) -> Window {
    let start = if w.start > w.range / 4 {
        w.start - w.range / 4
    } else {
        0
    };
    let latest = latest_start(w.range, max_time);
    Window {
        start: if start > latest {
            latest
        } else {
            start
        },
        range: w.range,
    }
}

/// The window after a step to the right by a quarter of its width: it
/// stays within the trace.
pub open spec fn panned_right(w: Window, max_time: int) -> Window {
    let start = w.start + w.range / 4;
    let latest = latest_start(w.range, max_time);
    Window {
        start: if start > latest {
            latest
        } else {
            start
        },
        range: w.range,
    }
}

/// The window after zooming in: half as wide, but no narrower than the
/// narrowest window, around the same middle.
pub open spec fn zoomed_in(w: Window) -> Window {
    let range = if w.range / 2 >= MIN_TIME_RANGE {
        w.range / 2
    } else {
        MIN_TIME_RANGE as int
    };
    Window { start: start_around(center(w), range), range }
}

/// The window after zooming out: twice as wide, but no wider than the
/// trace, around the same middle, and moved to the left where it would
/// end behind the trace.
pub open spec fn zoomed_out(w: Window, max_time: int) -> Window {
    let range = if 2 * w.range <= max_time {
        2 * w.range
    } else {
        max_time
    };
    Window { start: clamped_start(start_around(center(w), range), range, max_time), range }
}

/// The window that shows one part in `factor` of the trace, around the
/// same middle, and moved to the left where it would end behind the
/// trace.
pub open spec fn zoomed_to(w: Window, max_time: int, factor: int) -> Window {
    let range = max_time / factor;
    Window { start: clamped_start(start_around(center(w), range), range, max_time), range }
}

/// The window of the same width around the time `t`.
pub open spec fn centered_on(w: Window, t: int) -> Window {
    Window { start: start_around(t, w.range), range: w.range }
}

/// The window after one motion.
pub open spec fn moved(w: Window, motion: Motion, max_time: int) -> Window {
    match motion {
        Motion::PanLeft => panned_left(w, max_time),
        Motion::PanRight => panned_right(w, max_time),
        Motion::ZoomIn => zoomed_in(w),
        Motion::ZoomOut => zoomed_out(w, max_time),
    }
}

/// The window after a run of motions.
pub open spec fn moved_all(w: Window, motions: Seq<Motion>, max_time: int) -> Window
    decreases motions.len(),
{
    if motions.len() == 0 {
        w
    } else {
        moved(moved_all(w, motions.drop_last(), max_time), motions.last(), max_time)
    }
}

/// One motion keeps a window within its bounds.
pub proof fn lemma_motion_keeps_bounds(w: Window, motion: Motion, max_time: int)
    requires
        max_time >= MIN_TIME_RANGE,
        in_bounds(w, max_time),
    ensures
        in_bounds(moved(w, motion, max_time), max_time),
{
}

/// The zoom bounds: a window that is within its bounds stays so under any
/// run of pans and zooms. It is never narrower than the narrowest window,
/// and it never ends behind the end of the trace.
pub proof fn lemma_zoom_bounds(w: Window, motions: Seq<Motion>, max_time: int)
    requires
        max_time >= MIN_TIME_RANGE,
        in_bounds(w, max_time),
    ensures
        in_bounds(moved_all(w, motions, max_time), max_time),
    decreases motions.len(),
{
    if motions.len() > 0 {
        lemma_zoom_bounds(w, motions.drop_last(), max_time);
    }
}

/// The time that a column of the window stands for: the start of the
/// window plus the part of its width that lies left of the column, rounded
/// to the nearest unit of time, halves upwards, and no later than the
/// latest time of all. In a window without width, every column but the
/// first stands for the latest time of all, if the window spans any time.
pub open spec fn screen_time(start: u64, range: u64, x: u16, width: u16) -> int {
    if width == 0 {
        if x > 0 && range > 0 {
            u64::MAX as int
        } else {
            0
        }
    } else {
        let t = start + (2 * x * range + width) / (2 * width);
        if t > u64::MAX {
            u64::MAX as int
        } else {
            t
        }
    }
}

/// The window that a drag of the mouse from the time `t1` to the time
/// `t2` selects: from the earlier time to the later one, and at least one
/// unit of time wide.
pub open spec fn selected_window(t1: int, t2: int) -> Window {
    let low = if t1 < t2 {
        t1
    } else {
        t2
    };
    let high = if t1 < t2 {
        t2
    } else {
        t1
    };
    Window {
        start: low,
        range: if high - low >= 1 {
            high - low
        } else {
            1
        },
    }
}

impl AppState {
    /// The window of the state.
    pub open spec fn window(&self) -> Window {
        Window { start: self.time_start as int, range: self.time_range as int }
    }

    /// The state with another window.
    pub open spec fn with_window(&self, w: Window) -> AppState {
        AppState { time_start: w.start as u64, time_range: w.range as u64, ..*self }
    }

    /// Whether the middle of the window is a time that the machine can
    /// hold.
    pub open spec fn center_fits(&self) -> bool {
        center(self.window()) <= u64::MAX
    }

    /// Tests whether the middle of the window is a time that the machine
    /// can hold.
    pub fn has_center(&self) -> (b: bool)
        ensures
            b == self.center_fits(),
    {
        self.time_range / 2 <= u64::MAX - self.time_start
    }

    /// The time that the column `x_pos` of a window `window_width` columns
    /// wide stands for.
    pub fn screen_pos_to_time(&self, x_pos: u16, window_width: u16) -> (t: u64)
        ensures
            t == screen_time(self.time_start, self.time_range, x_pos, window_width),
    {
        if window_width == 0 {
            if x_pos > 0 && self.time_range > 0 {
                u64::MAX
            } else {
                0
            }
        } else {
            let doubled: u128 = 2 * (x_pos as u128);
            let range: u128 = self.time_range as u128;
            assert(doubled * range <= 131070 * 0xffff_ffff_ffff_ffff) by (nonlinear_arith)
                requires
                    doubled <= 131070,
                    range <= 0xffff_ffff_ffff_ffff,
            ;
            let offset: u128 = (doubled * range + (window_width as u128)) / (2 * (
            window_width as u128));
            let t: u128 = self.time_start as u128 + offset;
            if t > u64::MAX as u128 {
                u64::MAX
            } else {
                t as u64
            }
        }
    }

    /// Places the primary marker at the time that the column `x_pos`
    /// stands for, inside the window or not.
    pub fn set_primary_marker(&mut self, x_pos: u16, window_width: u16)
        ensures
            *final(self) == (AppState {
                primary_marker: Some(
                    screen_time(
                        old(self).time_start,
                        old(self).time_range,
                        x_pos,
                        window_width,
                    ) as u64,
                ),
                ..*old(self)
            }),
    {
        self.primary_marker = Some(self.screen_pos_to_time(x_pos, window_width));
    }

    /// Places the secondary marker at the time that the column `x_pos`
    /// stands for, inside the window or not.
    pub fn set_secondary_marker(&mut self, x_pos: u16, window_width: u16)
        ensures
            *final(self) == (AppState {
                secondary_marker: Some(
                    screen_time(
                        old(self).time_start,
                        old(self).time_range,
                        x_pos,
                        window_width,
                    ) as u64,
                ),
                ..*old(self)
            }),
    {
        self.secondary_marker = Some(self.screen_pos_to_time(x_pos, window_width));
    }

    /// The latest start of the window within the trace.
    fn max_start(&self) -> (r: u64)
        ensures
            r == latest_start(self.time_range as int, self.waveform_data.max_time as int),
    {
        if self.waveform_data.max_time >= self.time_range {
            self.waveform_data.max_time - self.time_range
        } else {
            0
        }
    }

    /// Moves the window to the left by a quarter of its width.
    pub fn pan_left(&mut self)
        ensures
            *final(self) == old(self).with_window(
                panned_left(old(self).window(), old(self).waveform_data.max_time as int),
            ),
    {
        let step = self.time_range / 4;
        let start = if self.time_start > step {
            self.time_start - step
        } else {
            0
        };
        let latest = self.max_start();
        self.time_start = if start > latest {
            latest
        } else {
            start
        };
    }

    /// Moves the window to the right by a quarter of its width.
    pub fn pan_right(&mut self)
        ensures
            *final(self) == old(self).with_window(
                panned_right(old(self).window(), old(self).waveform_data.max_time as int),
            ),
    {
        let step = self.time_range / 4;
        let latest = self.max_start();
        self.time_start = if step > latest || self.time_start > latest - step {
            latest
        } else {
            self.time_start + step
        };
    }

    /// Zooms in around the middle of the window.
    pub fn zoom_in(&mut self)
        requires
            old(self).center_fits(),
        ensures
            *final(self) == old(self).with_window(zoomed_in(old(self).window())),
    {
        let middle = self.time_start + self.time_range / 2;
        let range = if self.time_range / 2 >= MIN_TIME_RANGE {
            self.time_range / 2
        } else {
            MIN_TIME_RANGE
        };
        self.time_start = if middle > range / 2 {
            middle - range / 2
        } else {
            0
        };
        self.time_range = range;
    }

    /// The start of a window of width `range` around the middle of the
    /// window that ends within the trace.
    fn start_within(&self, range: u64) -> (r: u64)
        requires
            range <= self.waveform_data.max_time,
        ensures
            r == clamped_start(
                start_around(center(self.window()), range as int),
                range as int,
                self.waveform_data.max_time as int,
            ),
    {
        let middle: u128 = self.time_start as u128 + (self.time_range / 2) as u128;
        let half: u128 = (range / 2) as u128;
        let start: u128 = if middle > half {
            middle - half
        } else {
            0
        };
        let latest = self.waveform_data.max_time - range;
        if start > latest as u128 {
            latest
        } else {
            start as u64
        }
    }

    /// Zooms out around the middle of the window.
    pub fn zoom_out(&mut self)
        ensures
            *final(self) == old(self).with_window(
                zoomed_out(old(self).window(), old(self).waveform_data.max_time as int),
            ),
    {
        let range = if self.time_range > self.waveform_data.max_time / 2 {
            self.waveform_data.max_time
        } else {
            self.time_range * 2
        };
        self.time_start = self.start_within(range);
        self.time_range = range;
    }

    /// Shows the whole trace.
    pub fn zoom_full(&mut self)
        ensures
            *final(self) == old(self).with_window(
                Window { start: 0, range: old(self).waveform_data.max_time as int },
            ),
    {
        self.time_start = 0;
        self.time_range = self.waveform_data.max_time;
    }

    /// Shows one part in `factor` of the trace around the middle of the
    /// window. A factor of zero is refused, and the window stays.
    pub fn zoom_to_factor(&mut self, factor: u64) -> (r: Result<(), NavigationError>)
        ensures
            factor == 0 ==> r == Err::<(), NavigationError>(NavigationError::InvalidZoomFactor)
                && *final(self) == *old(self),
            factor > 0 ==> r is Ok && *final(self) == old(self).with_window(
                zoomed_to(
                    old(self).window(),
                    old(self).waveform_data.max_time as int,
                    factor as int,
                ),
            ),
    {
        if factor == 0 {
            return Err(NavigationError::InvalidZoomFactor);
        }
        let range = self.waveform_data.max_time / factor;
        self.time_start = self.start_within(range);
        self.time_range = range;
        Ok(())
    }

    /// Centers the window on the time `t`. A time behind the end of the
    /// trace is refused, and the window stays.
    pub fn goto(&mut self, t: u64) -> (r: Result<(), NavigationError>)
        ensures
            t > old(self).waveform_data.max_time ==> r == Err::<(), NavigationError>(
                NavigationError::TimeOutOfRange { max_time: old(self).waveform_data.max_time },
            ) && *final(self) == *old(self),
            t <= old(self).waveform_data.max_time ==> r is Ok && *final(self) == old(
                self,
            ).with_window(centered_on(old(self).window(), t as int)),
    {
        if t > self.waveform_data.max_time {
            return Err(NavigationError::TimeOutOfRange { max_time: self.waveform_data.max_time });
        }
        let half = self.time_range / 2;
        self.time_start = if t > half {
            t - half
        } else {
            0
        };
        Ok(())
    }

    /// Moves the window as `motion` says.
    pub fn apply_motion(&mut self, motion: Motion)
        requires
            motion == Motion::ZoomIn ==> old(self).center_fits(),
        ensures
            *final(self) == old(self).with_window(
                moved(old(self).window(), motion, old(self).waveform_data.max_time as int),
            ),
            old(self).waveform_data.max_time >= MIN_TIME_RANGE && in_bounds(
                old(self).window(),
                old(self).waveform_data.max_time as int,
            ) ==> in_bounds(final(self).window(), final(self).waveform_data.max_time as int),
    {
        match motion {
            Motion::PanLeft => self.pan_left(),
            Motion::PanRight => self.pan_right(),
            Motion::ZoomIn => self.zoom_in(),
            Motion::ZoomOut => self.zoom_out(),
        }
    }

    /// Makes the window show the span that the mouse was dragged over,
    /// from the column `p1_screen` to the column `p2_screen` of a window
    /// `width` columns wide. A drag over no more than a few columns
    /// selects nothing, and the window stays.
    pub fn drag_select(&mut self, p1_screen: u16, p2_screen: u16, width: u16)
        ensures
            *final(self) == if p1_screen - p2_screen > DRAG_STARTED_THRESHOLD_PIXELS || p2_screen
                - p1_screen > DRAG_STARTED_THRESHOLD_PIXELS {
                old(self).with_window(
                    selected_window(
                        screen_time(old(self).time_start, old(self).time_range, p1_screen, width),
                        screen_time(old(self).time_start, old(self).time_range, p2_screen, width),
                    ),
                )
            } else {
                *old(self)
            },
    {
        let distance = if p1_screen > p2_screen {
            p1_screen - p2_screen
        } else {
            p2_screen - p1_screen
        };
        if distance > DRAG_STARTED_THRESHOLD_PIXELS {
            let t1 = self.screen_pos_to_time(p1_screen, width);
            let t2 = self.screen_pos_to_time(p2_screen, width);
            self.select_span(t1, t2);
        }
    }

    /// Makes the window show the span between two times.
    pub fn select_span(&mut self, t1: u64, t2: u64)
        ensures
            *final(self) == old(self).with_window(selected_window(t1 as int, t2 as int)),
    {
        let (low, high) = if t1 < t2 {
            (t1, t2)
        } else {
            (t2, t1)
        };
        self.time_start = low;
        self.time_range = if high - low >= 1 {
            high - low
        } else {
            1
        };
    }
}

impl Default for AppState {
    fn default() -> (r: Self)
        ensures
            r.is_fresh(),
            r.time_range == 0,
    {
        AppState {
            exit: false,
            mode: AppMode::Normal,
            waveform_data: WaveformData::default(),
            selected_signal: 0,
            time_start: 0,
            time_range: 0,
            primary_marker: None,
            secondary_marker: None,
            drag_start: None,
            drag_current: None,
            is_dragging: false,
            command_mode_state: CommandModeState::new(),
            fuzzy_finder_state: FuzzyFinderState::default(),
            show_help: false,
            help_menu_scroll: 0,
            config: AppConfig::default(),
            displayed_signals: Vec::new(),
            signal_scroll_offset: 0,
            saved_markers: Vec::new(),
        }
    }
}

impl AppState {
    /// A state in which nothing is loaded, nothing is marked and nothing
    /// is typed.
    pub open spec fn is_fresh(&self) -> bool {
        &&& !self.exit
        &&& self.mode == AppMode::Normal
        &&& self.waveform_data.signals@.len() == 0
        &&& self.waveform_data.values.entries().len() == 0
        &&& self.waveform_data.max_time == 0
        &&& self.selected_signal == 0
        &&& self.time_start == 0
        &&& self.primary_marker is None
        &&& self.secondary_marker is None
        &&& self.drag_start is None
        &&& self.drag_current is None
        &&& !self.is_dragging
        &&& self.command_mode_state.is_blank()
        &&& self.fuzzy_finder_state.query@.len() == 0
        &&& self.fuzzy_finder_state.all_signals@.len() == 0
        &&& self.fuzzy_finder_state.filtered_signals@.len() == 0
        &&& self.fuzzy_finder_state.selected_signals@.len() == 0
        &&& self.fuzzy_finder_state.list_state.selected is None
        &&& !self.show_help
        &&& self.help_menu_scroll == 0
        &&& self.config.keybindings == crate::config::default_keybindings()
        &&& self.displayed_signals@.len() == 0
        &&& self.signal_scroll_offset == 0
        &&& self.saved_markers@.len() == 0
    }

    /// The state of a viewer that has just started: nothing is loaded,
    /// and the window has its first width.
    pub fn new() -> (r: Self)
        ensures
            r.is_fresh(),
            r.time_range == DEFAULT_TIME_RANGE,
    {
        let mut state = AppState::default();
        state.time_range = DEFAULT_TIME_RANGE;
        state
    }

    /// Puts a newly read dump on show: the whole trace is in the window,
    /// and the first signal is highlighted. No signal is displayed until
    /// it is chosen in the signal finder, which takes over the signals of
    /// the dump with none of them chosen.
    pub fn load(&mut self, data: WaveformData)
        ensures
            *final(self) == (AppState {
                waveform_data: data,
                displayed_signals: final(self).displayed_signals,
                fuzzy_finder_state: final(self).fuzzy_finder_state,
                time_start: 0,
                time_range: data.max_time,
                selected_signal: 0,
                ..*old(self)
            }),
            final(self).displayed_signals@.len() == 0,
            final(self).fuzzy_finder_state.query == old(self).fuzzy_finder_state.query,
            final(self).fuzzy_finder_state.all_signals@ == data.signals@,
            final(self).fuzzy_finder_state.selected_signals@.len() == 0,
            views(final(self).fuzzy_finder_state.filtered_signals@) == filtered(
                views(data.signals@),
                old(self).fuzzy_finder_state.query@,
            ),
    {
        let none: Vec<String> = Vec::new();
        self.fuzzy_finder_state.set_signals(
            crate::fuzzy_finder::state::clone_names(&data.signals),
            none.as_slice(),
        );
        assert(views(self.fuzzy_finder_state.selected_signals@).len() == 0) by {
            assert(views(none@).len() == 0);
        }
        self.displayed_signals = Vec::new();
        self.time_start = 0;
        self.time_range = data.max_time;
        self.selected_signal = 0;
        self.waveform_data = data;
    }
}

} // verus!
