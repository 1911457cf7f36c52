//! What the keys and the mouse do to the viewer.

use crate::command_mode::state::COMMAND_RESULT_HIDE_THRESHOLD_SECONDS;
use crate::command_mode::{key_applied, line_run, CommandModeWidget};
use crate::commands::register_all_commands;
use crate::config::AppConfig;
use crate::fuzzy_finder::state::{toggled, with_names, FuzzyFinderState, ListState};
use crate::keys::{KeyCode, KeyEvent, MouseButton, MouseEvent, MouseEventKind};
use crate::layout::AppLayout;
use crate::navigation::{
    moved, screen_time, selected_window, Motion, Window, DRAG_STARTED_THRESHOLD_PIXELS,
};
use crate::state::{is_listed, listed, AppMode, AppState, DEFAULT_TIME_RANGE};
use crate::text::views;
use vstd::prelude::*;

verus! {

/// How many rows of the screen one signal takes.
pub const WAVEFORM_HEIGHT: usize = 2;

/// How many columns the mouse has to cover for a press to become a drag.
pub const DRAG_DETECTED_THRESHOLD_PIXELS: u16 = 3;

/// The place of the first signal on the screen once the signal at
/// `selected` is brought into view: the list scrolls up to a signal above
/// the screen, and down to one below it just so far that it becomes the
/// lowest on the screen. A screen too low for one signal does not scroll.
pub open spec fn scrolled_to(selected: int, offset: int, height: int) -> int {
    let rows = height / (WAVEFORM_HEIGHT as int);
    if rows == 0 {
        offset
    } else {
        let top = if selected < offset {
            selected
        } else {
            offset
        };
        if selected > top + rows - 1 {
            if selected > rows - 1 {
                selected - (rows - 1)
            } else {
                0
            }
        } else {
            top
        }
    }
}

/// `names` with the entries at `i` and `j` in each other's place.
pub open spec fn exchanged(names: Seq<String>, i: int, j: int) -> Seq<String> {
    names.update(i, names[j]).update(j, names[i])
}

/// What a key of the signal list does: the place of the highlighted
/// signal after the key, and whether the signal moves with the highlight.
///
/// `Up` moves the highlight to the signal above, `Down` to the one below;
/// at the ends of the list nothing happens. With shift held, the
/// highlighted signal itself moves.
pub open spec fn list_step(state: AppState, key: KeyEvent) -> Option<(int, bool)> {
    let keys = state.config.keybindings;
    let count = state.displayed_signals@.len();
    let selected = state.selected_signal as int;
    if key.code == keys.up {
        if count > 0 && selected > 0 && (key.shift ==> selected < count) {
            Some((selected - 1, key.shift))
        } else {
            None
        }
    } else if key.code == keys.down {
        if count > 0 && selected < count - 1 {
            Some((selected + 1, key.shift))
        } else {
            None
        }
    } else {
        None
    }
}

/// What a key of the window does, if it is one.
pub open spec fn window_motion(state: AppState, key: KeyEvent) -> Option<Motion> {
    let keys = state.config.keybindings;
    if key.code == keys.up || key.code == keys.down {
        None
    } else if key.code == keys.left {
        Some(Motion::PanLeft)
    } else if key.code == keys.right {
        Some(Motion::PanRight)
    } else if key.code == keys.zoom_out {
        Some(Motion::ZoomOut)
    } else if key.code == keys.zoom_in {
        Some(Motion::ZoomIn)
    } else {
        None
    }
}

/// The state after a key in normal mode.
///
/// The keys are tried in this order: up, down, left, right, zoom out,
/// zoom in, whole trace, delete the primary marker, delete the secondary
/// marker; the first that the key is bound to decides. `signals` is the
/// list of displayed signals after the key.
pub open spec fn after_normal_key(
    state: AppState,
    key: KeyEvent,
    height: u16,
    signals: Vec<String>,
) -> AppState {
    let keys = state.config.keybindings;
    if key.code == keys.up || key.code == keys.down {
        match list_step(state, key) {
            Some((selected, _)) => AppState {
                selected_signal: selected as usize,
                signal_scroll_offset: scrolled_to(
                    selected,
                    state.signal_scroll_offset as int,
                    height as int,
                ) as usize,
                displayed_signals: signals,
                ..state
            },
            None => state,
        }
    } else {
        match window_motion(state, key) {
            Some(motion) => state.with_window(
                moved(state.window(), motion, state.waveform_data.max_time as int),
            ),
            None => if key.code == keys.zoom_full {
                state.with_window(Window { start: 0, range: state.waveform_data.max_time as int })
            } else if key.code == keys.delete_primary_marker {
                AppState { primary_marker: None, ..state }
            } else if key.code == keys.delete_secondary_marker {
                AppState { secondary_marker: None, ..state }
            } else {
                state
            },
        }
    }
}

/// The displayed signals after a key in normal mode.
pub open spec fn signals_after_key(state: AppState, key: KeyEvent) -> Seq<String> {
    match list_step(state, key) {
        Some((selected, true)) => exchanged(
            state.displayed_signals@,
            state.selected_signal as int,
            selected,
        ),
        _ => state.displayed_signals@,
    }
}

impl AppState {
    /// Scrolls the signal list so far that the highlighted signal is on a
    /// screen `height` rows high.
    pub fn adjust_scroll_if_needed(&mut self, height: u16)
        ensures
            *final(self) == (AppState {
                signal_scroll_offset: scrolled_to(
                    old(self).selected_signal as int,
                    old(self).signal_scroll_offset as int,
                    height as int,
                ) as usize,
                ..*old(self)
            }),
    {
        let rows: usize = height as usize / WAVEFORM_HEIGHT;
        if rows == 0 {
            return ;
        }
        if self.selected_signal < self.signal_scroll_offset {
            self.signal_scroll_offset = self.selected_signal;
        }
        if self.selected_signal - self.signal_scroll_offset > rows - 1 {
            self.signal_scroll_offset = self.selected_signal - (rows - 1);
        }
    }

    /// Puts the displayed signals at `i` and `j` in each other's place.
    fn exchange_signals(&mut self, i: usize, j: usize)
        requires
            i < old(self).displayed_signals@.len(),
            j < old(self).displayed_signals@.len(),
        ensures
            *final(self) == (AppState {
                displayed_signals: final(self).displayed_signals,
                ..*old(self)
            }),
            final(self).displayed_signals@ == exchanged(
                old(self).displayed_signals@,
                i as int,
                j as int,
            ),
    {
        let first = self.displayed_signals[i].clone();
        let second = self.displayed_signals[j].clone();
        self.displayed_signals.set(i, second);
        self.displayed_signals.set(j, first);
    }

    /// Lets a key act on the viewer in normal mode, on a screen whose
    /// signal list is `height` rows high.
    pub fn handle_normal_mode(&mut self, key: KeyEvent, height: u16)
        requires
            window_motion(*old(self), key) == Some(Motion::ZoomIn) ==> old(self).center_fits(),
        ensures
            *final(self) == after_normal_key(*old(self), key, height, final(self).displayed_signals),
            final(self).displayed_signals@ == signals_after_key(*old(self), key),
    {
        let keys = self.config.keybindings;
        let count = self.displayed_signals.len();
        if key.code == keys.up {
            if count > 0 && self.selected_signal > 0 && (!key.shift || self.selected_signal
                < count) {
                if key.shift {
                    self.exchange_signals(self.selected_signal, self.selected_signal - 1);
                }
                self.selected_signal = self.selected_signal - 1;
                self.adjust_scroll_if_needed(height);
            }
        } else if key.code == keys.down {
            if count > 0 && self.selected_signal < count - 1 {
                if key.shift {
                    self.exchange_signals(self.selected_signal, self.selected_signal + 1);
                }
                self.selected_signal = self.selected_signal + 1;
                self.adjust_scroll_if_needed(height);
            }
        } else if key.code == keys.left {
            self.pan_left();
        } else if key.code == keys.right {
            self.pan_right();
        } else if key.code == keys.zoom_out {
            self.zoom_out();
        } else if key.code == keys.zoom_in {
            self.zoom_in();
        } else if key.code == keys.zoom_full {
            self.zoom_full();
        } else if key.code == keys.delete_primary_marker {
            self.primary_marker = None;
        } else if key.code == keys.delete_secondary_marker {
            self.secondary_marker = None;
        }
    }

    /// Forgets the drag of the mouse.
    fn reset_drag(&mut self)
        ensures
            *final(self) == (AppState {
                drag_start: None,
                drag_current: None,
                is_dragging: false,
                ..*old(self)
            }),
    {
        self.drag_start = None;
        self.drag_current = None;
        self.is_dragging = false;
    }
}

/// How far two columns lie apart.
pub open spec fn distance(a: u16, b: u16) -> int {
    if a > b {
        a - b
    } else {
        b - a
    }
}

/// How far two columns lie apart.
fn columns_apart(a: u16, b: u16) -> (r: u16)
    ensures
        r == distance(a, b),
{
    if a > b {
        a - b
    } else {
        b - a
    }
}

/// The state after an event of the mouse in the waveform, `column`
/// columns right of its left edge, in a waveform `width` columns wide.
///
/// - A press of the left button with shift places the secondary marker.
///   Without shift it starts what may become a click or a drag.
/// - A move with the left button held goes on with it, and makes it a
///   drag once the mouse is far enough from where it was pressed.
/// - A release of the left button ends it. A drag over enough columns
///   makes the window show the span that was dragged over; a shorter drag
///   does nothing; a click places the primary marker where the button was
///   pressed.
pub open spec fn after_waveform_mouse(
    state: AppState,
    kind: MouseEventKind,
    shift: bool,
    column: u16,
    width: u16,
) -> AppState {
    let time = screen_time(state.time_start, state.time_range, column, width) as u64;
    match kind {
        MouseEventKind::Down(MouseButton::Left) => if shift {
            AppState { secondary_marker: Some(time), ..state }
        } else {
            AppState {
                drag_start: Some((column, time)),
                drag_current: Some((column, time)),
                is_dragging: false,
                ..state
            }
        },
        MouseEventKind::Drag(MouseButton::Left) => match state.drag_start {
            Some((start_x, _)) => AppState {
                is_dragging: state.is_dragging || distance(start_x, column)
                    >= DRAG_DETECTED_THRESHOLD_PIXELS,
                drag_current: Some((column, time)),
                ..state
            },
            None => state,
        },
        MouseEventKind::Up(MouseButton::Left) => {
            let done = AppState {
                drag_start: None,
                drag_current: None,
                is_dragging: false,
                ..state
            };
            match (state.drag_start, state.drag_current) {
                (Some((start_x, start_time)), Some((end_x, end_time))) => if state.is_dragging {
                    if distance(start_x, end_x) > DRAG_STARTED_THRESHOLD_PIXELS {
                        done.with_window(selected_window(start_time as int, end_time as int))
                    } else {
                        done
                    }
                } else {
                    AppState {
                        primary_marker: Some(
                            screen_time(state.time_start, state.time_range, start_x, width) as u64,
                        ),
                        ..done
                    }
                },
                _ => done,
            }
        },
        _ => state,
    }
}

/// The state after an event of the mouse in the signal list, `row` rows
/// below its upper edge, beside a waveform `height` rows high: a press of
/// the left button highlights the signal on that row, if there is one.
pub open spec fn after_list_mouse(state: AppState, kind: MouseEventKind, row: u16, height: u16) -> AppState {
    let index = row as int / (WAVEFORM_HEIGHT as int) + state.signal_scroll_offset;
    if kind == MouseEventKind::Down(MouseButton::Left) && index < state.displayed_signals@.len() {
        AppState {
            selected_signal: index as usize,
            signal_scroll_offset: scrolled_to(
                index,
                state.signal_scroll_offset as int,
                height as int,
            ) as usize,
            ..state
        }
    } else {
        state
    }
}

/// The state after an event of the mouse on a screen laid out as
/// `layout`: in the waveform and in the signal list it does what is said
/// there; anywhere else it ends a drag.
pub open spec fn after_mouse(state: AppState, mouse: MouseEvent, layout: AppLayout) -> AppState {
    if layout.waveform.holds(mouse.column, mouse.row) {
        after_waveform_mouse(
            state,
            mouse.kind,
            mouse.shift,
            (mouse.column - layout.waveform.x) as u16,
            layout.waveform.width,
        )
    } else if layout.signal_list.holds(mouse.column, mouse.row) {
        after_list_mouse(
            state,
            mouse.kind,
            (mouse.row - layout.signal_list.y) as u16,
            layout.waveform.height,
        )
    } else {
        AppState { drag_start: None, drag_current: None, is_dragging: false, ..state }
    }
}

impl AppState {
    /// Lets an event of the mouse act on the viewer.
    pub fn handle_mouse(&mut self, mouse: MouseEvent, layout: &AppLayout)
        ensures
            *final(self) == after_mouse(*old(self), mouse, *layout),
    {
        if layout.waveform.contains(mouse.column, mouse.row) {
            let column = mouse.column - layout.waveform.x;
            let width = layout.waveform.width;
            match mouse.kind {
                MouseEventKind::Down(MouseButton::Left) => {
                    if mouse.shift {
                        self.set_secondary_marker(column, width);
                    } else {
                        let time = self.screen_pos_to_time(column, width);
                        self.drag_start = Some((column, time));
                        self.drag_current = Some((column, time));
                        self.is_dragging = false;
                    }
                },
                MouseEventKind::Drag(MouseButton::Left) => {
                    match self.drag_start {
                        Some((start_x, _)) => {
                            let time = self.screen_pos_to_time(column, width);
                            if !self.is_dragging && columns_apart(start_x, column)
                                >= DRAG_DETECTED_THRESHOLD_PIXELS {
                                self.is_dragging = true;
                            }
                            self.drag_current = Some((column, time));
                        },
                        None => {},
                    }
                },
                MouseEventKind::Up(MouseButton::Left) => {
                    match (self.drag_start, self.drag_current) {
                        (Some((start_x, start_time)), Some((end_x, end_time))) => {
                            if self.is_dragging {
                                if columns_apart(start_x, end_x) > DRAG_STARTED_THRESHOLD_PIXELS {
                                    self.select_span(start_time, end_time);
                                }
                            } else {
                                self.set_primary_marker(start_x, width);
                            }
                        },
                        _ => {},
                    }
                    self.reset_drag();
                },
                _ => {},
            }
        } else if layout.signal_list.contains(mouse.column, mouse.row) {
            match mouse.kind {
                MouseEventKind::Down(MouseButton::Left) => {
                    let row: usize = (mouse.row - layout.signal_list.y) as usize;
                    let count = self.displayed_signals.len();
                    match (row / WAVEFORM_HEIGHT).checked_add(self.signal_scroll_offset) {
                        Some(index) => {
                            if index < count {
                                self.selected_signal = index;
                                self.adjust_scroll_if_needed(layout.waveform.height);
                            }
                        },
                        None => {},
                    }
                },
                _ => {},
            }
        } else {
            self.reset_drag();
        }
    }
}

/// The signals of `signals` that are among `chosen`, in their order.
pub open spec fn chosen_signals(signals: Seq<String>, chosen: Seq<String>) -> Seq<String>
    decreases signals.len(),
{
    if signals.len() == 0 {
        Seq::empty()
    } else if is_listed(chosen, signals.last()@) {
        chosen_signals(signals.drop_last(), chosen).push(signals.last())
    } else {
        chosen_signals(signals.drop_last(), chosen)
    }
}

/// What a key does in the signal finder.
///
/// `Esc` leaves the finder. `Enter` leaves it and displays the chosen
/// signals, in the order of the dump. The space bar chooses the
/// highlighted signal or takes it back. With control held, `a` chooses
/// every filtered signal and `x` takes every choice back. `Up` and `Down`
/// move the highlight, `Backspace` shortens the query, and any other
/// character is added to it.
pub enum FinderAction {
    Leave,
    Accept,
    Toggle,
    SelectAll,
    ClearSelection,
    Previous,
    Next,
    Backspace,
    Type(char),
    Nothing,
}

/// What `key` does in the signal finder.
pub open spec fn finder_action(key: KeyEvent) -> FinderAction {
    match key.code {
        KeyCode::Esc => FinderAction::Leave,
        KeyCode::Enter => FinderAction::Accept,
        KeyCode::Char(c) => if c == ' ' {
            FinderAction::Toggle
        } else if key.control {
            if c == 'a' || c == 'A' {
                FinderAction::SelectAll
            } else if c == 'x' || c == 'X' {
                FinderAction::ClearSelection
            } else {
                FinderAction::Nothing
            }
        } else {
            FinderAction::Type(c)
        },
        KeyCode::Up => FinderAction::Previous,
        KeyCode::Down => FinderAction::Next,
        KeyCode::Backspace => FinderAction::Backspace,
        _ => FinderAction::Nothing,
    }
}

/// What `key` does in the signal finder.
pub fn finder_action_of(key: KeyEvent) -> (r: FinderAction)
    ensures
        r == finder_action(key),
{
    match key.code {
        KeyCode::Esc => FinderAction::Leave,
        KeyCode::Enter => FinderAction::Accept,
        KeyCode::Char(c) => {
            if c == ' ' {
                FinderAction::Toggle
            } else if key.control {
                if c == 'a' || c == 'A' {
                    FinderAction::SelectAll
                } else if c == 'x' || c == 'X' {
                    FinderAction::ClearSelection
                } else {
                    FinderAction::Nothing
                }
            } else {
                FinderAction::Type(c)
            }
        },
        KeyCode::Up => FinderAction::Previous,
        KeyCode::Down => FinderAction::Next,
        KeyCode::Backspace => FinderAction::Backspace,
        _ => FinderAction::Nothing,
    }
}

/// The highlight of the displayed signals once `count` signals are
/// displayed: a highlight behind them moves to the first.
pub open spec fn highlight_within(selected: usize, count: nat) -> usize {
    if selected >= count {
        0
    } else {
        selected
    }
}

/// What a key does to the viewer in the signal finder.
pub open spec fn finder_key_outcome(before: AppState, key: KeyEvent, after: AppState) -> bool {
    let finder = before.fuzzy_finder_state;
    let found = after.fuzzy_finder_state;
    let only_finder = after == (AppState { fuzzy_finder_state: found, ..before });
    let only_chosen = found == (FuzzyFinderState {
        selected_signals: found.selected_signals,
        ..finder
    });
    match finder_action(key) {
        FinderAction::Leave => after == (AppState { mode: AppMode::Normal, ..before }),
        FinderAction::Accept => {
            &&& after == (AppState {
                displayed_signals: after.displayed_signals,
                selected_signal: highlight_within(
                    before.selected_signal,
                    after.displayed_signals@.len(),
                ),
                mode: AppMode::Normal,
                ..before
            })
            &&& after.displayed_signals@ == chosen_signals(
                before.waveform_data.signals@,
                finder.selected_signals@,
            )
        },
        FinderAction::Toggle => {
            &&& only_finder
            &&& only_chosen
            &&& views(found.selected_signals@) == match finder.list_state.selected {
                Some(i) => if i < finder.filtered_signals@.len() {
                    toggled(views(finder.selected_signals@), finder.filtered_signals@[i as int]@)
                } else {
                    views(finder.selected_signals@)
                },
                None => views(finder.selected_signals@),
            }
        },
        FinderAction::SelectAll => {
            &&& only_finder
            &&& only_chosen
            &&& views(found.selected_signals@) == with_names(
                views(finder.selected_signals@),
                views(finder.filtered_signals@),
            )
        },
        FinderAction::ClearSelection => {
            &&& only_finder
            &&& only_chosen
            &&& found.selected_signals@.len() == 0
        },
        FinderAction::Previous => only_finder && found == (FuzzyFinderState {
            list_state: ListState {
                selected: Some(finder.previous_place()),
                ..finder.list_state
            },
            ..finder
        }),
        FinderAction::Next => only_finder && found == (FuzzyFinderState {
            list_state: ListState { selected: Some(finder.next_place()), ..finder.list_state },
            ..finder
        }),
        FinderAction::Backspace => only_finder && if finder.query@.len() == 0 {
            found == finder
        } else {
            &&& found.query@ == finder.query@.drop_last()
            &&& (FuzzyFinderState { query: found.query, ..finder }).refreshed(found)
        },
        FinderAction::Type(c) => {
            &&& only_finder
            &&& found.query@ == finder.query@.push(c)
            &&& (FuzzyFinderState { query: found.query, ..finder }).refreshed(found)
        },
        FinderAction::Nothing => after == before,
    }
}

impl AppState {
    /// Displays the signals that are chosen in the signal finder, in the
    /// order of the dump, and goes back to normal mode. A highlight that
    /// would lie behind the displayed signals moves to the first of them.
    pub fn accept_selection(&mut self)
        ensures
            *final(self) == (AppState {
                displayed_signals: final(self).displayed_signals,
                selected_signal: highlight_within(
                    old(self).selected_signal,
                    final(self).displayed_signals@.len(),
                ),
                mode: AppMode::Normal,
                ..*old(self)
            }),
            final(self).displayed_signals@ == chosen_signals(
                old(self).waveform_data.signals@,
                old(self).fuzzy_finder_state.selected_signals@,
            ),
    {
        let mut displayed: Vec<String> = Vec::new();
        let mut i: usize = 0;
        while i < self.waveform_data.signals.len()
            invariant
                i <= self.waveform_data.signals.len(),
                *self == *old(self),
                displayed@ == chosen_signals(
                    self.waveform_data.signals@.take(i as int),
                    self.fuzzy_finder_state.selected_signals@,
                ),
            decreases self.waveform_data.signals.len() - i,
        {
            proof {
                let t = self.waveform_data.signals@.take(i + 1);
                assert(t.drop_last() == self.waveform_data.signals@.take(i as int));
            }
            let signal = &self.waveform_data.signals[i];
            if listed(&self.fuzzy_finder_state.selected_signals, signal.as_str()) {
                displayed.push(signal.clone());
            }
            i += 1;
        }
        assert(self.waveform_data.signals@.take(self.waveform_data.signals@.len() as int)
            == self.waveform_data.signals@);
        if self.selected_signal >= displayed.len() {
            self.selected_signal = 0;
        }
        self.displayed_signals = displayed;
        self.mode = AppMode::Normal;
    }

    /// Lets a key act on the viewer in the signal finder.
    pub fn handle_fuzzy_finder_input(&mut self, key: KeyEvent)
        ensures
            finder_key_outcome(*old(self), key, *final(self)),
    {
        match finder_action_of(key) {
            FinderAction::Leave => {
                self.mode = AppMode::Normal;
            },
            FinderAction::Accept => {
                self.accept_selection();
            },
            FinderAction::Toggle => {
                self.fuzzy_finder_state.toggle_selected_signal();
            },
            FinderAction::SelectAll => {
                self.fuzzy_finder_state.select_all();
            },
            FinderAction::ClearSelection => {
                self.fuzzy_finder_state.clear_selection();
            },
            FinderAction::Previous => {
                self.fuzzy_finder_state.select_previous();
            },
            FinderAction::Next => {
                self.fuzzy_finder_state.select_next();
            },
            FinderAction::Backspace => {
                self.fuzzy_finder_state.handle_backspace();
            },
            FinderAction::Type(c) => {
                self.fuzzy_finder_state.handle_input(c);
            },
            FinderAction::Nothing => {},
        }
    }
}

/// The viewer: its state, the layout of its screen and its commands.
pub struct App {
    pub state: AppState,
    pub layout: AppLayout,
    pub command_mode: CommandModeWidget<AppState>,
}

/// Something that the viewer takes notice of.
#[derive(Debug, Clone, Copy, PartialEq, Eq, Structural)]
pub enum Event {
    /// A key was pressed.
    Key(KeyEvent),
    /// The mouse did something.
    Mouse(MouseEvent),
    /// Nothing happened for a while. If the outcome of a command is on
    /// show, the event says for how many seconds it has been.
    Idle(Option<u64>),
}

/// The state when a key has left command mode: the viewer is in normal
/// mode, and the command line is empty and shows no outcome.
pub open spec fn left_command_mode(before: AppState, after: AppState) -> bool {
    &&& after == (AppState {
        mode: AppMode::Normal,
        command_mode_state: after.command_mode_state,
        ..before
    })
    &&& after.command_mode_state.input_buffer@.len() == 0
    &&& after.command_mode_state.cursor_position == 0
    &&& after.command_mode_state.history_index is None
    &&& after.command_mode_state.result_message is None
    &&& !after.command_mode_state.result_is_error
    &&& after.command_mode_state.history == before.command_mode_state.history
}

/// What a key does in command mode.
///
/// The key that leaves command mode empties the command line. The key
/// that runs the command line runs it, shows its outcome, and leaves
/// command mode unless the command entered another mode. Any other key
/// edits the command line. Only the key that runs the command line can
/// run a command.
pub open spec fn command_key_outcome(before: App, key: KeyEvent, after: App, ran: bool) -> bool {
    &&& after.layout == before.layout
    &&& after.command_mode == before.command_mode
    &&& if key.code == before.state.config.keybindings.enter_normal_mode {
        !ran && left_command_mode(before.state, after.state)
    } else if key.code == before.state.config.keybindings.execute_command {
        exists|reached: AppState|
            {
                &&& #[trigger] line_run(
                    before.command_mode.spec_parser().spec_registry(),
                    before.state,
                    reached,
                    ran,
                )
                &&& after.state == if ran && reached.mode == AppMode::Command {
                    AppState { mode: AppMode::Normal, ..reached }
                } else {
                    reached
                }
            }
    } else {
        &&& !ran
        &&& after.state == (AppState {
            command_mode_state: after.state.command_mode_state,
            ..before.state
        })
        &&& key_applied(before.state.command_mode_state, key.code, after.state.command_mode_state)
        &&& after.state.command_mode_state.wf()
    }
}

/// What a key does in command mode or in normal mode.
///
/// In command mode the key goes to the command line. Else the key that
/// enters command mode does so, with an empty command line that shows no
/// outcome, and any other key acts in normal mode.
pub open spec fn key_outcome(before: App, key: KeyEvent, after: App, ran: bool) -> bool {
    if before.state.mode == AppMode::Command {
        command_key_outcome(before, key, after, ran)
    } else {
        &&& !ran
        &&& after.layout == before.layout
        &&& after.command_mode == before.command_mode
        &&& if key.code == before.state.config.keybindings.enter_command_mode {
            &&& after.state == (AppState {
                mode: AppMode::Command,
                command_mode_state: after.state.command_mode_state,
                ..before.state
            })
            &&& after.state.command_mode_state.wf()
            &&& after.state.command_mode_state.input_buffer@.len() == 0
            &&& after.state.command_mode_state.result_message is None
            &&& !after.state.command_mode_state.result_is_error
            &&& after.state.command_mode_state.history
                == before.state.command_mode_state.history
        } else {
            &&& after.state == after_normal_key(
                before.state,
                key,
                before.layout.waveform.height,
                after.state.displayed_signals,
            )
            &&& after.state.displayed_signals@ == signals_after_key(before.state, key)
        }
    }
}

/// What a key does while the help is on show: `Esc` hides the help,
/// `Up` and `Down` scroll it, and any other key does nothing.
pub open spec fn after_help_key(state: AppState, key: KeyEvent) -> AppState {
    match key.code {
        KeyCode::Esc => AppState { show_help: false, help_menu_scroll: 0, ..state },
        KeyCode::Up => AppState {
            help_menu_scroll: if state.help_menu_scroll > 0 {
                (state.help_menu_scroll - 1) as usize
            } else {
                0
            },
            ..state
        },
        KeyCode::Down => AppState {
            help_menu_scroll: if state.help_menu_scroll < usize::MAX {
                (state.help_menu_scroll + 1) as usize
            } else {
                state.help_menu_scroll
            },
            ..state
        },
        _ => state,
    }
}

/// What an event does.
///
/// A key goes to the help while the help is on show, else to the signal
/// finder, the command line or the window, as the mode says. The mouse
/// acts on the waveform and the signal list. When nothing happens, the
/// outcome of a command goes off the screen once it has been on show long
/// enough.
pub open spec fn event_outcome(before: App, event: Event, after: App, ran: bool) -> bool {
    match event {
        Event::Key(key) => if before.state.show_help {
            &&& !ran
            &&& after == (App { state: after_help_key(before.state, key), ..before })
        } else if before.state.mode == AppMode::FuzzyFinder {
            &&& !ran
            &&& after == (App { state: after.state, ..before })
            &&& finder_key_outcome(before.state, key, after.state)
        } else {
            key_outcome(before, key, after, ran)
        },
        Event::Mouse(mouse) => {
            &&& !ran
            &&& after == (App { state: after_mouse(before.state, mouse, before.layout), ..before })
        },
        Event::Idle(shown_for) => {
            &&& !ran
            &&& after == (App {
                state: AppState {
                    command_mode_state: after.state.command_mode_state,
                    ..before.state
                },
                ..before
            })
            &&& before.state.command_mode_state.same_line(after.state.command_mode_state)
            &&& after.state.command_mode_state.history == before.state.command_mode_state.history
            &&& after.state.command_mode_state.history_index
                == before.state.command_mode_state.history_index
            &&& after.state.command_mode_state.result_is_error
                == before.state.command_mode_state.result_is_error
            &&& after.state.command_mode_state.result_message == if shown_for matches Some(seconds)
                && seconds >= COMMAND_RESULT_HIDE_THRESHOLD_SECONDS {
                None
            } else {
                before.state.command_mode_state.result_message
            }
        },
    }
}

impl Default for App {
    fn default() -> (app: Self)
        ensures
            app.wf(),
            app.state.is_fresh(),
            app.state.time_range == DEFAULT_TIME_RANGE,
    {
        App::with_config(AppConfig::default())
    }
}

impl App {
    /// Whether the command line holds its cursor.
    pub open spec fn wf(&self) -> bool {
        self.state.command_mode_state.wf()
    }

    /// Whether, where `key` would zoom in, the middle of the window is a
    /// time that the machine can hold.
    pub open spec fn zoom_fits(&self, key: KeyEvent) -> bool {
        self.state.mode != AppMode::Command && window_motion(self.state, key) == Some(
            Motion::ZoomIn,
        ) ==> self.state.center_fits()
    }

    /// Tests whether the viewer can take the event: the command line
    /// holds its cursor, and a key that zooms in finds the middle of the
    /// window.
    pub fn accepts(&self, event: Event) -> (b: bool)
        ensures
            b == (self.wf() && (event matches Event::Key(key) ==> self.zoom_fits(key))),
    {
        if !self.state.command_mode_state.is_well_formed() {
            return false;
        }
        match event {
            Event::Key(key) => {
                let keys = self.state.config.keybindings;
                let zooms_in = key.code != keys.up && key.code != keys.down && key.code
                    != keys.left && key.code != keys.right && key.code != keys.zoom_out
                    && key.code == keys.zoom_in;
                self.state.mode == AppMode::Command || !zooms_in || self.state.has_center()
            },
            _ => true,
        }
    }

    /// A viewer that has just started with the configuration `config`:
    /// nothing is loaded, the screen is not laid out, and the commands of
    /// the viewer are registered.
    pub fn with_config(config: AppConfig) -> (app: Self)
        ensures
            app.wf(),
            app.state == (AppState { config, ..app.state }),
            config.keybindings == crate::config::default_keybindings() ==> app.state.is_fresh(),
            app.state.time_range == DEFAULT_TIME_RANGE,
    {
        let mut command_mode: CommandModeWidget<AppState> = CommandModeWidget::new();
        register_all_commands(&mut command_mode);
        let mut state = AppState::new();
        state.config = config;
        App { state, layout: AppLayout::default(), command_mode }
    }

    /// Lets a key act on the viewer in command mode, and tells whether a
    /// command was run.
    pub fn handle_command_input(&mut self, key: KeyEvent) -> (ran: bool)
        requires
            old(self).wf(),
        ensures
            command_key_outcome(*old(self), key, *final(self), ran),
    {
        if key.code == self.state.config.keybindings.enter_normal_mode {
            self.state.mode = AppMode::Normal;
            self.state.command_mode_state.clear();
            false
        } else if key.code == self.state.config.keybindings.execute_command {
            let ran = self.command_mode.execute(&mut self.state);
            if ran && self.state.mode == AppMode::Command {
                self.state.mode = AppMode::Normal;
            }
            ran
        } else {
            self.command_mode.handle_input(key.code, &mut self.state);
            false
        }
    }

    /// Lets a key act on the viewer in command mode or in normal mode, on
    /// a screen that is laid out as the layout says, and tells whether a
    /// command was run.
    pub fn handle_input(&mut self, key: KeyEvent) -> (ran: bool)
        requires
            old(self).wf(),
            old(self).zoom_fits(key),
        ensures
            key_outcome(*old(self), key, *final(self), ran),
    {
        if self.state.mode == AppMode::Command {
            self.handle_command_input(key)
        } else if key.code == self.state.config.keybindings.enter_command_mode {
            self.state.mode = AppMode::Command;
            self.state.command_mode_state.clear();
            false
        } else {
            self.state.handle_normal_mode(key, self.layout.waveform.height);
            false
        }
    }

    /// Lets an event act on the viewer, and tells whether a command was
    /// run.
    pub fn handle_event(&mut self, event: Event) -> (ran: bool)
        requires
            old(self).wf(),
            event matches Event::Key(key) ==> old(self).zoom_fits(key),
        ensures
            event_outcome(*old(self), event, *final(self), ran),
    {
        match event {
            Event::Key(key) => {
                if self.state.show_help {
                    match key.code {
                        KeyCode::Esc => {
                            self.state.show_help = false;
                            self.state.help_menu_scroll = 0;
                        },
                        KeyCode::Up => {
                            if self.state.help_menu_scroll > 0 {
                                self.state.help_menu_scroll = self.state.help_menu_scroll - 1;
                            }
                        },
                        KeyCode::Down => {
                            if self.state.help_menu_scroll < usize::MAX {
                                self.state.help_menu_scroll = self.state.help_menu_scroll + 1;
                            }
                        },
                        _ => {},
                    }
                    false
                } else if self.state.mode == AppMode::FuzzyFinder {
                    self.state.handle_fuzzy_finder_input(key);
                    false
                } else {
                    self.handle_input(key)
                }
            },
            Event::Mouse(mouse) => {
                self.state.handle_mouse(mouse, &self.layout);
                false
            },
            Event::Idle(shown_for) => {
                match shown_for {
                    Some(seconds) => {
                        self.state.command_mode_state.expire_result(seconds);
                    },
                    None => {},
                }
                false
            },
        }
    }
}

} // verus!
