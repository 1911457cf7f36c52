//! The state of the viewer, and the questions that the screen asks of it:
//! what a signal shows in the window, what it is worth at a time, and
//! whether it changes there.

use crate::command_mode::CommandModeStateAccess;
use crate::command_mode::state::CommandModeState;
use crate::config::AppConfig;
use crate::fuzzy_finder::FuzzyFinderStateAccess;
use crate::fuzzy_finder::state::FuzzyFinderState;
use crate::marker::Marker;
use crate::text::{push_str_chars, same_text, string_of};
use crate::value::{WaveValue, WaveValueView};
use crate::waveform::{is_monotonic, LogView, WaveformData};
use vstd::prelude::*;

verus! {

/// What the keys of the viewer act on.
#[derive(Debug, Clone, Copy, PartialEq, Eq, Structural)]
pub enum AppMode {
    Normal,
    Command,
    FuzzyFinder,
}

impl Default for AppMode {
    fn default() -> (r: Self)
        ensures
            r == AppMode::Normal,
    {
        AppMode::Normal
    }
}

/// The width of the window before a dump is loaded.
pub const DEFAULT_TIME_RANGE: u64 = 50;

/// The state of the viewer.
///
/// The window shows the times from `time_start` up to, and without,
/// `time_start + time_range`.
pub struct AppState {
    /// Whether the viewer is about to end.
    pub exit: bool,
    /// What the keys act on.
    pub mode: AppMode,
    /// The dump on show.
    pub waveform_data: WaveformData,
    /// The place of the highlighted signal among the displayed ones.
    pub selected_signal: usize,
    /// The first time in the window.
    pub time_start: u64,
    /// The width of the window, in units of time.
    pub time_range: u64,
    /// The time of the primary marker.
    pub primary_marker: Option<u64>,
    /// The time of the secondary marker.
    pub secondary_marker: Option<u64>,
    /// The column and the time where a drag of the mouse began.
    pub drag_start: Option<(u16, u64)>,
    /// The column and the time where a drag of the mouse is now.
    pub drag_current: Option<(u16, u64)>,
    /// Whether the mouse has moved far enough since it was pressed for
    /// this to be a drag and no click.
    pub is_dragging: bool,
    /// The command line.
    pub command_mode_state: CommandModeState,
    /// The signal finder.
    pub fuzzy_finder_state: FuzzyFinderState,
    /// Whether the help is on show.
    pub show_help: bool,
    /// How far the help is scrolled.
    pub help_menu_scroll: usize,
    /// The configuration.
    pub config: AppConfig,
    /// The names of the signals on show, from the top.
    pub displayed_signals: Vec<String>,
    /// The place of the first signal on the screen among the displayed
    /// ones.
    pub signal_scroll_offset: usize,
    /// The markers that were saved under a name.
    pub saved_markers: Vec<Marker>,
}

/// How many leading changes of `log` lie before the time `t`.
pub open spec fn changes_before(log: LogView, t: int) -> int {
    leading(log, 0, t)
}

/// The end of the run of changes before the time `t` that starts at
/// `from`.
pub open spec fn leading(log: LogView, from: int, t: int) -> int
    decreases log.len() - from,
{
    if 0 <= from < log.len() && log[from].0 < t {
        leading(log, from + 1, t)
    } else {
        from
    }
}

/// The changes of `log` whose time lies in the window from `start` up to,
/// and without, `start + range`.
pub open spec fn in_window(log: LogView, start: u64, range: u64) -> LogView
    decreases log.len(),
{
    if log.len() == 0 {
        Seq::empty()
    } else if start <= log.last().0 < start + range {
        in_window(log.drop_last(), start, range).push(log.last())
    } else {
        in_window(log.drop_last(), start, range)
    }
}

/// What a change log shows in a window.
///
/// If changes lead the log that lie before the window, the value of the
/// last of them stands first, at the start of the window. Behind it stand
/// the changes whose time lies in the window.
pub open spec fn visible_log(log: LogView, start: u64, range: u64) -> LogView {
    let n = changes_before(log, start as int);
    if n > 0 {
        seq![(start, log[n - 1].1)] + in_window(log, start, range)
    } else {
        in_window(log, start, range)
    }
}

/// The value of a change log at the time `t`: the value of the last of
/// its leading changes at or before `t`.
pub open spec fn value_at(log: LogView, t: u64) -> Option<WaveValueView> {
    let n = changes_before(log, t + 1);
    if n > 0 {
        Some(log[n - 1].1)
    } else {
        None
    }
}

/// The place of the first change at the time `t`, at or after the place
/// `from`, that has a change before it with another value.
pub open spec fn transition_index(log: LogView, from: int, t: u64) -> Option<int>
    decreases log.len() - from,
{
    if from < 0 || from >= log.len() {
        None
    } else if from > 0 && log[from].0 == t && log[from].1 != log[from - 1].1 {
        Some(from)
    } else {
        transition_index(log, from + 1, t)
    }
}

/// How a step from one value to another is written: the names of two
/// bits, or the texts of two buses, with an arrow between them. A step
/// between a bit and a bus is written as three question marks.
pub open spec fn transition_text(before: WaveValueView, after: WaveValueView) -> Seq<char> {
    match (before, after) {
        (WaveValueView::Binary(a), WaveValueView::Binary(b)) => a.variant_name() + "->"@
            + b.variant_name(),
        (WaveValueView::Bus(a), WaveValueView::Bus(b)) => a + "->"@ + b,
        _ => "???"@,
    }
}

/// The step that a change log makes at the time `t`, if it makes one.
pub open spec fn transition_at(log: LogView, t: u64) -> Option<Seq<char>> {
    match transition_index(log, 0, t) {
        Some(i) => Some(transition_text(log[i - 1].1, log[i].1)),
        None => None,
    }
}

/// The run of changes before a time stays within the log, covers only
/// changes before that time, and stops at one that is not.
pub proof fn lemma_leading(log: LogView, from: int, t: int)
    requires
        0 <= from <= log.len(),
    ensures
        from <= leading(log, from, t) <= log.len(),
        forall|k: int| from <= k < leading(log, from, t) ==> (#[trigger] log[k]).0 < t,
        leading(log, from, t) < log.len() ==> log[leading(log, from, t)].0 >= t,
    decreases log.len() - from,
{
    if from < log.len() && log[from].0 < t {
        lemma_leading(log, from + 1, t);
    }
}

/// In a change log in the order of time, the leading changes before a
/// time are all the changes before that time: the value that the window
/// carries in is that of the last change before its start, and the value
/// at a time is that of the last change at or before it.
pub proof fn lemma_changes_before_in_order(log: LogView, t: int)
    requires
        is_monotonic(log),
    ensures
        forall|i: int|
            0 <= i < log.len() ==> ((#[trigger] log[i]).0 < t <==> i < changes_before(log, t)),
{
    lemma_leading(log, 0, t);
}

/// The carry-forward law of the window.
///
/// Take a change log in the order of time that has a change before the
/// start of a window, and whose changes at the very start of the window,
/// if it has any, end on the value that the signal had before. Then what
/// the log shows in the window begins with an entry at the start of the
/// window, and the value of that entry is the value of the log at that
/// time.
pub proof fn lemma_carry_forward(log: LogView, start: u64, range: u64)
    requires
        is_monotonic(log),
        exists|i: int| 0 <= i < log.len() && (#[trigger] log[i]).0 < start,
        forall|i: int|
            0 <= i < log.len() && (#[trigger] log[i]).0 == start && (i + 1 == log.len() || log[i
                + 1].0 > start) ==> log[i].1 == log[changes_before(log, start as int) - 1].1,
    ensures
        visible_log(log, start, range).len() > 0,
        visible_log(log, start, range)[0].0 == start,
        value_at(log, start) == Some(visible_log(log, start, range)[0].1),
{
    lemma_leading(log, 0, start as int);
    lemma_leading(log, 0, start + 1);
}

/// Whether `name` is among `names`.
pub open spec fn is_listed(names: Seq<String>, name: Seq<char>) -> bool {
    exists|i: int| 0 <= i < names.len() && (#[trigger] names[i])@ == name
}

/// Tests whether `name` is among `names`.
pub fn listed(names: &Vec<String>, name: &str) -> (b: bool)
    ensures
        b == is_listed(names@, name@),
{
    let mut i: usize = 0;
    while i < names.len()
        invariant
            i <= names.len(),
            forall|k: int| 0 <= k < i ==> (#[trigger] names@[k])@ != name@,
        decreases names.len() - i,
    {
        if same_text(names[i].as_str(), name) {
            return true;
        }
        i += 1;
    }
    false
}

/// Writes the step from `before` to `after`.
pub fn format_transition(before: &WaveValue, after: &WaveValue) -> (r: String)
    ensures
        r@ == transition_text(before@, after@),
{
    let mut out: Vec<char> = Vec::new();
    match (before, after) {
        (WaveValue::Binary(a), WaveValue::Binary(b)) => {
            push_str_chars(&mut out, a.name());
            push_str_chars(&mut out, "->");
            push_str_chars(&mut out, b.name());
        },
        (WaveValue::Bus(a), WaveValue::Bus(b)) => {
            push_str_chars(&mut out, a.as_str());
            push_str_chars(&mut out, "->");
            push_str_chars(&mut out, b.as_str());
        },
        _ => {
            push_str_chars(&mut out, "???");
        },
    }
    string_of(&out)
}

/// Tests whether two values are the same: both a bit of the same value,
/// or both a bus of the same text.
pub fn values_equal(v1: &WaveValue, v2: &WaveValue) -> (b: bool)
    ensures
        b == (v1@ == v2@),
{
    match (v1, v2) {
        (WaveValue::Binary(a), WaveValue::Binary(b)) => *a == *b,
        (WaveValue::Bus(a), WaveValue::Bus(b)) => same_text(a.as_str(), b.as_str()),
        _ => false,
    }
}

/// What a change log shows in a window.
pub fn visible_changes(log: &Vec<(u64, WaveValue)>, start: u64, range: u64) -> (r: Vec<
    (u64, WaveValue),
>)
    ensures
        r.deep_view() == visible_log(log.deep_view(), start, range),
{
    let ghost model = log.deep_view();
    let mut result: Vec<(u64, WaveValue)> = Vec::new();
    let mut n: usize = 0;
    while n < log.len() && log[n].0 < start
        invariant
            n <= log.len(),
            model == log.deep_view(),
            leading(model, 0, start as int) == leading(model, n as int, start as int),
        decreases log.len() - n,
    {
        n += 1;
    }
    if n > 0 {
        result.push((start, log[n - 1].1.clone()));
    }
    let ghost head = result.deep_view();
    let mut i: usize = 0;
    while i < log.len()
        invariant
            i <= log.len(),
            model == log.deep_view(),
            result.deep_view() == head + in_window(model.take(i as int), start, range),
        decreases log.len() - i,
    {
        let t = log[i].0;
        proof {
            let taken = model.take(i + 1);
            assert(taken.drop_last() == model.take(i as int));
        }
        if t >= start && t - start < range {
            let ghost before = result.deep_view();
            result.push((t, log[i].1.clone()));
            assert(result.deep_view() =~= before.push(model[i as int]));
        }
        i += 1;
    }
    assert(model.take(log@.len() as int) == model);
    result
}

/// The value of a change log at the time `t`.
pub fn value_at_time(log: &Vec<(u64, WaveValue)>, t: u64) -> (r: Option<WaveValue>)
    ensures
        match r {
            Some(v) => value_at(log.deep_view(), t) == Some(v@),
            None => value_at(log.deep_view(), t) is None,
        },
{
    let ghost model = log.deep_view();
    let mut n: usize = 0;
    while n < log.len() && log[n].0 <= t
        invariant
            n <= log.len(),
            model == log.deep_view(),
            leading(model, 0, t + 1) == leading(model, n as int, t + 1),
        decreases log.len() - n,
    {
        n += 1;
    }
    if n > 0 {
        Some(log[n - 1].1.clone())
    } else {
        None
    }
}

/// The step that a change log makes at the time `t`, if it makes one.
pub fn transition_at_time(log: &Vec<(u64, WaveValue)>, t: u64) -> (r: Option<String>)
    ensures
        match r {
            Some(text) => transition_at(log.deep_view(), t) == Some(text@),
            None => transition_at(log.deep_view(), t) is None,
        },
{
    let ghost model = log.deep_view();
    let mut i: usize = 0;
    while i < log.len()
        invariant
            i <= log.len(),
            model == log.deep_view(),
            transition_index(model, 0, t) == transition_index(model, i as int, t),
        decreases log.len() - i,
    {
        if log[i].0 == t && i > 0 {
            if !values_equal(&log[i - 1].1, &log[i].1) {
                return Some(format_transition(&log[i - 1].1, &log[i].1));
            }
        }
        i += 1;
    }
    None
}

impl AppState {
    /// The change log of `signal` as the contracts see it, if the signal
    /// has one.
    pub open spec fn log_of(&self, signal: Seq<char>) -> Option<LogView> {
        self.waveform_data.values.log_of(signal)
    }

    /// What `signal` shows in the window: nothing if it is not among the
    /// displayed signals or has no change log; else what its change log
    /// shows in the window.
    pub open spec fn visible_values(&self, signal: Seq<char>) -> LogView {
        if !is_listed(self.displayed_signals@, signal) {
            Seq::empty()
        } else {
            match self.log_of(signal) {
                Some(log) => visible_log(log, self.time_start, self.time_range),
                None => Seq::empty(),
            }
        }
    }

    /// What `signal` shows in the window.
    pub fn get_visible_values(&self, signal: &str) -> (r: Vec<(u64, WaveValue)>)
        ensures
            r.deep_view() == self.visible_values(signal@),
    {
        if !listed(&self.displayed_signals, signal) {
            return Vec::new();
        }
        match self.waveform_data.values.get(signal) {
            Some(log) => visible_changes(log, self.time_start, self.time_range),
            None => Vec::new(),
        }
    }

    /// The value of `signal` at the time `marker_time`: the value of its
    /// last change at or before that time. A signal without a change log,
    /// and a time before the first change, have no value.
    pub fn get_value_at_marker(&self, signal: &str, marker_time: u64) -> (r: Option<WaveValue>)
        ensures
            match self.log_of(signal@) {
                Some(log) => match r {
                    Some(v) => value_at(log, marker_time) == Some(v@),
                    None => value_at(log, marker_time) is None,
                },
                None => r is None,
            },
    {
        match self.waveform_data.values.get(signal) {
            Some(log) => value_at_time(log, marker_time),
            None => None,
        }
    }

    /// The step that `signal` makes at the time `marker_time`: there is
    /// one where a change at that time, other than the first change of
    /// all, brings another value than the change before it.
    pub fn get_transition_at_marker(&self, signal: &str, marker_time: u64) -> (r: Option<String>)
        ensures
            match self.log_of(signal@) {
                Some(log) => match r {
                    Some(text) => transition_at(log, marker_time) == Some(text@),
                    None => transition_at(log, marker_time) is None,
                },
                None => r is None,
            },
    {
        match self.waveform_data.values.get(signal) {
            Some(log) => transition_at_time(log, marker_time),
            None => None,
        }
    }

    /// The command line.
    pub fn command_mode_state(&self) -> (r: &CommandModeState)
        ensures
            *r == self.command_mode_state,
    {
        &self.command_mode_state
    }
}

impl FuzzyFinderStateAccess for AppState {
    open spec fn spec_fuzzy_finder_state(&self) -> FuzzyFinderState {
        self.fuzzy_finder_state
    }

    fn fuzzy_finder_state(&self) -> (r: &FuzzyFinderState) {
        &self.fuzzy_finder_state
    }

    fn fuzzy_finder_state_mut(&mut self) -> (r: &mut FuzzyFinderState) {
        &mut self.fuzzy_finder_state
    }
}

impl CommandModeStateAccess for AppState {
    open spec fn spec_command_state(&self) -> CommandModeState {
        self.command_mode_state
    }

    open spec fn spec_with_command_state(&self, line: CommandModeState) -> Self {
        AppState { command_mode_state: line, ..*self }
    }

    fn command_state(&self) -> (r: &CommandModeState) {
        &self.command_mode_state
    }

    fn command_state_mut(&mut self) -> (r: &mut CommandModeState) {
        &mut self.command_mode_state
    }
}

} // verus!
