//! The text being typed in command mode, its cursor and its history.

use crate::text::{chars_of, string_of};
use vstd::prelude::*;

verus! {

/// How many seconds the outcome of a command stays on screen.
pub const COMMAND_RESULT_HIDE_THRESHOLD_SECONDS: u64 = 3;

/// The state of the command line.
///
/// The cursor counts characters from the start of the text. The history
/// holds the commands that were run, the oldest first; while the user walks
/// through it, `history_index` is the place of the entry shown.
pub struct CommandModeState {
    pub input_buffer: String,
    pub cursor_position: usize,
    pub history: Vec<String>,
    pub history_index: Option<usize>,
    pub result_message: Option<String>,
    pub result_is_error: bool,
}

impl Default for CommandModeState {
    fn default() -> (r: Self)
        ensures
            r.is_blank(),
    {
        CommandModeState::new()
    }
}

impl CommandModeState {
    /// The cursor lies within the text, and the place in the history, if
    /// there is one, is the place of an entry.
    pub open spec fn wf(&self) -> bool {
        &&& self.cursor_position <= self.input_buffer@.len()
        &&& self.history_index matches Some(i) ==> i < self.history@.len()
    }

    /// Nothing typed, nothing run, nothing shown.
    pub open spec fn is_blank(&self) -> bool {
        &&& self.input_buffer@.len() == 0
        &&& self.cursor_position == 0
        &&& self.history@.len() == 0
        &&& self.history_index is None
        &&& self.result_message is None
        &&& !self.result_is_error
    }

    /// Whether `after` has the history, the place in it and the outcome on
    /// show that `self` has.
    pub open spec fn same_record(&self, after: Self) -> bool {
        &&& after.history == self.history
        &&& after.history_index == self.history_index
        &&& after.result_message == self.result_message
        &&& after.result_is_error == self.result_is_error
    }

    /// Whether `after` has the text and the cursor that `self` has.
    pub open spec fn same_line(&self, after: Self) -> bool {
        &&& after.input_buffer == self.input_buffer
        &&& after.cursor_position == self.cursor_position
    }

    /// Whether `after` shows the entry of the history of `self` at
    /// `index`, with the cursor behind it.
    pub open spec fn shows_entry(&self, index: int, after: Self) -> bool {
        &&& after.history_index == Some(index as usize)
        &&& after.input_buffer == self.history@[index]
        &&& after.cursor_position == after.input_buffer@.len()
        &&& after.history == self.history
        &&& after.result_message == self.result_message
        &&& after.result_is_error == self.result_is_error
    }

    /// `after` is `self` with `c` put in at the cursor and the cursor
    /// moved behind it.
    pub open spec fn typed(&self, c: char, after: Self) -> bool {
        &&& after.input_buffer@ == self.input_buffer@.insert(self.cursor_position as int, c)
        &&& after.cursor_position == self.cursor_position + 1
        &&& self.same_record(after)
    }

    /// `after` is `self` without the character at the cursor, if there is
    /// one.
    pub open spec fn deleted(&self, after: Self) -> bool {
        &&& if self.cursor_position < self.input_buffer@.len() {
            after.input_buffer@ == self.input_buffer@.remove(self.cursor_position as int)
        } else {
            after.input_buffer == self.input_buffer
        }
        &&& after.cursor_position == self.cursor_position
        &&& self.same_record(after)
    }

    /// `after` is `self` without the character before the cursor, if
    /// there is one, the cursor being moved back onto its place.
    pub open spec fn backspaced(&self, after: Self) -> bool {
        &&& if self.cursor_position > 0 {
            &&& after.cursor_position == self.cursor_position - 1
            &&& after.input_buffer@ == self.input_buffer@.remove(self.cursor_position - 1)
        } else {
            self.same_line(after)
        }
        &&& self.same_record(after)
    }

    /// `after` is `self` with the cursor at `position`.
    pub open spec fn cursor_moved(&self, position: int, after: Self) -> bool {
        &&& after.cursor_position == position
        &&& after.input_buffer == self.input_buffer
        &&& self.same_record(after)
    }

    /// `after` is `self` one step further back in the history: at the
    /// newest entry on the first step, unchanged at the oldest entry.
    pub open spec fn stepped_back(&self, after: Self) -> bool {
        match self.history_index {
            Some(i) => if i > 0 {
                self.shows_entry(i - 1, after)
            } else {
                after == *self
            },
            None => if self.history@.len() > 0 {
                self.shows_entry(self.history@.len() - 1, after)
            } else {
                after == *self
            },
        }
    }

    /// `after` is `self` one step further on in the history: with an
    /// empty line and out of the walk behind the newest entry, at the
    /// oldest entry from outside the walk.
    pub open spec fn stepped_forward(&self, after: Self) -> bool {
        match self.history_index {
            Some(i) => if i + 1 < self.history@.len() {
                self.shows_entry(i + 1, after)
            } else {
                &&& after.history_index is None
                &&& after.input_buffer@.len() == 0
                &&& after.cursor_position == 0
                &&& after.history == self.history
                &&& after.result_message == self.result_message
                &&& after.result_is_error == self.result_is_error
            },
            None => if self.history@.len() > 0 {
                self.shows_entry(0, after)
            } else {
                after == *self
            },
        }
    }

    /// `after` is `self` with its text as the newest entry of the
    /// history and out of the walk, or `self` itself if the text is empty.
    pub open spec fn recorded(&self, after: Self) -> bool {
        &&& self.same_line(after)
        &&& after.result_message == self.result_message
        &&& after.result_is_error == self.result_is_error
        &&& if self.input_buffer@.len() > 0 {
            after.history@ == self.history@.push(self.input_buffer) && after.history_index is None
        } else {
            after.history == self.history && after.history_index == self.history_index
        }
    }

    /// Tests whether the cursor lies within the text and the place in the
    /// history is the place of an entry.
    pub fn is_well_formed(&self) -> (b: bool)
        ensures
            b == self.wf(),
    {
        let in_text = self.cursor_position <= self.input_buffer.as_str().unicode_len();
        let in_history = match self.history_index {
            Some(i) => i < self.history.len(),
            None => true,
        };
        in_text && in_history
    }

    /// An empty command line.
    pub fn new() -> (r: Self)
        ensures
            r.is_blank(),
            r.wf(),
    {
        CommandModeState {
            input_buffer: String::new(),
            cursor_position: 0,
            history: Vec::new(),
            history_index: None,
            result_message: None,
            result_is_error: false,
        }
    }

    /// Puts `c` into the text at the cursor and moves the cursor behind it.
    pub fn insert(&mut self, c: char)
        requires
            old(self).wf(),
        ensures
            old(self).typed(c, *final(self)),
            final(self).wf(),
    {
        let mut text = chars_of(self.input_buffer.as_str());
        text.insert(self.cursor_position, c);
        // The cursor stays within the grown text, whose length is a number
        // that the machine can hold.
        let grown = text.len();
        assert(self.cursor_position < grown);
        self.input_buffer = string_of(&text);
        self.cursor_position = self.cursor_position + 1;
    }

    /// Removes the character at the cursor, if there is one.
    pub fn delete(&mut self)
        ensures
            old(self).deleted(*final(self)),
            old(self).wf() ==> final(self).wf(),
    {
        let mut text = chars_of(self.input_buffer.as_str());
        if self.cursor_position < text.len() {
            text.remove(self.cursor_position);
            self.input_buffer = string_of(&text);
        }
    }

    /// Removes the character before the cursor, if there is one, and moves
    /// the cursor back onto its place.
    pub fn backspace(&mut self)
        requires
            old(self).wf(),
        ensures
            old(self).backspaced(*final(self)),
            final(self).wf(),
    {
        if self.cursor_position > 0 {
            let mut text = chars_of(self.input_buffer.as_str());
            self.cursor_position = self.cursor_position - 1;
            text.remove(self.cursor_position);
            self.input_buffer = string_of(&text);
        }
    }

    /// Moves the cursor one character to the left, unless it is at the
    /// start.
    pub fn move_cursor_left(&mut self)
        ensures
            old(self).cursor_moved(
                if old(self).cursor_position > 0 {
                    old(self).cursor_position - 1
                } else {
                    0
                },
                *final(self),
            ),
            old(self).wf() ==> final(self).wf(),
    {
        if self.cursor_position > 0 {
            self.cursor_position = self.cursor_position - 1;
        }
    }

    /// Moves the cursor one character to the right, unless it is at or
    /// past the end.
    pub fn move_cursor_right(&mut self)
        ensures
            old(self).cursor_moved(
                if old(self).cursor_position < old(self).input_buffer@.len() {
                    old(self).cursor_position + 1
                } else {
                    old(self).cursor_position as int
                },
                *final(self),
            ),
            old(self).wf() ==> final(self).wf(),
    {
        let len = self.input_buffer.as_str().unicode_len();
        if self.cursor_position < len {
            self.cursor_position = self.cursor_position + 1;
        }
    }

    /// Moves the cursor behind the last character.
    pub fn move_cursor_end(&mut self)
        ensures
            old(self).cursor_moved(old(self).input_buffer@.len() as int, *final(self)),
            old(self).wf() ==> final(self).wf(),
    {
        self.cursor_position = self.input_buffer.as_str().unicode_len();
    }

    /// Moves the cursor before the first character.
    pub fn move_cursor_start(&mut self)
        ensures
            old(self).cursor_moved(0, *final(self)),
            old(self).wf() ==> final(self).wf(),
    {
        self.cursor_position = 0;
    }

    /// Empties the command line and takes the outcome off the screen. The
    /// history stays.
    pub fn clear(&mut self)
        ensures
            final(self).input_buffer@.len() == 0,
            final(self).cursor_position == 0,
            final(self).history_index is None,
            final(self).result_message is None,
            !final(self).result_is_error,
            final(self).history == old(self).history,
            final(self).wf(),
    {
        self.input_buffer = String::new();
        self.cursor_position = 0;
        self.history_index = None;
        self.result_message = None;
        self.result_is_error = false;
    }

    /// Records the text as the newest entry of the history, unless it is
    /// empty, and leaves the history walk.
    pub fn add_to_history(&mut self)
        ensures
            old(self).recorded(*final(self)),
            old(self).wf() ==> final(self).wf(),
    {
        if !self.input_buffer.as_str().is_empty() {
            self.history.push(self.input_buffer.clone());
            self.history_index = None;
        }
    }

    /// Shows the entry of the history at `index`, with the cursor behind
    /// it.
    fn show_entry(&mut self, index: usize)
        requires
            index < old(self).history@.len(),
        ensures
            old(self).shows_entry(index as int, *final(self)),
            final(self).wf(),
    {
        self.history_index = Some(index);
        self.input_buffer = self.history[index].clone();
        self.cursor_position = self.input_buffer.as_str().unicode_len();
    }

    /// Steps to the next older entry of the history and shows it. The
    /// first step shows the newest entry; at the oldest entry nothing
    /// changes.
    pub fn previous_history(&mut self)
        requires
            old(self).wf(),
        ensures
            old(self).stepped_back(*final(self)),
            final(self).wf(),
    {
        match self.history_index {
            Some(index) => {
                if index > 0 {
                    self.show_entry(index - 1);
                }
            },
            None => {
                if self.history.len() > 0 {
                    let newest = self.history.len() - 1;
                    self.show_entry(newest);
                }
            },
        }
    }

    /// Steps to the next newer entry of the history and shows it. A step
    /// past the newest entry empties the command line and leaves the walk;
    /// a step from outside the walk shows the oldest entry.
    pub fn next_history(&mut self)
        requires
            old(self).wf(),
        ensures
            old(self).stepped_forward(*final(self)),
            final(self).wf(),
    {
        match self.history_index {
            Some(index) => {
                if index < self.history.len() - 1 {
                    self.show_entry(index + 1);
                } else {
                    self.history_index = None;
                    self.input_buffer = String::new();
                    self.cursor_position = 0;
                }
            },
            None => {
                if self.history.len() > 0 {
                    self.show_entry(0);
                }
            },
        }
    }

    /// Takes the outcome of the last command off the screen once it has
    /// been shown for `elapsed_seconds`, if that is long enough.
    pub fn expire_result(&mut self, elapsed_seconds: u64)
        ensures
            old(self).same_line(*final(self)),
            final(self).history == old(self).history,
            final(self).history_index == old(self).history_index,
            final(self).result_is_error == old(self).result_is_error,
            final(self).result_message == if elapsed_seconds
                >= COMMAND_RESULT_HIDE_THRESHOLD_SECONDS {
                None
            } else {
                old(self).result_message
            },
    {
        if elapsed_seconds >= COMMAND_RESULT_HIDE_THRESHOLD_SECONDS {
            self.result_message = None;
        }
    }
}

} // verus!
