//! Command mode: the command line, the commands and their registry.

pub mod builder;
pub mod parser;
pub mod registry;
pub mod state;

use crate::keys::KeyCode;
use parser::{line_outcome, CommandParser};
use registry::{bound_all, CommandRegistry, SharedCommand};
use state::CommandModeState;
use vstd::prelude::*;

verus! {

/// Access to the command line that an application state holds.
///
/// `spec_with_command_state` is the state with another command line in
/// the place of its own; a mutable borrow of the command line changes the
/// state in no other way.
pub trait CommandModeStateAccess: Sized {
    /// The command line that the state holds.
    open spec fn spec_command_state(&self) -> CommandModeState {
        arbitrary()
    }

    /// The state with `line` as its command line.
    open spec fn spec_with_command_state(&self, line: CommandModeState) -> Self {
        *self
    }

    fn command_state(&self) -> (r: &CommandModeState)
        ensures
            *r == self.spec_command_state(),
    ;

    fn command_state_mut(&mut self) -> (r: &mut CommandModeState)
        ensures
            *r == old(self).spec_command_state(),
            *final(self) == old(self).spec_with_command_state(*final(r)),
            final(self).spec_command_state() == *final(r),
    ;
}

/// What a key does to the command line: the arrow keys, `Home` and `End`
/// move the cursor or walk the history, `Backspace` and `Delete` remove a
/// character, a character key types it, and any other key does nothing.
pub open spec fn key_applied(before: CommandModeState, key: KeyCode, after: CommandModeState) -> bool {
    match key {
        KeyCode::Left => before.cursor_moved(
            if before.cursor_position > 0 {
                before.cursor_position - 1
            } else {
                0
            },
            after,
        ),
        KeyCode::Right => before.cursor_moved(
            if before.cursor_position < before.input_buffer@.len() {
                before.cursor_position + 1
            } else {
                before.cursor_position as int
            },
            after,
        ),
        KeyCode::Home => before.cursor_moved(0, after),
        KeyCode::End => before.cursor_moved(before.input_buffer@.len() as int, after),
        KeyCode::Backspace => before.backspaced(after),
        KeyCode::Delete => before.deleted(after),
        KeyCode::Char(c) => before.typed(c, after),
        KeyCode::Up => before.stepped_back(after),
        KeyCode::Down => before.stepped_forward(after),
        _ => after == before,
    }
}

/// What the command line shows once a command has run: the message that
/// the command gave, marked as an error or not, and an empty line with the
/// cursor at its start. The history stays.
pub open spec fn shows_result(
    before: CommandModeState,
    result: Result<String, String>,
    after: CommandModeState,
) -> bool {
    &&& after.input_buffer@.len() == 0
    &&& after.cursor_position == 0
    &&& after.history == before.history
    &&& after.history_index == before.history_index
    &&& match result {
        Ok(message) => after.result_message == Some(message) && !after.result_is_error,
        Err(message) => after.result_message == Some(message) && after.result_is_error,
    }
}

/// What running the command line of a state does.
///
/// With an empty line nothing happens. Else the line is recorded in the
/// history, it is run as a command on the state, and the command line of
/// the state then shows what the command gave: it is empty, the cursor is
/// at its start, and the message of the command is on show.
pub open spec fn line_run<S: CommandModeStateAccess>(
    registry: CommandRegistry<S>,
    before: S,
    after: S,
    ran: bool,
) -> bool {
    let line = before.spec_command_state();
    if line.input_buffer@.len() == 0 {
        !ran && after == before
    } else {
        ran && exists|recorded: CommandModeState, reached: S, result: Result<String, String>|
            {
                &&& line.recorded(recorded)
                &&& #[trigger] line_outcome(
                    registry,
                    line.input_buffer@,
                    before.spec_with_command_state(recorded),
                    reached,
                    result,
                )
                &&& exists|shown: CommandModeState|
                    after == reached.spec_with_command_state(shown) && after.spec_command_state()
                        == shown && #[trigger] shows_result(
                        reached.spec_command_state(),
                        result,
                        shown,
                    )
            }
    }
}

/// The command line of an application: a parser with its commands.
#[verifier::reject_recursive_types(S)]
pub struct CommandModeWidget<S> {
    is_active: bool,
    command_parser: CommandParser<S>,
}

impl<S> CommandModeWidget<S> {
    /// Whether the widget is marked as active.
    pub closed spec fn spec_is_active(&self) -> bool {
        self.is_active
    }

    /// The parser that runs the command lines.
    pub closed spec fn spec_parser(&self) -> CommandParser<S> {
        self.command_parser
    }

    /// A widget that knows no command.
    pub fn new() -> (r: Self)
        ensures
            !r.spec_is_active(),
            r.spec_parser().spec_registry().names().len() == 0,
    {
        CommandModeWidget { is_active: false, command_parser: CommandParser::new() }
    }

    /// A widget that runs its command lines with `parser`.
    pub fn with_parser(parser: CommandParser<S>) -> (r: Self)
        ensures
            !r.spec_is_active(),
            r.spec_parser() == parser,
    {
        CommandModeWidget { is_active: false, command_parser: parser }
    }

    /// Whether the widget is marked as active.
    pub fn is_active(&self) -> (r: bool)
        ensures
            r == self.spec_is_active(),
    {
        self.is_active
    }

    /// Lets `key` act on the command line of `app_state`.
    pub fn handle_input(&mut self, key: KeyCode, app_state: &mut S) where
        S: CommandModeStateAccess,

        requires
            old(app_state).spec_command_state().wf(),
        ensures
            *final(self) == *old(self),
            *final(app_state) == old(app_state).spec_with_command_state(
                final(app_state).spec_command_state(),
            ),
            key_applied(
                old(app_state).spec_command_state(),
                key,
                final(app_state).spec_command_state(),
            ),
            final(app_state).spec_command_state().wf(),
    {
        let line = app_state.command_state_mut();
        match key {
            KeyCode::Left => line.move_cursor_left(),
            KeyCode::Right => line.move_cursor_right(),
            KeyCode::Home => line.move_cursor_start(),
            KeyCode::End => line.move_cursor_end(),
            KeyCode::Backspace => line.backspace(),
            KeyCode::Delete => line.delete(),
            KeyCode::Char(c) => line.insert(c),
            KeyCode::Up => line.previous_history(),
            KeyCode::Down => line.next_history(),
            _ => {},
        }
    }

    /// Runs the command line of `app_state`, unless it is empty, and tells
    /// whether it did.
    pub fn execute(&mut self, app_state: &mut S) -> (ran: bool) where S: CommandModeStateAccess
        ensures
            *final(self) == *old(self),
            line_run(old(self).spec_parser().spec_registry(), *old(app_state), *final(app_state), ran),
            ran ==> final(app_state).spec_command_state().input_buffer@.len() == 0,
            ran ==> final(app_state).spec_command_state().cursor_position == 0,
            ran ==> final(app_state).spec_command_state().result_message is Some,
    {
        let command = app_state.command_state().input_buffer.clone();
        if command.as_str().is_empty() {
            return false;
        }
        app_state.command_state_mut().add_to_history();
        let result = self.command_parser.execute(command.as_str(), app_state);
        let ghost reached = *app_state;
        let line_state = app_state.command_state_mut();
        match result {
            Ok(message) => {
                line_state.result_message = Some(message);
                line_state.result_is_error = false;
            },
            Err(message) => {
                line_state.result_message = Some(message);
                line_state.result_is_error = true;
            },
        }
        line_state.input_buffer = String::new();
        line_state.cursor_position = 0;
        proof {
            let shown = app_state.spec_command_state();
            assert(shows_result(reached.spec_command_state(), result, shown));
        }
        true
    }

    /// Whether `after` is this widget with `command` registered under its
    /// name and under each of its aliases: a name that was taken goes
    /// over to `command`, a new name comes last.
    pub open spec fn registered(&self, command: SharedCommand<S>, after: Self) -> bool {
        &&& after.spec_is_active() == self.spec_is_active()
        &&& (
            after.spec_parser().spec_registry().names(),
            after.spec_parser().spec_registry().commands(),
        ) == bound_all(
            self.spec_parser().spec_registry().names(),
            self.spec_parser().spec_registry().commands(),
            seq![command.spec_name()] + command.spec_aliases(),
            command,
        )
    }

    /// Registers `command` under its name and its aliases.
    pub fn register_command(&mut self, command: SharedCommand<S>)
        ensures
            old(self).registered(command, *final(self)),
    {
        self.command_parser.registry_mut().register(command);
    }

    /// The parser that runs the command lines.
    pub fn parser(&self) -> (r: &CommandParser<S>)
        ensures
            *r == self.spec_parser(),
    {
        &self.command_parser
    }

    /// The parser, for commands to be added.
    pub fn parser_mut(&mut self) -> (r: &mut CommandParser<S>)
        ensures
            *r == old(self).spec_parser(),
            final(self).spec_parser() == *final(r),
            final(self).spec_is_active() == old(self).spec_is_active(),
    {
        &mut self.command_parser
    }
}

/// What the command line draws: the text being typed while it is active,
/// else the outcome of the last command, if there is one.
pub struct CommandModeRender<'a> {
    pub is_active: bool,
    pub input_buffer: &'a str,
    pub result_message: Option<&'a str>,
    pub result_is_error: bool,
}

} // verus!
