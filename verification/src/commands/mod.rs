//! The commands of the viewer.

pub mod find_signal;
pub mod goto;
pub mod help;
pub mod marker;
pub mod quit;
pub mod zoom;
pub mod zoomfull;

use crate::command_mode::CommandModeWidget;
use crate::command_mode::registry::{shares, SharedCommand};
use crate::state::AppState;
use vstd::prelude::*;

verus! {

/// Something that commands can be registered with.
///
/// An implementation says in `with_command` what registering a command
/// does to it.
pub trait CommandRegistry<S> {
    /// Whether `after` may be what `self` becomes when `command` is
    /// registered with it.
    open spec fn with_command(&self, command: SharedCommand<S>, after: &Self) -> bool {
        true
    }

    fn register_command(&mut self, command: SharedCommand<S>)
        ensures
            old(self).with_command(command, final(self)),
    ;
}

impl<S> CommandRegistry<S> for CommandModeWidget<S> {
    open spec fn with_command(&self, command: SharedCommand<S>, after: &Self) -> bool {
        self.registered(command, *after)
    }

    fn register_command(&mut self, command: SharedCommand<S>) {
        CommandModeWidget::register_command(self, command);
    }
}

/// Whether `commands` are the commands of the viewer, in the order in
/// which they are registered: `zoom`, `zoomfull`, `goto`, `marker`, `help`
/// and `quit`.
pub open spec fn viewer_commands(commands: Seq<SharedCommand<AppState>>) -> bool {
    &&& commands.len() == 6
    &&& shares(commands[0], zoom::ZoomCommand)
    &&& shares(commands[1], zoomfull::ZoomFullCommand)
    &&& shares(commands[2], goto::GotoCommand)
    &&& shares(commands[3], marker::MarkerCommand)
    &&& shares(commands[4], help::HelpCommand)
    &&& shares(commands[5], quit::QuitCommand)
}

/// Whether `steps` are what a registry is before the first of `commands`
/// is registered with it, between one command and the next, and after
/// the last.
pub open spec fn registered_in_turn<S, R: CommandRegistry<S>>(
    steps: Seq<R>,
    commands: Seq<SharedCommand<S>>,
) -> bool {
    &&& steps.len() == commands.len() + 1
    &&& forall|i: int|
        0 <= i < commands.len() ==> (#[trigger] steps[i]).with_command(commands[i], &steps[i + 1])
}

/// Registers the commands of the viewer: `zoom`, `zoomfull`, `goto`,
/// `marker`, `help` and `quit`, in this order.
pub fn register_all_commands<R: CommandRegistry<AppState>>(registry: &mut R)
    ensures
        exists|steps: Seq<R>, commands: Seq<SharedCommand<AppState>>|
            {
                &&& viewer_commands(commands)
                &&& #[trigger] registered_in_turn(steps, commands)
                &&& steps.first() == *old(registry)
                &&& steps.last() == *final(registry)
            },
{
    let ghost s0 = *registry;
    let c0 = zoom::create();
    let ghost g0 = c0;
    registry.register_command(c0);
    let ghost s1 = *registry;
    let c1 = zoomfull::create();
    let ghost g1 = c1;
    registry.register_command(c1);
    let ghost s2 = *registry;
    let c2 = goto::create();
    let ghost g2 = c2;
    registry.register_command(c2);
    let ghost s3 = *registry;
    let c3 = marker::create();
    let ghost g3 = c3;
    registry.register_command(c3);
    let ghost s4 = *registry;
    let c4 = help::create();
    let ghost g4 = c4;
    registry.register_command(c4);
    let ghost s5 = *registry;
    let c5 = quit::create();
    let ghost g5 = c5;
    registry.register_command(c5);
    let ghost s6 = *registry;
    proof {
        let steps = seq![s0, s1, s2, s3, s4, s5, s6];
        let commands = seq![g0, g1, g2, g3, g4, g5];
        assert(viewer_commands(commands));
        assert(registered_in_turn(steps, commands));
    }
}

} // verus!
