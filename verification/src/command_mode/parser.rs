//! Splitting a command line into a command name and its arguments.

use super::registry::{texts, Command, CommandRegistry};
use crate::text::{chars_of, fails_with, push_str_chars, split_words, string_of, views, words};
use vstd::prelude::*;

verus! {

/// Runs command lines against a registry of commands.
#[verifier::reject_recursive_types(S)]
pub struct CommandParser<S> {
    registry: CommandRegistry<S>,
}

/// What a command line does: without a word it is refused, with a first
/// word that names no command it is refused too, and the state stays as it
/// is; else the command of that name is run on the words that follow.
pub open spec fn line_outcome<S>(
    registry: CommandRegistry<S>,
    line: Seq<char>,
    before: S,
    after: S,
    result: Result<String, String>,
) -> bool {
    let w = words(line);
    if w.len() == 0 {
        &&& after == before
        &&& fails_with(result, "No command provided"@)
    } else {
        match registry.find(w[0]) {
            None => {
                &&& after == before
                &&& fails_with(result, "Unknown command: "@ + w[0])
            },
            Some(command) => command.outcome(w.skip(1), before, after, result),
        }
    }
}

impl<S> CommandParser<S> {
    /// The registry that command names are looked up in.
    pub closed spec fn spec_registry(&self) -> CommandRegistry<S> {
        self.registry
    }

    /// A parser that knows no command.
    pub fn new() -> (r: Self)
        ensures
            r.spec_registry().names().len() == 0,
    {
        CommandParser { registry: CommandRegistry::new() }
    }

    /// A parser that knows the commands of `registry`.
    pub fn with_registry(registry: CommandRegistry<S>) -> (r: Self)
        ensures
            r.spec_registry() == registry,
    {
        CommandParser { registry }
    }

    /// Runs the command line `input` on `state`.
    pub fn execute(&self, input: &str, state: &mut S) -> (r: Result<String, String>)
        ensures
            line_outcome(self.spec_registry(), input@, *old(state), *final(state), r),
    {
        let parts = split_words(input);
        if parts.len() == 0 {
            return Err(string_of(&chars_of("No command provided")));
        }
        match self.registry.get(parts[0].as_str()) {
            Some(command) => {
                let mut args: Vec<&str> = Vec::new();
                let mut i: usize = 1;
                while i < parts.len()
                    invariant
                        1 <= i <= parts.len(),
                        args@.len() == i - 1,
                        forall|k: int| 0 <= k < i - 1 ==> args@[k]@ == parts@[k + 1]@,
                    decreases parts.len() - i,
                {
                    args.push(parts[i].as_str());
                    i += 1;
                }
                assert(texts(args@) =~= views(parts@).skip(1));
                command.execute(args.as_slice(), state)
            },
            None => {
                let mut message = chars_of("Unknown command: ");
                push_str_chars(&mut message, parts[0].as_str());
                Err(string_of(&message))
            },
        }
    }

    /// The name and description of every known command.
    pub fn list_commands(&self) -> (r: Vec<(&str, &str)>)
        ensures
            super::registry::pair_texts(r@) == super::registry::listing(
                self.spec_registry().commands(),
            ),
    {
        self.registry.list_commands()
    }

    /// The registry, for commands to be added.
    pub fn registry_mut(&mut self) -> (r: &mut CommandRegistry<S>)
        ensures
            *r == old(self).spec_registry(),
            final(self).spec_registry() == *final(r),
    {
        &mut self.registry
    }
}

} // verus!
