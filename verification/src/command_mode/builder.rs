//! Making a command out of a name, a description and a function.

use crate::text::{chars_of, string_of, views};
use std::rc::Rc;
use super::registry::{accepts_all, answers, texts, Command, SharedCommand};
use vstd::prelude::*;

verus! {

/// Collects the parts of a command: its name, its aliases, its
/// description and the function that runs it.
#[verifier::reject_recursive_types(S)]
#[verifier::reject_recursive_types(F)]
pub struct CommandBuilder<S, F: Fn(&[&str], &mut S) -> Result<String, String>> {
    name: String,
    aliases: Vec<String>,
    description: String,
    handler: F,
    state: core::marker::PhantomData<S>,
}

/// A command made by a `CommandBuilder`.
#[verifier::reject_recursive_types(S)]
#[verifier::reject_recursive_types(F)]
pub struct BuiltCommand<S, F: Fn(&[&str], &mut S) -> Result<String, String>> {
    name: String,
    aliases: Vec<String>,
    description: String,
    handler: F,
    state: core::marker::PhantomData<S>,
}

impl<S, F: Fn(&[&str], &mut S) -> Result<String, String>> CommandBuilder<S, F> {
    /// The name of the command being built.
    pub closed spec fn spec_name(&self) -> Seq<char> {
        self.name@
    }

    /// The aliases of the command being built.
    pub closed spec fn spec_aliases(&self) -> Seq<Seq<char>> {
        views(self.aliases@)
    }

    /// The description of the command being built.
    pub closed spec fn spec_description(&self) -> Seq<char> {
        self.description@
    }

    /// The function that will run the command.
    pub closed spec fn spec_handler(&self) -> F {
        self.handler
    }

    /// Starts a command with its name, its description and the function
    /// that runs it.
    pub fn new(name: &str, description: &str, handler: F) -> (r: Self)
        ensures
            r.spec_name() == name@,
            r.spec_aliases().len() == 0,
            r.spec_description() == description@,
            r.spec_handler() == handler,
    {
        CommandBuilder {
            name: string_of(&chars_of(name)),
            aliases: Vec::new(),
            description: string_of(&chars_of(description)),
            handler,
            state: core::marker::PhantomData,
        }
    }

    /// Adds one alias.
    pub fn alias(self, alias: &str) -> (r: Self)
        ensures
            r.spec_name() == self.spec_name(),
            r.spec_aliases() == self.spec_aliases().push(alias@),
            r.spec_description() == self.spec_description(),
            r.spec_handler() == self.spec_handler(),
    {
        let mut built = self;
        built.aliases.push(string_of(&chars_of(alias)));
        built
    }

    /// Adds several aliases, in their order.
    pub fn aliases(self, aliases: &[&str]) -> (r: Self)
        ensures
            r.spec_name() == self.spec_name(),
            r.spec_aliases() == self.spec_aliases() + texts(aliases@),
            r.spec_description() == self.spec_description(),
            r.spec_handler() == self.spec_handler(),
    {
        let mut built = self;
        let mut i: usize = 0;
        while i < aliases.len()
            invariant
                i <= aliases.len(),
                built.name == self.name,
                built.description == self.description,
                built.handler == self.handler,
                views(built.aliases@) == views(self.aliases@) + texts(aliases@).take(i as int),
            decreases aliases.len() - i,
        {
            let ghost before = views(built.aliases@);
            built.aliases.push(string_of(&chars_of(aliases[i])));
            assert(views(built.aliases@) =~= before.push(aliases@[i as int]@));
            i += 1;
        }
        built
    }

    /// Finishes the command: it has the name, the aliases and the
    /// description that were collected, and a run of it gives what the
    /// function gives on the arguments and the state of the run.
    pub fn build(self) -> (r: SharedCommand<S>) where S: 'static, F: 'static
        requires
            accepts_all::<S, F>(self.spec_handler()),
        ensures
            r.spec_name() == self.spec_name(),
            r.spec_aliases() == self.spec_aliases(),
            r.spec_description() == self.spec_description(),
            forall|args: Seq<Seq<char>>, before: S, after: S, result: Result<String, String>|
                #[trigger] r.outcome(args, before, after, result) == answers(
                    self.spec_handler(),
                    args,
                    before,
                    result,
                ),
    {
        let command = BuiltCommand {
            name: self.name,
            aliases: self.aliases,
            description: self.description,
            handler: self.handler,
            state: core::marker::PhantomData,
        };
        let boxed: Box<dyn Command<S>> = Box::new(command);
        let r = Rc::new(boxed);
        r
    }
}

impl<S, F: Fn(&[&str], &mut S) -> Result<String, String>> BuiltCommand<S, F> {
    /// The function accepts every argument list and every state.
    #[verifier::type_invariant]
    spec fn total(&self) -> bool {
        accepts_all::<S, F>(self.handler)
    }
}

impl<S, F: Fn(&[&str], &mut S) -> Result<String, String>> Command<S> for BuiltCommand<S, F> {
    closed spec fn spec_name(&self) -> Seq<char> {
        self.name@
    }

    closed spec fn spec_aliases(&self) -> Seq<Seq<char>> {
        views(self.aliases@)
    }

    closed spec fn spec_description(&self) -> Seq<char> {
        self.description@
    }

    /// The function decides: the result is one that it may give on the
    /// arguments and the state before the run.
    closed spec fn outcome(
        &self,
        args: Seq<Seq<char>>,
        before: S,
        after: S,
        result: Result<String, String>,
    ) -> bool {
        answers(self.handler, args, before, result)
    }

    fn name(&self) -> (r: &str) {
        self.name.as_str()
    }

    fn aliases(&self) -> (r: Vec<&str>) {
        let mut r: Vec<&str> = Vec::new();
        let mut i: usize = 0;
        while i < self.aliases.len()
            invariant
                i <= self.aliases.len(),
                r@.len() == i,
                forall|k: int| 0 <= k < i ==> r@[k]@ == self.aliases@[k]@,
            decreases self.aliases.len() - i,
        {
            r.push(self.aliases[i].as_str());
            i += 1;
        }
        r
    }

    fn description(&self) -> (r: &str) {
        self.description.as_str()
    }

    fn execute(&self, args: &[&str], state: &mut S) -> (r: Result<String, String>) {
        proof {
            use_type_invariant(self);
        }
        (self.handler)(args, state)
    }
}

} // verus!
