//! Commands and the registry that finds them by name.

use crate::text::{chars_of, lemma_position, position, same_text, string_of};
use std::rc::Rc;
use vstd::prelude::*;

verus! {

/// The character sequences of a list of string slices.
pub open spec fn texts(items: Seq<&str>) -> Seq<Seq<char>> {
    Seq::new(items.len(), |i: int| items[i]@)
}

/// A command that can be run from the command line on a state of type `S`.
///
/// An implementation says in `outcome` how the state after a run and the
/// result relate to the arguments and the state before it.
pub trait Command<S> {
    /// The name under which the command is registered.
    open spec fn spec_name(&self) -> Seq<char> {
        arbitrary()
    }

    /// The other names under which the command is registered.
    open spec fn spec_aliases(&self) -> Seq<Seq<char>> {
        arbitrary()
    }

    /// One line that says what the command does.
    open spec fn spec_description(&self) -> Seq<char> {
        arbitrary()
    }

    /// Whether running the command on `args` and `before` may leave
    /// `after` and give `result`.
    open spec fn outcome(
        &self,
        args: Seq<Seq<char>>,
        before: S,
        after: S,
        result: Result<String, String>,
    ) -> bool {
        true
    }

    fn name(&self) -> (r: &str)
        ensures
            r@ == self.spec_name(),
    ;

    fn aliases(&self) -> (r: Vec<&str>)
        ensures
            texts(r@) == self.spec_aliases(),
    ;

    fn description(&self) -> (r: &str)
        ensures
            r@ == self.spec_description(),
    ;

    fn execute(&self, args: &[&str], state: &mut S) -> (r: Result<String, String>)
        ensures
            self.outcome(texts(args@), *old(state), *final(state), r),
    ;
}

/// A shared command.
pub type SharedCommand<S> = Rc<Box<dyn Command<S>>>;

/// Whether `shared` is `command` behind a shared pointer: it has the name,
/// the aliases and the description of `command`, and a run of it leaves
/// what a run of `command` leaves.
pub open spec fn shares<S, C: Command<S>>(shared: SharedCommand<S>, command: C) -> bool {
    &&& shared.spec_name() == command.spec_name()
    &&& shared.spec_aliases() == command.spec_aliases()
    &&& shared.spec_description() == command.spec_description()
    &&& forall|args: Seq<Seq<char>>, before: S, after: S, result: Result<String, String>|
        #[trigger] shared.outcome(args, before, after, result) == command.outcome(
            args,
            before,
            after,
            result,
        )
}

/// Whether `handler` may be called on every argument list and every
/// state.
pub open spec fn accepts_all<S, F: Fn(&[&str], &mut S) -> Result<String, String>>(
    handler: F,
) -> bool {
    forall|args: &[&str], state: &mut S| call_requires(handler, (args, state))
}

/// Whether `handler`, called on the arguments `args` and a state that is
/// `before`, may give `result`.
pub open spec fn answers<S, F: Fn(&[&str], &mut S) -> Result<String, String>>(
    handler: F,
    args: Seq<Seq<char>>,
    before: S,
    result: Result<String, String>,
) -> bool {
    exists|slices: &[&str], state: &mut S|
        texts(slices@) == args && *state == before && #[trigger] call_ensures(
            handler,
            (slices, state),
            result,
        )
}

/// The commands of a registry, each under one of its names.
#[verifier::reject_recursive_types(S)]
pub struct CommandRegistry<S> {
    entries: Vec<(String, SharedCommand<S>)>,
}

/// The entries `names`, `commands` after `command` is put under `key`: in
/// the place of the entry with that key, if there is one, else at the end.
pub open spec fn bound<S>(
    names: Seq<Seq<char>>,
    commands: Seq<SharedCommand<S>>,
    key: Seq<char>,
    command: SharedCommand<S>,
) -> (Seq<Seq<char>>, Seq<SharedCommand<S>>) {
    match position(names, key) {
        Some(i) => (names, commands.update(i, command)),
        None => (names.push(key), commands.push(command)),
    }
}

/// The entries after `command` is put under each of `keys` in turn.
pub open spec fn bound_all<S>(
    names: Seq<Seq<char>>,
    commands: Seq<SharedCommand<S>>,
    keys: Seq<Seq<char>>,
    command: SharedCommand<S>,
) -> (Seq<Seq<char>>, Seq<SharedCommand<S>>)
    decreases keys.len(),
{
    if keys.len() == 0 {
        (names, commands)
    } else {
        let (n, c) = bound_all(names, commands, keys.drop_last(), command);
        bound(n, c, keys.last(), command)
    }
}

/// Putting a command under a key brings no name in twice, and leaves as
/// many commands as names.
pub proof fn lemma_bound_unique<S>(
    names: Seq<Seq<char>>,
    commands: Seq<SharedCommand<S>>,
    key: Seq<char>,
    command: SharedCommand<S>,
)
    requires
        names.len() == commands.len(),
    ensures
        bound(names, commands, key, command).0.len() == bound(names, commands, key, command).1.len(),
        names.no_duplicates() ==> bound(names, commands, key, command).0.no_duplicates(),
{
    lemma_position(names, key);
}

/// Putting a command under several keys brings no name in twice, and
/// leaves as many commands as names.
pub proof fn lemma_bound_all_unique<S>(
    names: Seq<Seq<char>>,
    commands: Seq<SharedCommand<S>>,
    keys: Seq<Seq<char>>,
    command: SharedCommand<S>,
)
    requires
        names.len() == commands.len(),
    ensures
        bound_all(names, commands, keys, command).0.len() == bound_all(
            names,
            commands,
            keys,
            command,
        ).1.len(),
        names.no_duplicates() ==> bound_all(names, commands, keys, command).0.no_duplicates(),
    decreases keys.len(),
{
    if keys.len() > 0 {
        lemma_bound_all_unique(names, commands, keys.drop_last(), command);
        let (n, c) = bound_all(names, commands, keys.drop_last(), command);
        lemma_bound_unique(n, c, keys.last(), command);
    }
}

/// Whether `command` is what stands under `key` among the entries.
pub open spec fn finds<S>(
    names: Seq<Seq<char>>,
    commands: Seq<SharedCommand<S>>,
    key: Seq<char>,
    command: SharedCommand<S>,
) -> bool {
    match position(names, key) {
        Some(i) => commands[i] == command,
        None => false,
    }
}

/// After a command is put under a key, the key finds it, and so does
/// every other key that found it before.
pub proof fn lemma_bound_finds<S>(
    names: Seq<Seq<char>>,
    commands: Seq<SharedCommand<S>>,
    key: Seq<char>,
    command: SharedCommand<S>,
    other: Seq<char>,
)
    requires
        names.len() == commands.len(),
        other == key || finds(names, commands, other, command),
    ensures
        finds(bound(names, commands, key, command).0, bound(names, commands, key, command).1, other, command),
{
    lemma_position(names, key);
    lemma_position(names, other);
    let (n, c) = bound(names, commands, key, command);
    if position(names, key) is None {
        assert(n.drop_last() =~= names);
    }
}

/// After a command is put under several keys, each of them finds it.
pub proof fn lemma_bound_all_finds<S>(
    names: Seq<Seq<char>>,
    commands: Seq<SharedCommand<S>>,
    keys: Seq<Seq<char>>,
    command: SharedCommand<S>,
    k: int,
)
    requires
        names.len() == commands.len(),
        0 <= k < keys.len(),
    ensures
        finds(
            bound_all(names, commands, keys, command).0,
            bound_all(names, commands, keys, command).1,
            keys[k],
            command,
        ),
    decreases keys.len(),
{
    let front = keys.drop_last();
    let (n, c) = bound_all(names, commands, front, command);
    lemma_bound_all_unique(names, commands, front, command);
    if k < keys.len() - 1 {
        lemma_bound_all_finds(names, commands, front, command, k);
    }
    lemma_bound_finds(n, c, keys.last(), command, keys[k]);
}

/// The name and description of each command of `commands`, a command
/// with the name of an earlier one being left out.
pub open spec fn listing<S>(commands: Seq<SharedCommand<S>>) -> Seq<(Seq<char>, Seq<char>)>
    decreases commands.len(),
{
    if commands.len() == 0 {
        Seq::empty()
    } else {
        let front = listing(commands.drop_last());
        let last = commands.last();
        if exists|k: int| 0 <= k < front.len() && (#[trigger] front[k]).0 == last.spec_name() {
            front
        } else {
            front.push((last.spec_name(), last.spec_description()))
        }
    }
}

/// The character sequences of a list of pairs of string slices.
pub open spec fn pair_texts(items: Seq<(&str, &str)>) -> Seq<(Seq<char>, Seq<char>)> {
    Seq::new(items.len(), |i: int| (items[i].0@, items[i].1@))
}

impl<S> CommandRegistry<S> {
    /// The names under which commands are registered, in the order in
    /// which they were first used.
    pub closed spec fn names(&self) -> Seq<Seq<char>> {
        Seq::new(self.entries@.len(), |i: int| self.entries@[i].0@)
    }

    /// The command registered under each name, in the same order.
    pub closed spec fn commands(&self) -> Seq<SharedCommand<S>> {
        Seq::new(self.entries@.len(), |i: int| self.entries@[i].1)
    }

    /// The command registered under `name`, if any.
    pub open spec fn find(&self, name: Seq<char>) -> Option<SharedCommand<S>> {
        match position(self.names(), name) {
            Some(i) => Some(self.commands()[i]),
            None => None,
        }
    }

    /// Whether every name stands for one command: no name occurs twice.
    /// `new` makes it so, and `register` keeps it so.
    pub open spec fn wf(&self) -> bool {
        self.names().no_duplicates()
    }

    /// A registry has as many commands as names: the command at a place
    /// is the one registered under the name at that place.
    pub proof fn lemma_one_command_for_each_name(&self)
        ensures
            self.names().len() == self.commands().len(),
    {
    }

    /// A registry without commands.
    pub fn new() -> (r: Self)
        ensures
            r.names().len() == 0,
            r.commands().len() == 0,
            r.wf(),
    {
        CommandRegistry { entries: Vec::new() }
    }

    /// The place of `name` among the registered names.
    fn index_of(&self, name: &str) -> (r: Option<usize>)
        ensures
            match r {
                Some(i) => position(self.names(), name@) == Some(i as int) && i
                    < self.entries@.len(),
                None => position(self.names(), name@) is None,
            },
    {
        let mut i: usize = 0;
        while i < self.entries.len()
            invariant
                i <= self.entries.len(),
                forall|k: int| 0 <= k < i ==> self.names()[k] != name@,
            decreases self.entries.len() - i,
        {
            assert(self.names()[i as int] == self.entries@[i as int].0@);
            if same_text(self.entries[i].0.as_str(), name) {
                proof {
                    lemma_position(self.names(), name@);
                }
                return Some(i);
            }
            i += 1;
        }
        proof {
            lemma_position(self.names(), name@);
        }
        None
    }

    /// Puts `command` under `key`.
    fn bind(&mut self, key: &str, command: SharedCommand<S>)
        ensures
            (final(self).names(), final(self).commands()) == bound(
                old(self).names(),
                old(self).commands(),
                key@,
                command,
            ),
    {
        match self.index_of(key) {
            Some(i) => {
                self.entries[i].1 = command;
            },
            None => {
                self.entries.push((string_of(&chars_of(key)), command));
            },
        }
    }

    /// Registers `command` under its name and under each of its aliases.
    /// A name that is already taken goes over to `command`.
    pub fn register(&mut self, command: SharedCommand<S>)
        ensures
            (final(self).names(), final(self).commands()) == bound_all(
                old(self).names(),
                old(self).commands(),
                seq![command.spec_name()] + command.spec_aliases(),
                command,
            ),
            final(self).names().len() == final(self).commands().len(),
            old(self).wf() ==> final(self).wf(),
            final(self).find(command.spec_name()) == Some(command),
            forall|k: int|
                0 <= k < command.spec_aliases().len() ==> final(self).find(
                    #[trigger] command.spec_aliases()[k],
                ) == Some(command),
    {
        let ghost keys = seq![command.spec_name()] + command.spec_aliases();
        proof {
            lemma_bound_all_unique(self.names(), self.commands(), keys, command);
            assert forall|k: int| 0 <= k < keys.len() implies finds(
                bound_all(self.names(), self.commands(), keys, command).0,
                bound_all(self.names(), self.commands(), keys, command).1,
                #[trigger] keys[k],
                command,
            ) by {
                lemma_bound_all_finds(self.names(), self.commands(), keys, command, k);
            }
            assert(keys[0] == command.spec_name());
            assert forall|k: int| 0 <= k < command.spec_aliases().len() implies keys[k + 1]
                == #[trigger] command.spec_aliases()[k] by {}
        }
        self.bind(command.name(), Rc::clone(&command));
        let aliases = command.aliases();
        proof {
            let first = keys.take(1);
            assert(bound_all(old(self).names(), old(self).commands(), first.drop_last(), command)
                == (old(self).names(), old(self).commands()));
        }
        let mut i: usize = 0;
        while i < aliases.len()
            invariant
                i <= aliases.len(),
                texts(aliases@) == command.spec_aliases(),
                keys == seq![command.spec_name()] + command.spec_aliases(),
                (self.names(), self.commands()) == bound_all(
                    old(self).names(),
                    old(self).commands(),
                    keys.take(i + 1),
                    command,
                ),
            decreases aliases.len() - i,
        {
            proof {
                let t = keys.take(i + 2);
                assert(t.drop_last() == keys.take(i + 1));
            }
            self.bind(aliases[i], Rc::clone(&command));
            i += 1;
        }
        assert(keys.take(aliases@.len() as int + 1) == keys);
    }

    /// The command registered under `name`, if any.
    pub fn get(&self, name: &str) -> (r: Option<&SharedCommand<S>>)
        ensures
            match r {
                Some(c) => self.find(name@) == Some(*c),
                None => self.find(name@) is None,
            },
    {
        match self.index_of(name) {
            Some(i) => {
                Some(&self.entries[i].1)
            },
            None => None,
        }
    }

    /// The name and description of every registered command, each command
    /// once however many names it has.
    pub fn list_commands(&self) -> (r: Vec<(&str, &str)>)
        ensures
            pair_texts(r@) == listing(self.commands()),
    {
        let mut unique: Vec<(&str, &str)> = Vec::new();
        let mut i: usize = 0;
        while i < self.entries.len()
            invariant
                i <= self.entries.len(),
                pair_texts(unique@) == listing(self.commands().take(i as int)),
            decreases self.entries.len() - i,
        {
            let command = &self.entries[i].1;
            let name = command.name();
            let mut seen = false;
            let mut k: usize = 0;
            while k < unique.len()
                invariant
                    k <= unique.len(),
                    seen == (exists|j: int|
                        0 <= j < k && (#[trigger] pair_texts(unique@)[j]).0 == name@),
                decreases unique.len() - k,
            {
                assert(pair_texts(unique@)[k as int].0 == unique@[k as int].0@);
                if same_text(unique[k].0, name) {
                    seen = true;
                }
                k += 1;
            }
            proof {
                let t = self.commands().take(i + 1);
                assert(t.drop_last() == self.commands().take(i as int));
            }
            if !seen {
                unique.push((name, command.description()));
            }
            i += 1;
        }
        assert(self.commands().take(self.commands().len() as int) == self.commands());
        unique
    }
}

} // verus!
