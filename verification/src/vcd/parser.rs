//! The parser of a Value Change Dump: it reads the dump line by line and
//! gathers the signals and their changes.

use super::grammar::{
    scan_scope_declaration, scan_time_stamp, scan_value_change, scan_var_declaration,
    scope_declaration, time_stamp, value_change, var_declaration,
};
use super::id_map::{
    entry_value, entry_values, id_map_entries, id_map_get, id_map_insert, id_map_new,
    id_map_values, with_entry,
};
use crate::text::{
    chars_of, has_prefix, lemma_position, position, push_all, starts_with, string_of, trim,
    trimmed, views,
};
use crate::waveform::{
    canonical_logs, entry_log, entry_names, is_monotonic, lemma_with_change_unique,
    lemma_with_signal_unique, names_unique, with_change, with_signal, LogView, SignalValues,
    WaveformData,
};
use indexmap::IndexMap;
use vstd::prelude::*;

verus! {

/// What the parser knows after some lines of a dump.
pub ghost struct ParserView {
    /// The identifier codes with the full names of their signals, in the
    /// order in which the codes were first declared.
    pub ids: Seq<(Seq<char>, Seq<char>)>,
    /// The scopes that are open, the outermost first.
    pub scopes: Seq<Seq<char>>,
    /// Whether the end of the declarations has not been reached.
    pub in_definitions: bool,
    /// The time of the last time stamp.
    pub time: u64,
    /// The latest time of all time stamps.
    pub max_time: u64,
    /// The changes gathered, under the names of their signals.
    pub logs: Seq<(Seq<char>, LogView)>,
}

/// What the parser knows before the first line.
pub open spec fn initial() -> ParserView {
    ParserView {
        ids: Seq::empty(),
        scopes: Seq::empty(),
        in_definitions: true,
        time: 0,
        max_time: 0,
        logs: Seq::empty(),
    }
}

/// The names of the scopes, each followed by a dot.
pub open spec fn scope_prefix(scopes: Seq<Seq<char>>) -> Seq<char>
    decreases scopes.len(),
{
    if scopes.len() == 0 {
        Seq::empty()
    } else {
        scope_prefix(scopes.drop_last()) + scopes.last() + seq!['.']
    }
}

/// The full name of a signal declared as `name` inside `scopes`.
pub open spec fn full_name(scopes: Seq<Seq<char>>, name: Seq<char>) -> Seq<char> {
    scope_prefix(scopes) + name
}

/// The later of two times.
pub open spec fn later(a: u64, b: u64) -> u64 {
    if a >= b {
        a
    } else {
        b
    }
}

/// What the parser knows after one more line.
///
/// The line is read without the whitespace at its ends.
/// - A variable declaration binds its identifier code to the full name of
///   the signal, and starts an empty change log for the signal unless it
///   has one.
/// - A scope declaration opens a scope, and `$upscope` closes the
///   innermost one.
/// - `$enddefinitions` ends the declarations.
/// - After the declarations, a time stamp sets the time, and a value
///   change of a declared identifier code adds a change at that time to
///   the log of its signal.
/// - Any other line, and any line that does not read as what it starts
///   as, changes nothing.
pub open spec fn step(p: ParserView, line: Seq<char>) -> ParserView {
    let l = trimmed(line);
    if has_prefix(l, "$var"@) {
        match var_declaration(l) {
            Some((def, _)) => ParserView {
                ids: with_entry(p.ids, def.id, full_name(p.scopes, def.name)),
                logs: with_signal(p.logs, full_name(p.scopes, def.name)),
                ..p
            },
            None => p,
        }
    } else if has_prefix(l, "$scope"@) {
        match scope_declaration(l) {
            Some((name, _)) => ParserView { scopes: p.scopes.push(name), ..p },
            None => p,
        }
    } else if has_prefix(l, "$upscope"@) {
        if p.scopes.len() > 0 {
            ParserView { scopes: p.scopes.drop_last(), ..p }
        } else {
            p
        }
    } else if has_prefix(l, "$enddefinitions"@) {
        ParserView { in_definitions: false, ..p }
    } else if p.in_definitions || has_prefix(l, "$"@) {
        p
    } else if has_prefix(l, "#"@) {
        match time_stamp(l) {
            Some((t, _)) => ParserView { time: t, max_time: later(p.max_time, t), ..p },
            None => p,
        }
    } else {
        match value_change(l) {
            Some((value, id, _)) => match entry_value(p.ids, id) {
                Some(name) => ParserView { logs: with_change(p.logs, name, (p.time, value)), ..p },
                None => p,
            },
            None => p,
        }
    }
}

/// What the parser knows after the lines `lines`, starting from `p`.
pub open spec fn run(p: ParserView, lines: Seq<Seq<char>>) -> ParserView
    decreases lines.len(),
{
    if lines.len() == 0 {
        p
    } else {
        step(run(p, lines.drop_last()), lines.last())
    }
}

/// Whether time never goes back while the lines `lines` are read, starting
/// from `p`: every time stamp that is read is at or after the one before
/// it.
pub open spec fn time_ordered(p: ParserView, lines: Seq<Seq<char>>) -> bool
    decreases lines.len(),
{
    if lines.len() == 0 {
        true
    } else {
        time_ordered(p, lines.drop_last()) && run(p, lines.drop_last()).time <= run(p, lines).time
    }
}

/// Whether every change log is in the order of time and ends at or before
/// the time `now`.
pub open spec fn logs_ordered(logs: Seq<(Seq<char>, LogView)>, now: u64) -> bool {
    forall|i: int|
        0 <= i < logs.len() ==> is_monotonic((#[trigger] logs[i]).1) && (logs[i].1.len() > 0
            ==> logs[i].1.last().0 <= now)
}

/// A change at the time `now` keeps change logs that end at or before
/// `now` in the order of time.
proof fn lemma_change_keeps_order(
    logs: Seq<(Seq<char>, LogView)>,
    name: Seq<char>,
    value: crate::value::WaveValueView,
    now: u64,
)
    requires
        logs_ordered(logs, now),
    ensures
        logs_ordered(with_change(logs, name, (now, value)), now),
{
    let names = entry_names(logs);
    lemma_position(names, name);
    match position(names, name) {
        Some(i) => {
        },
        None => {
        },
    }
}

/// One line keeps the change logs in the order of time, if it does not
/// set the time back.
proof fn lemma_step_keeps_order(p: ParserView, line: Seq<char>)
    requires
        logs_ordered(p.logs, p.time),
        p.time <= step(p, line).time,
    ensures
        logs_ordered(step(p, line).logs, step(p, line).time),
{
    let q = step(p, line);
    let l = trimmed(line);
    if q.logs != p.logs && !has_prefix(l, "$var"@) {
        match value_change(l) {
            Some((value, id, _)) => match entry_value(p.ids, id) {
                Some(name) => {
                    lemma_change_keeps_order(p.logs, name, value, p.time);
                },
                None => {},
            },
            None => {},
        }
    }
}

/// The lines of a dump whose time never goes back leave change logs in
/// the order of time.
proof fn lemma_run_keeps_order(lines: Seq<Seq<char>>)
    requires
        time_ordered(initial(), lines),
    ensures
        logs_ordered(run(initial(), lines).logs, run(initial(), lines).time),
    decreases lines.len(),
{
    if lines.len() > 0 {
        lemma_run_keeps_order(lines.drop_last());
        lemma_step_keeps_order(run(initial(), lines.drop_last()), lines.last());
    }
}

/// In a dump whose time stamps never go back, the changes of every signal
/// stand in the order of time.
pub proof fn lemma_change_logs_monotonic(lines: Seq<Seq<char>>, name: Seq<char>)
    requires
        time_ordered(initial(), lines),
    ensures
        entry_log(canonical_logs(run(initial(), lines).logs), name) matches Some(log)
            ==> is_monotonic(log),
{
    let logs = run(initial(), lines).logs;
    let shown = canonical_logs(logs);
    lemma_run_keeps_order(lines);
    lemma_position(entry_names(shown), name);
    match position(entry_names(shown), name) {
        Some(i) => {
        },
        None => {},
    }
}

/// A line brings no name in twice among the change logs.
proof fn lemma_step_names_unique(p: ParserView, line: Seq<char>)
    requires
        names_unique(p.logs),
    ensures
        names_unique(step(p, line).logs),
{
    let l = trimmed(line);
    if has_prefix(l, "$var"@) {
        match var_declaration(l) {
            Some((def, _)) => lemma_with_signal_unique(p.logs, full_name(p.scopes, def.name)),
            None => {},
        }
    } else if has_prefix(l, "$scope"@) || has_prefix(l, "$upscope"@) || has_prefix(
        l,
        "$enddefinitions"@,
    ) || p.in_definitions || has_prefix(l, "$"@) || has_prefix(l, "#"@) {
    } else {
        match value_change(l) {
            Some((value, id, _)) => match entry_value(p.ids, id) {
                Some(name) => lemma_with_change_unique(p.logs, name, (p.time, value)),
                None => {},
            },
            None => {},
        }
    }
}

/// Whatever the lines of a dump are, each name stands for one change
/// log: the parser never gathers two logs under one name.
pub proof fn lemma_change_logs_unique(lines: Seq<Seq<char>>)
    ensures
        names_unique(run(initial(), lines).logs),
        names_unique(canonical_logs(run(initial(), lines).logs)),
    decreases lines.len(),
{
    if lines.len() > 0 {
        lemma_change_logs_unique(lines.drop_last());
        lemma_step_names_unique(run(initial(), lines.drop_last()), lines.last());
    }
    let logs = run(initial(), lines).logs;
    assert(entry_names(canonical_logs(logs)) =~= entry_names(logs));
}

/// Whether `data` holds what the parser `p` has gathered: the names of
/// the declared signals in the order of their declaration, the change
/// logs in canonical form, and the latest time.
pub open spec fn holds(data: WaveformData, p: ParserView) -> bool {
    &&& views(data.signals@) == entry_values(p.ids)
    &&& data.values.entries() == canonical_logs(p.logs)
    &&& data.max_time == p.max_time
}

/// The lines of a text: what stands between its line feeds.
pub open spec fn lines_of(text: Seq<char>) -> Seq<Seq<char>>
    decreases text.len(),
{
    if text.len() == 0 {
        seq![Seq::empty()]
    } else {
        let front = lines_of(text.drop_last());
        if text.last() == '\n' {
            front.push(Seq::empty())
        } else {
            front.drop_last().push(front.last().push(text.last()))
        }
    }
}

/// A parser of a Value Change Dump that is fed line by line.
pub struct VcdParser {
    id_to_name: IndexMap<String, String>,
    scopes: Vec<String>,
    in_definitions: bool,
    current_time: u64,
    max_time: u64,
    values: SignalValues,
}

impl View for VcdParser {
    type V = ParserView;

    closed spec fn view(&self) -> ParserView {
        ParserView {
            ids: id_map_entries(self.id_to_name),
            scopes: views(self.scopes@),
            in_definitions: self.in_definitions,
            time: self.current_time,
            max_time: self.max_time,
            logs: self.values.entries(),
        }
    }
}

impl VcdParser {
    /// A parser that has read nothing.
    pub fn new() -> (r: Self)
        ensures
            r@ == initial(),
    {
        let r = VcdParser {
            id_to_name: id_map_new(),
            scopes: Vec::new(),
            in_definitions: true,
            current_time: 0,
            max_time: 0,
            values: SignalValues::new(),
        };
        assert(r@.ids =~= Seq::empty());
        assert(r@.scopes =~= Seq::empty());
        assert(r@.logs =~= Seq::empty());
        r
    }

    /// The full name of a signal declared as `name` inside the open
    /// scopes.
    fn qualified(&self, name: &str) -> (r: String)
        ensures
            r@ == full_name(self@.scopes, name@),
    {
        let mut out: Vec<char> = Vec::new();
        let mut i: usize = 0;
        while i < self.scopes.len()
            invariant
                i <= self.scopes.len(),
                out@ == scope_prefix(views(self.scopes@).take(i as int)),
            decreases self.scopes.len() - i,
        {
            let scope = chars_of(self.scopes[i].as_str());
            push_all(&mut out, &scope);
            out.push('.');
            i += 1;
            proof {
                let t = views(self.scopes@).take(i as int);
                assert(t.drop_last() == views(self.scopes@).take(i - 1));
            }
        }
        assert(views(self.scopes@).take(self.scopes@.len() as int) == views(self.scopes@));
        let tail = chars_of(name);
        push_all(&mut out, &tail);
        string_of(&out)
    }

    /// Reads one more line of the dump.
    pub fn feed(&mut self, line: &str)
        ensures
            final(self)@ == step(old(self)@, line@),
    {
        let chars = chars_of(line);
        let l = trim(&chars);
        if starts_with(&l, "$var") {
            match scan_var_declaration(&l) {
                Some((def, _)) => {
                    let name = self.qualified(def.name.as_str());
                    self.values.declare(name.as_str());
                    id_map_insert(&mut self.id_to_name, def.id, name);
                },
                None => {},
            }
        } else if starts_with(&l, "$scope") {
            match scan_scope_declaration(&l) {
                Some((name, _)) => {
                    let ghost before = views(self.scopes@);
                    self.scopes.push(name);
                    assert(views(self.scopes@) =~= before.push(name@));
                },
                None => {},
            }
        } else if starts_with(&l, "$upscope") {
            if self.scopes.len() > 0 {
                let ghost before = views(self.scopes@);
                self.scopes.pop();
                assert(views(self.scopes@) =~= before.drop_last());
            }
        } else if starts_with(&l, "$enddefinitions") {
            self.in_definitions = false;
        } else if !self.in_definitions && !starts_with(&l, "$") {
            if starts_with(&l, "#") {
                match scan_time_stamp(&l) {
                    Some((time, _)) => {
                        self.current_time = time;
                        if time > self.max_time {
                            self.max_time = time;
                        }
                    },
                    None => {},
                }
            } else {
                match scan_value_change(&l) {
                    Some((value, id, _)) => {
                        match id_map_get(&self.id_to_name, id.as_str()) {
                            Some(name) => {
                                self.values.record(name.as_str(), self.current_time, value);
                            },
                            None => {},
                        }
                    },
                    None => {},
                }
            }
        }
    }

    /// Ends the parse: gives the signals in the order of their
    /// declaration, their change logs in canonical form, and the latest
    /// time.
    pub fn finish(self) -> (data: WaveformData)
        ensures
            holds(data, self@),
    {
        let signals = id_map_values(&self.id_to_name);
        let mut values = self.values;
        values.canonicalize();
        WaveformData { signals, values, max_time: self.max_time }
    }
}

/// Reads a dump from its lines.
///
/// Where the time stamps of the dump never go back, the changes of every
/// signal stand in the order of time.
pub fn parse_vcd_lines(lines: &Vec<String>) -> (data: WaveformData)
    ensures
        holds(data, run(initial(), views(lines@))),
        data.values.wf(),
        time_ordered(initial(), views(lines@)) ==> forall|name: Seq<char>|
            #![trigger data.values.log_of(name)]
            data.values.log_of(name) matches Some(log) ==> is_monotonic(log),
{
    let mut parser = VcdParser::new();
    let mut i: usize = 0;
    while i < lines.len()
        invariant
            i <= lines.len(),
            parser@ == run(initial(), views(lines@).take(i as int)),
        decreases lines.len() - i,
    {
        parser.feed(lines[i].as_str());
        i += 1;
        proof {
            let t = views(lines@).take(i as int);
            assert(t.drop_last() == views(lines@).take(i - 1));
        }
    }
    assert(views(lines@).take(lines@.len() as int) == views(lines@));
    let data = parser.finish();
    proof {
        lemma_change_logs_unique(views(lines@));
        if time_ordered(initial(), views(lines@)) {
            assert forall|name: Seq<char>| #![trigger data.values.log_of(name)]
                (data.values.log_of(name) matches Some(log) ==> is_monotonic(log)) by {
                lemma_change_logs_monotonic(views(lines@), name);
            }
        }
    }
    data
}

/// Splits a text at its line feeds.
pub fn split_lines(text: &str) -> (r: Vec<String>)
    ensures
        views(r@) == lines_of(text@),
{
    let chars = chars_of(text);
    let mut done: Vec<String> = Vec::new();
    let mut current: Vec<char> = Vec::new();
    let mut i: usize = 0;
    while i < chars.len()
        invariant
            i <= chars.len(),
            lines_of(chars@.take(i as int)) == views(done@).push(current@),
        decreases chars.len() - i,
    {
        let c = chars[i];
        proof {
            let t = chars@.take(i + 1);
            assert(t.drop_last() == chars@.take(i as int));
        }
        if c == '\n' {
            done.push(string_of(&current));
            current = Vec::new();
        } else {
            current.push(c);
        }
        i += 1;
    }
    assert(chars@.take(chars@.len() as int) == chars@);
    done.push(string_of(&current));
    done
}

/// Reads a dump from its text.
///
/// Where the time stamps of the dump never go back, the changes of every
/// signal stand in the order of time.
pub fn parse_vcd(text: &str) -> (data: WaveformData)
    ensures
        holds(data, run(initial(), lines_of(text@))),
        data.values.wf(),
        time_ordered(initial(), lines_of(text@)) ==> forall|name: Seq<char>|
            #![trigger data.values.log_of(name)]
            data.values.log_of(name) matches Some(log) ==> is_monotonic(log),
{
    let lines = split_lines(text);
    parse_vcd_lines(&lines)
}

} // verus!
