//! The data of a loaded dump: the signals, the changes of each signal in
//! the order of time, and the end of time.

use crate::hex::{all_bits, binary_to_hex, bits_to_hex};
use crate::text::{chars_of, lemma_position, position, same_text, string_of};
use crate::value::{WaveValue, WaveValueView};
use vstd::prelude::*;

verus! {

/// The changes of one signal as the contracts see them: each with its time
/// and its value.
pub type LogView = Seq<(u64, WaveValueView)>;

/// Whether the times of a change log never decrease.
pub open spec fn is_monotonic(log: LogView) -> bool {
    forall|i: int, j: int| 0 <= i <= j < log.len() ==> log[i].0 <= log[j].0
}

/// The names under which the entries stand, in their order.
pub open spec fn entry_names(entries: Seq<(Seq<char>, LogView)>) -> Seq<Seq<char>> {
    Seq::new(entries.len(), |i: int| entries[i].0)
}

/// The change log that stands under `name`, if any.
pub open spec fn entry_log(entries: Seq<(Seq<char>, LogView)>, name: Seq<char>) -> Option<
    LogView,
> {
    match position(entry_names(entries), name) {
        Some(i) => Some(entries[i].1),
        None => None,
    }
}

/// The entries after `log` is put under `name`: in the place of the entry
/// of that name, if there is one, else at the end.
pub open spec fn with_log(entries: Seq<(Seq<char>, LogView)>, name: Seq<char>, log: LogView) -> Seq<
    (Seq<char>, LogView),
> {
    match position(entry_names(entries), name) {
        Some(i) => entries.update(i, (name, log)),
        None => entries.push((name, log)),
    }
}

/// The entries with an empty log under `name`, unless `name` has a log.
pub open spec fn with_signal(entries: Seq<(Seq<char>, LogView)>, name: Seq<char>) -> Seq<
    (Seq<char>, LogView),
> {
    match entry_log(entries, name) {
        Some(_) => entries,
        None => entries.push((name, Seq::empty())),
    }
}

/// The entries after a change is added at the end of the log of `name`,
/// the log being started if there is none.
pub open spec fn with_change(
    entries: Seq<(Seq<char>, LogView)>,
    name: Seq<char>,
    change: (u64, WaveValueView),
) -> Seq<(Seq<char>, LogView)> {
    match entry_log(entries, name) {
        Some(log) => with_log(entries, name, log.push(change)),
        None => with_log(entries, name, seq![change]),
    }
}

/// The canonical form of a value: the text of a bus that is made of
/// binary digits alone is rewritten as a hexadecimal number; any other
/// value stays as it is.
pub open spec fn canonical(value: WaveValueView) -> WaveValueView {
    match value {
        WaveValueView::Bus(s) => if all_bits(s) {
            WaveValueView::Bus(binary_to_hex(s))
        } else {
            value
        },
        WaveValueView::Binary(_) => value,
    }
}

/// A change log with every value in its canonical form.
pub open spec fn canonical_log(log: LogView) -> LogView {
    Seq::new(log.len(), |i: int| (log[i].0, canonical(log[i].1)))
}

/// Change logs with every value in its canonical form.
pub open spec fn canonical_logs(logs: Seq<(Seq<char>, LogView)>) -> Seq<(Seq<char>, LogView)> {
    Seq::new(logs.len(), |i: int| (logs[i].0, canonical_log(logs[i].1)))
}

/// Whether no name stands twice among the entries.
pub open spec fn names_unique(entries: Seq<(Seq<char>, LogView)>) -> bool {
    entry_names(entries).no_duplicates()
}

/// Putting a log under a name brings no name in twice.
pub proof fn lemma_with_log_unique(entries: Seq<(Seq<char>, LogView)>, name: Seq<char>, log: LogView)
    requires
        names_unique(entries),
    ensures
        names_unique(with_log(entries, name, log)),
{
    let names = entry_names(entries);
    let after = entry_names(with_log(entries, name, log));
    lemma_position(names, name);
    match position(names, name) {
        Some(i) => {
            assert(after =~= names);
        },
        None => {
            assert(after =~= names.push(name));
        },
    }
}

/// Starting a log for a name brings no name in twice.
pub proof fn lemma_with_signal_unique(entries: Seq<(Seq<char>, LogView)>, name: Seq<char>)
    requires
        names_unique(entries),
    ensures
        names_unique(with_signal(entries, name)),
{
    let names = entry_names(entries);
    lemma_position(names, name);
    if entry_log(entries, name) is None {
        assert(entry_names(with_signal(entries, name)) =~= names.push(name));
    }
}

/// Adding a change to the log of a name brings no name in twice.
pub proof fn lemma_with_change_unique(
    entries: Seq<(Seq<char>, LogView)>,
    name: Seq<char>,
    change: (u64, WaveValueView),
)
    requires
        names_unique(entries),
    ensures
        names_unique(with_change(entries, name, change)),
{
    match entry_log(entries, name) {
        Some(log) => lemma_with_log_unique(entries, name, log.push(change)),
        None => lemma_with_log_unique(entries, name, seq![change]),
    }
}

/// Brings a value into its canonical form.
pub fn canonicalize_value(value: &mut WaveValue)
    ensures
        final(value)@ == canonical(old(value)@),
{
    let hex = match value {
        WaveValue::Bus(s) => bits_to_hex(&chars_of(s.as_str())),
        WaveValue::Binary(_) => None,
    };
    match hex {
        Some(digits) => {
            *value = WaveValue::Bus(string_of(&digits));
        },
        None => {},
    }
}

/// The change logs of the signals of a dump, each under the name of its
/// signal. A name stands for one log.
pub struct SignalValues {
    entries: Vec<(String, Vec<(u64, WaveValue)>)>,
}

impl SignalValues {
    /// The names and their change logs, in the order in which the names
    /// came.
    pub closed spec fn entries(&self) -> Seq<(Seq<char>, LogView)> {
        self.entries.deep_view()
    }

    /// The change log of `name`, if it has one.
    pub open spec fn log_of(&self, name: Seq<char>) -> Option<LogView> {
        entry_log(self.entries(), name)
    }

    /// Whether every name stands for one log: no name occurs twice among
    /// the entries. `new` makes it so, and every method keeps it so.
    pub open spec fn wf(&self) -> bool {
        names_unique(self.entries())
    }

    /// No change log at all.
    pub fn new() -> (r: Self)
        ensures
            r.entries().len() == 0,
            r.wf(),
    {
        SignalValues { entries: Vec::new() }
    }

    /// The number of signals that have a change log.
    pub fn len(&self) -> (n: usize)
        ensures
            n == self.entries().len(),
    {
        self.entries.len()
    }

    /// Whether no signal has a change log.
    pub fn is_empty(&self) -> (b: bool)
        ensures
            b == (self.entries().len() == 0),
    {
        self.entries.len() == 0
    }

    /// Forgets every change log.
    pub fn clear(&mut self)
        ensures
            final(self).entries().len() == 0,
            final(self).wf(),
    {
        self.entries = Vec::new();
    }

    /// The place of `name` among the names.
    fn index_of(&self, name: &str) -> (r: Option<usize>)
        ensures
            match r {
                Some(i) => position(entry_names(self.entries()), name@) == Some(i as int) && i
                    < self.entries@.len(),
                None => position(entry_names(self.entries()), name@) is None,
            },
    {
        let ghost names = entry_names(self.entries());
        let mut i: usize = 0;
        while i < self.entries.len()
            invariant
                i <= self.entries.len(),
                names == entry_names(self.entries()),
                names.len() == self.entries@.len(),
                forall|k: int| 0 <= k < i ==> names[k] != name@,
            decreases self.entries.len() - i,
        {
            assert(names[i as int] == self.entries@[i as int].0@);
            if same_text(self.entries[i].0.as_str(), name) {
                proof {
                    lemma_position(names, name@);
                }
                return Some(i);
            }
            i += 1;
        }
        proof {
            lemma_position(names, name@);
        }
        None
    }

    /// The change log of `name`, if it has one.
    pub fn get(&self, name: &str) -> (r: Option<&Vec<(u64, WaveValue)>>)
        ensures
            match r {
                Some(log) => self.log_of(name@) == Some(log.deep_view()),
                None => self.log_of(name@) is None,
            },
    {
        match self.index_of(name) {
            Some(i) => {
                Some(&self.entries[i].1)
            },
            None => None,
        }
    }

    /// Whether `name` has a change log.
    pub fn contains_key(&self, name: &str) -> (b: bool)
        ensures
            b == self.log_of(name@) is Some,
    {
        self.index_of(name).is_some()
    }

    /// Puts `log` under `name`, in the place of the log that `name` had,
    /// if it had one.
    pub fn insert(&mut self, name: String, log: Vec<(u64, WaveValue)>)
        ensures
            final(self).entries() == with_log(old(self).entries(), name@, log.deep_view()),
            old(self).wf() ==> final(self).wf(),
    {
        let ghost after = with_log(self.entries(), name@, log.deep_view());
        proof {
            if self.wf() {
                lemma_with_log_unique(self.entries(), name@, log.deep_view());
            }
        }
        match self.index_of(name.as_str()) {
            Some(i) => {
                self.entries.set(i, (name, log));
            },
            None => {
                self.entries.push((name, log));
            },
        }
        assert(self.entries() =~= after);
    }

    /// Brings every value of every change log into its canonical form.
    pub fn canonicalize(&mut self)
        ensures
            final(self).entries() == canonical_logs(old(self).entries()),
            old(self).wf() ==> final(self).wf(),
    {
        proof {
            assert(entry_names(canonical_logs(self.entries())) =~= entry_names(self.entries()));
        }
        let mut i: usize = 0;
        while i < self.entries.len()
            invariant
                i <= self.entries.len(),
                self.entries@.len() == old(self).entries@.len(),
                forall|k: int|
                    0 <= k < i ==> (#[trigger] self.entries@[k]).deep_view() == (
                        old(self).entries@[k].0@,
                        canonical_log(old(self).entries@[k].1.deep_view()),
                    ),
                forall|k: int|
                    i <= k < self.entries@.len() ==> #[trigger] self.entries@[k] == old(self).entries@[k],
            decreases self.entries.len() - i,
        {
            let ghost before = self.entries@;
            let ghost log_before = self.entries@[i as int].1.deep_view();
            let mut j: usize = 0;
            while j < self.entries[i].1.len()
                invariant
                    i < self.entries.len(),
                    self.entries@.len() == before.len(),
                    forall|k: int|
                        0 <= k < self.entries@.len() && k != i ==> #[trigger] self.entries@[k]
                            == before[k],
                    self.entries@[i as int].0 == before[i as int].0,
                    j <= self.entries@[i as int].1@.len() == log_before.len(),
                    forall|k: int|
                        0 <= k < j ==> (#[trigger] self.entries@[i as int].1@[k]).deep_view() == (
                            log_before[k].0,
                            canonical(log_before[k].1),
                        ),
                    forall|k: int|
                        j <= k < log_before.len() ==> (
                        #[trigger] self.entries@[i as int].1@[k]).deep_view() == log_before[k],
                decreases self.entries@[i as int].1@.len() - j,
            {
                canonicalize_value(&mut self.entries[i].1[j].1);
                j += 1;
            }
            i += 1;
        }
    }

    /// Starts an empty log for `name`, unless `name` has a log.
    pub fn declare(&mut self, name: &str)
        ensures
            final(self).entries() == with_signal(old(self).entries(), name@),
            old(self).wf() ==> final(self).wf(),
    {
        let ghost after = with_signal(self.entries(), name@);
        proof {
            if self.wf() {
                lemma_with_signal_unique(self.entries(), name@);
            }
        }
        if self.index_of(name).is_none() {
            let log: Vec<(u64, WaveValue)> = Vec::new();
            assert(log.deep_view() =~= Seq::empty());
            self.entries.push((string_of(&chars_of(name)), log));
        }
        assert(self.entries() =~= after);
    }

    /// Adds a change at the end of the log of `name`, and starts the log
    /// if `name` has none.
    pub fn record(&mut self, name: &str, time: u64, value: WaveValue)
        ensures
            final(self).entries() == with_change(old(self).entries(), name@, (time, value@)),
            old(self).wf() ==> final(self).wf(),
    {
        let ghost after = with_change(self.entries(), name@, (time, value@));
        proof {
            if self.wf() {
                lemma_with_change_unique(self.entries(), name@, (time, value@));
            }
        }
        match self.index_of(name) {
            Some(i) => {
                let ghost before = self.entries@[i as int].1.deep_view();
                proof {
                    lemma_position(entry_names(self.entries()), name@);
                }
                self.entries[i].1.push((time, value));
                assert(self.entries@[i as int].1.deep_view() =~= before.push((time, value@)));
            },
            None => {
                let mut log: Vec<(u64, WaveValue)> = Vec::new();
                log.push((time, value));
                assert(log.deep_view() =~= seq![(time, value@)]);
                self.entries.push((string_of(&chars_of(name)), log));
            },
        }
        assert(self.entries() =~= after);
    }
}

/// The data of a loaded dump.
///
/// `signals` holds the names of the declared signals in the order of their
/// declaration. `values` holds the change log of every signal that
/// changed. `max_time` is the latest time that the dump reached.
pub struct WaveformData {
    pub signals: Vec<String>,
    pub values: SignalValues,
    pub max_time: u64,
}

impl Default for WaveformData {
    fn default() -> (r: Self)
        ensures
            r.signals@.len() == 0,
            r.values.entries().len() == 0,
            r.values.wf(),
            r.max_time == 0,
    {
        WaveformData { signals: Vec::new(), values: SignalValues::new(), max_time: 0 }
    }
}

} // verus!
