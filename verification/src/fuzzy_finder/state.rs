//! The state of the signal finder.

use crate::state::listed;
use crate::text::{chars_of, string_of, views};
use fuzzy_matcher::FuzzyMatcher;
use fuzzy_matcher::skim::SkimMatcherV2;
use vstd::prelude::*;

verus! {

/// The longest text, in characters, that is matched against a query.
pub const MAX_MATCH_LENGTH: usize = 0x10_0000;

/// How well `choice` matches `pattern`, if it matches at all.
pub uninterp spec fn fuzzy_score(choice: Seq<char>, pattern: Seq<char>) -> Option<i64>;

/// `SkimMatcherV2::fuzzy_match`, with the matcher as `Default` makes it:
/// the score of the best alignment of the characters of the pattern, in
/// their order, with characters of the choice, or nothing where there is
/// no such alignment.
#[verifier::external_body]
pub(crate) fn fuzzy_match(choice: &str, pattern: &str) -> (r: Option<i64>)
    requires
        choice@.len() <= MAX_MATCH_LENGTH,
        pattern@.len() <= MAX_MATCH_LENGTH,
    ensures
        r == fuzzy_score(choice@, pattern@),
{
    SkimMatcherV2::default().fuzzy_match(choice, pattern)
}

/// Which entry of a list is selected, and from which entry on the list
/// is shown.
#[derive(Debug, Clone, Copy, PartialEq, Eq, Structural)]
pub struct ListState {
    pub offset: usize,
    pub selected: Option<usize>,
}

impl Default for ListState {
    fn default() -> (r: Self)
        ensures
            r == (ListState { offset: 0, selected: None }),
    {
        ListState { offset: 0, selected: None }
    }
}

impl ListState {
    /// Selects the entry at `index`, or none. With no entry selected the
    /// list is shown from its first entry.
    pub fn select(&mut self, index: Option<usize>)
        ensures
            final(self).selected == index,
            final(self).offset == if index is None {
                0
            } else {
                old(self).offset
            },
    {
        self.selected = index;
        if index.is_none() {
            self.offset = 0;
        }
    }

    /// The place of the selected entry.
    pub fn selected(&self) -> (r: Option<usize>)
        ensures
            r == self.selected,
    {
        self.selected
    }
}

/// The state of the signal finder.
///
/// `selected_signals` is a set: it says of each name whether it is
/// chosen, and each name stands in it once.
pub struct FuzzyFinderState {
    /// Which of the filtered signals is highlighted.
    pub list_state: ListState,
    /// What the user has typed.
    pub query: String,
    /// The signals that match the query, the best match first.
    pub filtered_signals: Vec<String>,
    /// The signals of the dump.
    pub all_signals: Vec<String>,
    /// The signals that are chosen for display.
    pub selected_signals: Vec<String>,
}

/// How well a signal matches a query. A signal or a query that is longer
/// than texts are matched at does not match.
pub open spec fn candidate_score(signal: Seq<char>, query: Seq<char>) -> Option<i64> {
    if signal.len() <= MAX_MATCH_LENGTH && query.len() <= MAX_MATCH_LENGTH {
        fuzzy_score(signal, query)
    } else {
        None
    }
}

/// The signals that match a query, each with its score, in the order of
/// the signals.
pub open spec fn matches(signals: Seq<Seq<char>>, query: Seq<char>) -> Seq<(Seq<char>, i64)>
    decreases signals.len(),
{
    if signals.len() == 0 {
        Seq::empty()
    } else {
        let front = matches(signals.drop_last(), query);
        match candidate_score(signals.last(), query) {
            Some(score) => front.push((signals.last(), score)),
            None => front,
        }
    }
}

/// The place of the first entry at or after `from` whose score is below
/// `score`, or the end of the list.
pub open spec fn first_below(ranked: Seq<(Seq<char>, i64)>, from: int, score: i64) -> int
    decreases ranked.len() - from,
{
    if 0 <= from < ranked.len() && ranked[from].1 >= score {
        first_below(ranked, from + 1, score)
    } else {
        from
    }
}

/// The entries in the order of their scores, the highest first; entries
/// of the same score keep their order.
pub open spec fn ranked(items: Seq<(Seq<char>, i64)>) -> Seq<(Seq<char>, i64)>
    decreases items.len(),
{
    if items.len() == 0 {
        Seq::empty()
    } else {
        let front = ranked(items.drop_last());
        front.insert(first_below(front, 0, items.last().1), items.last())
    }
}

/// Whether the scores of a list never rise.
pub open spec fn is_descending(items: Seq<(Seq<char>, i64)>) -> bool {
    forall|i: int, j: int| 0 <= i <= j < items.len() ==> items[i].1 >= items[j].1
}

/// Where `first_below` stops: within the list, behind entries that are
/// not below the score, and at one that is.
pub proof fn lemma_first_below(ranked: Seq<(Seq<char>, i64)>, from: int, score: i64)
    requires
        0 <= from <= ranked.len(),
    ensures
        from <= first_below(ranked, from, score) <= ranked.len(),
        forall|k: int| from <= k < first_below(ranked, from, score) ==> (#[trigger] ranked[k]).1
            >= score,
        first_below(ranked, from, score) < ranked.len() ==> ranked[first_below(
            ranked,
            from,
            score,
        )].1 < score,
    decreases ranked.len() - from,
{
    if from < ranked.len() && ranked[from].1 >= score {
        lemma_first_below(ranked, from + 1, score);
    }
}

/// A ranked list is as long as the list it was made of, and its scores
/// never rise.
pub proof fn lemma_ranked_descending(items: Seq<(Seq<char>, i64)>)
    ensures
        ranked(items).len() == items.len(),
        is_descending(ranked(items)),
    decreases items.len(),
{
    if items.len() > 0 {
        lemma_ranked_descending(items.drop_last());
        let front = ranked(items.drop_last());
        let score = items.last().1;
        lemma_first_below(front, 0, score);
    }
}

/// The names of a list of names with scores.
pub open spec fn names_of(items: Seq<(Seq<char>, i64)>) -> Seq<Seq<char>> {
    Seq::new(items.len(), |i: int| items[i].0)
}

/// What a list of names with scores holds.
pub open spec fn scored_views(items: Seq<(String, i64)>) -> Seq<(Seq<char>, i64)> {
    Seq::new(items.len(), |i: int| (items[i].0@, items[i].1))
}

/// The signals that a query leaves: all of them for the empty query,
/// else those that match it, the best match first.
pub open spec fn filtered(signals: Seq<Seq<char>>, query: Seq<char>) -> Seq<Seq<char>> {
    if query.len() == 0 {
        signals
    } else {
        names_of(ranked(matches(signals, query)))
    }
}

/// The highlight once the list holds `count` entries: a highlight behind
/// the end moves to the first entry, a list that had no highlight gets one
/// on its first entry, and an empty list has none.
pub open spec fn highlight_after(list: ListState, count: nat) -> ListState {
    match list.selected {
        Some(i) => if i >= count {
            if count == 0 {
                ListState { offset: 0, selected: None }
            } else {
                ListState { selected: Some(0usize), ..list }
            }
        } else {
            list
        },
        None => if count > 0 {
            ListState { selected: Some(0usize), ..list }
        } else {
            list
        },
    }
}

/// `names` without the entries that equal `name`.
pub open spec fn without(names: Seq<Seq<char>>, name: Seq<char>) -> Seq<Seq<char>>
    decreases names.len(),
{
    if names.len() == 0 {
        Seq::empty()
    } else if names.last() == name {
        without(names.drop_last(), name)
    } else {
        without(names.drop_last(), name).push(names.last())
    }
}

/// `names` with `name` behind it, unless it is among them.
pub open spec fn with_name(names: Seq<Seq<char>>, name: Seq<char>) -> Seq<Seq<char>> {
    if exists|i: int| 0 <= i < names.len() && names[i] == name {
        names
    } else {
        names.push(name)
    }
}

/// `names` with each of `more` behind it that is not among them yet.
pub open spec fn with_names(names: Seq<Seq<char>>, more: Seq<Seq<char>>) -> Seq<Seq<char>>
    decreases more.len(),
{
    if more.len() == 0 {
        names
    } else {
        with_name(with_names(names, more.drop_last()), more.last())
    }
}

/// `names` with `name` taken out if it is among them, and put behind
/// them if it is not.
pub open spec fn toggled(names: Seq<Seq<char>>, name: Seq<char>) -> Seq<Seq<char>> {
    if exists|i: int| 0 <= i < names.len() && names[i] == name {
        without(names, name)
    } else {
        names.push(name)
    }
}

/// What is left when a name is taken out was there before, is not the
/// name, and stands once if it stood once.
pub proof fn lemma_without_unique(names: Seq<Seq<char>>, name: Seq<char>)
    ensures
        forall|x: Seq<char>| #[trigger]
            without(names, name).contains(x) ==> names.contains(x) && x != name,
        names.no_duplicates() ==> without(names, name).no_duplicates(),
    decreases names.len(),
{
    if names.len() > 0 {
        let front = names.drop_last();
        lemma_without_unique(front, name);
        let rest = without(front, name);
        assert forall|x: Seq<char>| #[trigger] without(names, name).contains(x) implies names.contains(
            x,
        ) && x != name by {
            let k = choose|k: int| 0 <= k < without(names, name).len() && without(names, name)[k] == x;
            if names.last() != name && k == rest.len() {
                assert(names[names.len() - 1] == x);
            } else {
                assert(rest[k] == x);
                assert(rest.contains(x));
                let j = choose|j: int| 0 <= j < front.len() && front[j] == x;
                assert(names[j] == x);
            }
        }
        if names.no_duplicates() {
            assert forall|i: int, j: int| 0 <= i < front.len() && 0 <= j < front.len() && i
                != j implies front[i] != front[j] by {
                assert(front[i] == names[i] && front[j] == names[j]);
            }
            if names.last() != name {
                if rest.contains(names.last()) {
                    let j = choose|j: int| 0 <= j < front.len() && front[j] == names.last();
                    assert(names[j] == names[names.len() - 1]);
                }
                assert forall|i: int| 0 <= i < rest.len() implies rest[i] != names.last() by {
                    if rest[i] == names.last() {
                        assert(rest.contains(names.last()));
                    }
                }
            }
        }
    }
}

/// A name that is put behind a set, unless it is in it, leaves a set.
pub proof fn lemma_with_name_unique(names: Seq<Seq<char>>, name: Seq<char>)
    requires
        names.no_duplicates(),
    ensures
        with_name(names, name).no_duplicates(),
{
}

/// Names that are put behind a set, each unless it is in it, leave a set.
pub proof fn lemma_with_names_unique(names: Seq<Seq<char>>, more: Seq<Seq<char>>)
    requires
        names.no_duplicates(),
    ensures
        with_names(names, more).no_duplicates(),
    decreases more.len(),
{
    if more.len() > 0 {
        lemma_with_names_unique(names, more.drop_last());
        lemma_with_name_unique(with_names(names, more.drop_last()), more.last());
    }
}

/// A name that is taken out of a set or put into it leaves a set.
pub proof fn lemma_toggled_unique(names: Seq<Seq<char>>, name: Seq<char>)
    requires
        names.no_duplicates(),
    ensures
        toggled(names, name).no_duplicates(),
{
    lemma_without_unique(names, name);
}

/// Copies a list of names.
pub fn clone_names(names: &Vec<String>) -> (r: Vec<String>)
    ensures
        r@ == names@,
{
    let mut r: Vec<String> = Vec::new();
    let mut i: usize = 0;
    while i < names.len()
        invariant
            i <= names.len(),
            r@ == names@.take(i as int),
        decreases names.len() - i,
    {
        r.push(names[i].clone());
        i += 1;
    }
    r
}

/// Tests whether `name` is among `names`.
fn has_name(names: &Vec<String>, name: &str) -> (b: bool)
    ensures
        b == (exists|i: int| 0 <= i < views(names@).len() && views(names@)[i] == name@),
{
    let b = listed(names, name);
    proof {
        if b {
            let i = choose|i: int| 0 <= i < names@.len() && (#[trigger] names@[i])@ == name@;
            assert(views(names@)[i] == name@);
        }
    }
    b
}

/// Puts `name` behind `names`, unless it is among them.
fn insert_name(names: &mut Vec<String>, name: &str)
    ensures
        views(final(names)@) == with_name(views(old(names)@), name@),
{
    if !has_name(names, name) {
        names.push(string_of(&chars_of(name)));
    }
}

/// Takes `name` out of `names`.
fn remove_name(names: &Vec<String>, name: &str) -> (r: Vec<String>)
    ensures
        views(r@) == without(views(names@), name@),
{
    let mut r: Vec<String> = Vec::new();
    let mut i: usize = 0;
    while i < names.len()
        invariant
            i <= names.len(),
            views(r@) == without(views(names@).take(i as int), name@),
        decreases names.len() - i,
    {
        proof {
            let t = views(names@).take(i + 1);
            assert(t.drop_last() == views(names@).take(i as int));
        }
        if !crate::text::same_text(names[i].as_str(), name) {
            r.push(names[i].clone());
        }
        i += 1;
    }
    assert(views(names@).take(names@.len() as int) == views(names@));
    r
}

impl Default for FuzzyFinderState {
    fn default() -> (r: Self)
        ensures
            r.list_state == (ListState { offset: 0, selected: None }),
            r.query@.len() == 0,
            r.filtered_signals@.len() == 0,
            r.all_signals@.len() == 0,
            r.selected_signals@.len() == 0,
            r.wf(),
    {
        FuzzyFinderState {
            list_state: ListState::default(),
            query: String::new(),
            filtered_signals: Vec::new(),
            all_signals: Vec::new(),
            selected_signals: Vec::new(),
        }
    }
}

/// Orders names with scores by their scores, the highest first; names of
/// the same score keep their order.
pub fn rank(items: &Vec<(String, i64)>) -> (r: Vec<(String, i64)>)
    ensures
        scored_views(r@) == ranked(scored_views(items@)),
{
    let mut r: Vec<(String, i64)> = Vec::new();
    let mut i: usize = 0;
    while i < items.len()
        invariant
            i <= items.len(),
            scored_views(r@) == ranked(scored_views(items@).take(i as int)),
        decreases items.len() - i,
    {
        let score = items[i].1;
        let ghost before = scored_views(r@);
        let mut at: usize = 0;
        while at < r.len() && r[at].1 >= score
            invariant
                at <= r.len(),
                before == scored_views(r@),
                first_below(before, 0, score) == first_below(before, at as int, score),
            decreases r.len() - at,
        {
            at += 1;
        }
        proof {
            let t = scored_views(items@).take(i + 1);
            assert(t.drop_last() == scored_views(items@).take(i as int));
            assert(t.last() == (items@[i as int].0@, score));
        }
        r.insert(at, (items[i].0.clone(), score));
        assert(scored_views(r@) =~= before.insert(at as int, (items@[i as int].0@, score)));
        i += 1;
    }
    assert(scored_views(items@).take(items@.len() as int) == scored_views(items@));
    r
}

impl FuzzyFinderState {
    /// The signals that match the query, each with its score, in the
    /// order of the signals.
    pub fn scored_matches(&self) -> (r: Vec<(String, i64)>)
        ensures
            scored_views(r@) == matches(views(self.all_signals@), self.query@),
    {
        let query = chars_of(self.query.as_str());
        let mut scored: Vec<(String, i64)> = Vec::new();
        let mut i: usize = 0;
        while i < self.all_signals.len()
            invariant
                i <= self.all_signals.len(),
                query@ == self.query@,
                scored_views(scored@) == matches(
                    views(self.all_signals@).take(i as int),
                    self.query@,
                ),
            decreases self.all_signals.len() - i,
        {
            let signal = &self.all_signals[i];
            proof {
                let t = views(self.all_signals@).take(i + 1);
                assert(t.drop_last() == views(self.all_signals@).take(i as int));
            }
            let fits = chars_of(signal.as_str()).len() <= MAX_MATCH_LENGTH && query.len()
                <= MAX_MATCH_LENGTH;
            let score = if fits {
                fuzzy_match(signal.as_str(), self.query.as_str())
            } else {
                None
            };
            match score {
                Some(score) => {
                    let ghost before = scored_views(scored@);
                    scored.push((signal.clone(), score));
                    assert(scored_views(scored@) =~= before.push((signal@, score)));
                },
                None => {},
            }
            i += 1;
        }
        assert(views(self.all_signals@).take(self.all_signals@.len() as int) == views(
            self.all_signals@,
        ));
        scored
    }

    /// Whether the chosen signals are a set: no name stands twice among
    /// them. A fresh state has it so, and every method keeps it so.
    pub open spec fn wf(&self) -> bool {
        views(self.selected_signals@).no_duplicates()
    }

    /// Whether `after` is `self` with the filtered signals and the
    /// highlight brought up to the query.
    pub open spec fn refreshed(&self, after: Self) -> bool {
        &&& after.query == self.query
        &&& after.all_signals == self.all_signals
        &&& after.selected_signals == self.selected_signals
        &&& views(after.filtered_signals@) == filtered(views(self.all_signals@), self.query@)
        &&& after.list_state == highlight_after(self.list_state, after.filtered_signals@.len())
    }

    /// Brings the filtered signals and the highlight up to the query.
    pub fn update_filtered_signals(&mut self)
        ensures
            old(self).refreshed(*final(self)),
    {
        let query = chars_of(self.query.as_str());
        if query.len() == 0 {
            self.filtered_signals = clone_names(&self.all_signals);
        } else {
            let scored = rank(&self.scored_matches());
            let mut names: Vec<String> = Vec::new();
            let mut k: usize = 0;
            while k < scored.len()
                invariant
                    k <= scored.len(),
                    names@.len() == k,
                    forall|j: int| 0 <= j < k ==> names@[j]@ == scored@[j].0@,
                decreases scored.len() - k,
            {
                names.push(scored[k].0.clone());
                k += 1;
            }
            assert(views(names@) =~= names_of(scored_views(scored@)));
            self.filtered_signals = names;
        }
        let count = self.filtered_signals.len();
        match self.list_state.selected() {
            Some(selected) => {
                if selected >= count {
                    if count == 0 {
                        self.list_state.select(None);
                    } else {
                        self.list_state.select(Some(0));
                    }
                }
            },
            None => {
                if count > 0 {
                    self.list_state.select(Some(0));
                }
            },
        }
    }

    /// Takes over the signals of a dump, with those on display as the
    /// chosen ones, and highlights the first signal.
    pub fn set_signals(&mut self, signals: Vec<String>, displayed_signals: &[String])
        ensures
            final(self).query == old(self).query,
            final(self).all_signals == signals,
            views(final(self).selected_signals@) == with_names(
                Seq::empty(),
                views(displayed_signals@),
            ),
            views(final(self).filtered_signals@) == filtered(views(signals@), old(self).query@),
            final(self).list_state.selected == if final(self).filtered_signals@.len() > 0 {
                Some(0usize)
            } else {
                None
            },
            final(self).wf(),
    {
        proof {
            lemma_with_names_unique(Seq::empty(), views(displayed_signals@));
        }
        self.all_signals = signals;
        let mut chosen: Vec<String> = Vec::new();
        let mut i: usize = 0;
        while i < displayed_signals.len()
            invariant
                i <= displayed_signals.len(),
                views(chosen@) == with_names(
                    Seq::empty(),
                    views(displayed_signals@).take(i as int),
                ),
            decreases displayed_signals.len() - i,
        {
            proof {
                let t = views(displayed_signals@).take(i + 1);
                assert(t.drop_last() == views(displayed_signals@).take(i as int));
            }
            insert_name(&mut chosen, displayed_signals[i].as_str());
            i += 1;
        }
        assert(views(displayed_signals@).take(displayed_signals@.len() as int) == views(
            displayed_signals@,
        ));
        self.selected_signals = chosen;
        self.update_filtered_signals();
        if self.filtered_signals.len() > 0 {
            self.list_state.select(Some(0));
        }
    }

    /// Adds a character to the query.
    pub fn handle_input(&mut self, c: char)
        ensures
            final(self).query@ == old(self).query@.push(c),
            (FuzzyFinderState { query: final(self).query, ..*old(self) }).refreshed(*final(self)),
    {
        self.query.push(c);
        self.update_filtered_signals();
    }

    /// Takes the last character off the query, if it has one.
    pub fn handle_backspace(&mut self)
        ensures
            old(self).query@.len() == 0 ==> *final(self) == *old(self),
            old(self).query@.len() > 0 ==> final(self).query@ == old(self).query@.drop_last() && (
            FuzzyFinderState { query: final(self).query, ..*old(self) }).refreshed(*final(self)),
    {
        let mut query = chars_of(self.query.as_str());
        if query.len() > 0 {
            query.pop();
            self.query = string_of(&query);
            self.update_filtered_signals();
        }
    }

    /// The place of the highlight after a step down the list: behind the
    /// last entry it starts again at the first.
    pub open spec fn next_place(&self) -> usize {
        match self.list_state.selected {
            Some(i) => if i + 1 >= self.filtered_signals@.len() {
                0
            } else {
                (i + 1) as usize
            },
            None => 0,
        }
    }

    /// The place of the highlight after a step up the list: before the
    /// first entry it goes on at the last.
    pub open spec fn previous_place(&self) -> usize {
        match self.list_state.selected {
            Some(i) => if i == 0 {
                if self.filtered_signals@.len() > 0 {
                    (self.filtered_signals@.len() - 1) as usize
                } else {
                    0
                }
            } else {
                (i - 1) as usize
            },
            None => 0,
        }
    }

    /// Moves the highlight one entry down.
    pub fn select_next(&mut self)
        ensures
            *final(self) == (FuzzyFinderState {
                list_state: ListState {
                    selected: Some(old(self).next_place()),
                    ..old(self).list_state
                },
                ..*old(self)
            }),
    {
        let count = self.filtered_signals.len();
        let place = match self.list_state.selected() {
            Some(i) => {
                if count == 0 || i >= count - 1 {
                    0
                } else {
                    i + 1
                }
            },
            None => 0,
        };
        self.list_state.select(Some(place));
    }

    /// Moves the highlight one entry up.
    pub fn select_previous(&mut self)
        ensures
            *final(self) == (FuzzyFinderState {
                list_state: ListState {
                    selected: Some(old(self).previous_place()),
                    ..old(self).list_state
                },
                ..*old(self)
            }),
    {
        let count = self.filtered_signals.len();
        let place = match self.list_state.selected() {
            Some(i) => {
                if i == 0 {
                    if count > 0 {
                        count - 1
                    } else {
                        0
                    }
                } else {
                    i - 1
                }
            },
            None => 0,
        };
        self.list_state.select(Some(place));
    }

    /// Chooses the highlighted signal, or takes it back if it is chosen.
    pub fn toggle_selected_signal(&mut self)
        ensures
            *final(self) == (FuzzyFinderState {
                selected_signals: final(self).selected_signals,
                ..*old(self)
            }),
            views(final(self).selected_signals@) == match old(self).list_state.selected {
                Some(i) => if i < old(self).filtered_signals@.len() {
                    toggled(views(old(self).selected_signals@), old(self).filtered_signals@[i as int]@)
                } else {
                    views(old(self).selected_signals@)
                },
                None => views(old(self).selected_signals@),
            },
            old(self).wf() ==> final(self).wf(),
    {
        proof {
            if self.wf() {
                match self.list_state.selected {
                    Some(i) => if i < self.filtered_signals@.len() {
                        lemma_toggled_unique(
                            views(self.selected_signals@),
                            self.filtered_signals@[i as int]@,
                        );
                    },
                    None => {},
                }
            }
        }
        match self.list_state.selected() {
            Some(index) => {
                if index < self.filtered_signals.len() {
                    let signal = &self.filtered_signals[index];
                    if has_name(&self.selected_signals, signal.as_str()) {
                        self.selected_signals = remove_name(
                            &self.selected_signals,
                            signal.as_str(),
                        );
                    } else {
                        self.selected_signals.push(signal.clone());
                    }
                }
            },
            None => {},
        }
    }

    /// The chosen signals.
    pub fn get_selected_signals(&self) -> (r: Vec<String>)
        ensures
            r@ == self.selected_signals@,
    {
        clone_names(&self.selected_signals)
    }

    /// Takes every choice back.
    pub fn clear_selection(&mut self)
        ensures
            final(self).selected_signals@.len() == 0,
            final(self).wf(),
            *final(self) == (FuzzyFinderState {
                selected_signals: final(self).selected_signals,
                ..*old(self)
            }),
    {
        self.selected_signals = Vec::new();
    }

    /// Chooses every filtered signal.
    pub fn select_all(&mut self)
        ensures
            *final(self) == (FuzzyFinderState {
                selected_signals: final(self).selected_signals,
                ..*old(self)
            }),
            views(final(self).selected_signals@) == with_names(
                views(old(self).selected_signals@),
                views(old(self).filtered_signals@),
            ),
            old(self).wf() ==> final(self).wf(),
    {
        proof {
            if self.wf() {
                lemma_with_names_unique(
                    views(self.selected_signals@),
                    views(self.filtered_signals@),
                );
            }
        }
        let mut i: usize = 0;
        while i < self.filtered_signals.len()
            invariant
                i <= self.filtered_signals.len(),
                *self == (FuzzyFinderState {
                    selected_signals: self.selected_signals,
                    ..*old(self)
                }),
                views(self.selected_signals@) == with_names(
                    views(old(self).selected_signals@),
                    views(self.filtered_signals@).take(i as int),
                ),
            decreases self.filtered_signals.len() - i,
        {
            proof {
                let t = views(self.filtered_signals@).take(i + 1);
                assert(t.drop_last() == views(self.filtered_signals@).take(i as int));
            }
            let signal = self.filtered_signals[i].clone();
            insert_name(&mut self.selected_signals, signal.as_str());
            i += 1;
        }
        assert(views(self.filtered_signals@).take(self.filtered_signals@.len() as int) == views(
            self.filtered_signals@,
        ));
    }
}

} // verus!
