//! The queries that were searched for, oldest first, with a cursor that
//! steps back and forth through them.

use vstd::prelude::*;

verus! {

/// Past queries and the one that is selected, if any.
#[derive(Debug, PartialEq, Eq)]
pub struct SearchHistory {
    history: Vec<String>,
    selected: Option<usize>,
}

/// The model of `SearchHistory`.
pub struct SearchHistoryView {
    pub entries: Seq<Seq<char>>,
    pub selected: Option<int>,
}

impl SearchHistoryView {
    /// The selection, where there is one, points at an entry.
    pub open spec fn wf(self) -> bool {
        self.selected matches Some(i) ==> 0 <= i < self.entries.len()
    }

    /// A history without entries.
    pub open spec fn empty() -> SearchHistoryView {
        SearchHistoryView { entries: Seq::<Seq<char>>::empty(), selected: None }
    }

    /// The history after `query` was searched for: it is the newest entry
    /// and the selected one.
    pub open spec fn add(self, query: Seq<char>) -> SearchHistoryView {
        SearchHistoryView {
            entries: self.entries.push(query),
            selected: Some(self.entries.len() as int),
        }
    }

    /// The selected entry.
    pub open spec fn current(self) -> Option<Seq<char>> {
        match self.selected {
            Some(i) => Some(self.entries[i]),
            None => None,
        }
    }

    /// One step towards the newest entry: the history after it and the
    /// entry arrived at. Without a selection, or from the newest entry,
    /// there is no step.
    pub open spec fn next(self) -> (SearchHistoryView, Option<Seq<char>>) {
        match self.selected {
            Some(i) if i + 1 < self.entries.len() => (
                SearchHistoryView { selected: Some(i + 1), ..self },
                Some(self.entries[i + 1]),
            ),
            _ => (self, None),
        }
    }

    /// One step towards the oldest entry: the history after it and the
    /// entry arrived at. Without a selection the step leads to the newest
    /// entry; from the oldest entry, or in an empty history, there is no
    /// step.
    pub open spec fn previous(self) -> (SearchHistoryView, Option<Seq<char>>) {
        if self.entries.len() == 0 {
            (self, None)
        } else {
            match self.selected {
                Some(i) => if i == 0 {
                    (self, None)
                } else {
                    (SearchHistoryView { selected: Some(i - 1), ..self }, Some(self.entries[i - 1]))
                },
                None => (
                    SearchHistoryView { selected: Some(self.entries.len() - 1), ..self },
                    Some(self.entries.last()),
                ),
            }
        }
    }

    /// The history with nothing selected.
    pub open spec fn reset_selection(self) -> SearchHistoryView {
        SearchHistoryView { selected: None, ..self }
    }

    /// The history after each of `queries` was searched for in turn.
    pub open spec fn add_all(self, queries: Seq<Seq<char>>) -> SearchHistoryView
        decreases queries.len(),
    {
        if queries.len() == 0 {
            self
        } else {
            self.add_all(queries.drop_last()).add(queries.last())
        }
    }

    /// The history after `steps` steps towards the oldest entry.
    pub open spec fn previous_times(self, steps: nat) -> SearchHistoryView
        decreases steps,
    {
        if steps == 0 {
            self
        } else {
            self.previous_times((steps - 1) as nat).previous().0
        }
    }
}

impl View for SearchHistory {
    type V = SearchHistoryView;

    closed spec fn view(&self) -> SearchHistoryView {
        SearchHistoryView {
            entries: Seq::new(self.history@.len(), |i: int| self.history@[i]@),
            selected: match self.selected {
                Some(i) => Some(i as int),
                None => None,
            },
        }
    }
}

impl SearchHistory {
    #[verifier::type_invariant]
    spec fn selection_in_range(self) -> bool {
        self.selected matches Some(i) ==> i < self.history@.len()
    }

    /// A history without entries.
    pub fn new() -> (history: Self)
        ensures
            history@ == SearchHistoryView::empty(),
            history@.wf(),
    {
        let history = SearchHistory { history: Vec::new(), selected: None };
        proof {
            assert(history@.entries =~= Seq::<Seq<char>>::empty());
        }
        history
    }

    /// A copy of this history.
    pub fn duplicate(&self) -> (copy: Self)
        ensures
            copy@ == self@,
            copy@.wf(),
    {
        proof {
            use_type_invariant(self);
        }
        let mut history: Vec<String> = Vec::new();
        let mut i: usize = 0;
        while i < self.history.len()
            invariant
                i <= self.history.len(),
                history@.len() == i,
                forall|j: int| 0 <= j < i ==> history@[j]@ == self.history@[j]@,
            decreases self.history.len() - i,
        {
            history.push(self.history[i].clone());
            i += 1;
        }
        let copy = SearchHistory { history, selected: self.selected };
        proof {
            assert(copy@.entries =~= self@.entries);
        }
        copy
    }

    /// Records that `search_string` was searched for and selects it.
    pub fn add(&mut self, search_string: String)
        ensures
            final(self)@ == old(self)@.add(search_string@),
            final(self)@.wf(),
    {
        // The entries are taken out, extended and put back as a whole, so
        // that the selection points at an entry at every step.
        let mut taken = SearchHistory { history: Vec::new(), selected: None };
        core::mem::swap(self, &mut taken);
        let SearchHistory { history, selected: _ } = taken;
        let mut history = history;
        history.push(search_string);
        let newest = history.len() - 1;
        *self = SearchHistory { history, selected: Some(newest) };
        proof {
            assert(self@.entries =~= old(self)@.entries.push(search_string@));
        }
    }

    /// Steps to the entry after the selected one and returns it; `None`
    /// when nothing is selected or the newest entry is.
    pub fn next(&mut self) -> (entry: Option<String>)
        ensures
            final(self)@ == old(self)@.next().0,
            crate::text::list::option_view(entry) == old(self)@.next().1,
            final(self)@.wf(),
    {
        proof {
            use_type_invariant(&*self);
        }
        let history_size = self.history.len();
        if history_size == 0 {
            return None;
        }
        let selected = match self.selected {
            Some(selected) => selected,
            None => {
                return None;
            },
        };
        if selected == history_size - 1 {
            return None;
        }
        let next_index = selected + 1;
        self.selected = Some(next_index);
        Some(self.history[next_index].clone())
    }

    /// The selected entry.
    pub fn current(&self) -> (entry: Option<String>)
        ensures
            crate::text::list::option_view(entry) == self@.current(),
    {
        proof {
            use_type_invariant(self);
        }
        match self.selected {
            Some(selected) => Some(self.history[selected].clone()),
            None => None,
        }
    }

    /// Steps to the entry before the selected one, or to the newest entry
    /// when nothing is selected, and returns it; `None` when the oldest
    /// entry is selected or there are no entries.
    pub fn previous(&mut self) -> (entry: Option<String>)
        ensures
            final(self)@ == old(self)@.previous().0,
            crate::text::list::option_view(entry) == old(self)@.previous().1,
            final(self)@.wf(),
    {
        proof {
            use_type_invariant(&*self);
        }
        let history_size = self.history.len();
        if history_size == 0 {
            return None;
        }
        let prev_index = match self.selected {
            Some(selected_index) => {
                if selected_index == 0 {
                    return None;
                } else {
                    selected_index - 1
                }
            },
            None => history_size - 1,
        };
        self.selected = Some(prev_index);
        Some(self.history[prev_index].clone())
    }

    /// Selects nothing.
    pub fn reset_selection(&mut self)
        ensures
            final(self)@ == old(self)@.reset_selection(),
            final(self)@.wf(),
    {
        self.selected = None;
    }

    /// The entries, oldest first.
    pub fn entries(&self) -> (entries: Vec<String>)
        ensures
            crate::text::list::views(entries@) == self@.entries,
    {
        let mut entries: Vec<String> = Vec::new();
        let mut i: usize = 0;
        while i < self.history.len()
            invariant
                i <= self.history.len(),
                entries@.len() == i,
                forall|j: int| 0 <= j < i ==> entries@[j]@ == self.history@[j]@,
            decreases self.history.len() - i,
        {
            entries.push(self.history[i].clone());
            i += 1;
        }
        entries
    }
}

/// Searching keeps a history well formed.
pub proof fn lemma_add_keeps_wf(history: SearchHistoryView, query: Seq<char>)
    ensures
        history.add(query).wf(),
{
}

/// Stepping through a well-formed history keeps it well formed and leaves
/// its entries alone.
pub proof fn lemma_steps_keep_wf(history: SearchHistoryView)
    requires
        history.wf(),
    ensures
        history.next().0.wf(),
        history.previous().0.wf(),
        history.reset_selection().wf(),
        history.next().0.entries == history.entries,
        history.previous().0.entries == history.entries,
{
}

/// After any number of searches the history is well formed, and once at
/// least one was made the newest entry is the last query and is selected.
pub proof fn lemma_after_searches(history: SearchHistoryView, queries: Seq<Seq<char>>)
    requires
        history.wf(),
    ensures
        history.add_all(queries).wf(),
        history.add_all(queries).entries == history.entries + queries,
        queries.len() > 0 ==> history.add_all(queries).selected == Some(
            history.entries.len() + queries.len() - 1,
        ),
        queries.len() > 0 ==> history.add_all(queries).current() == Some(queries.last()),
    decreases queries.len(),
{
    if queries.len() > 0 {
        lemma_after_searches(history, queries.drop_last());
        assert(history.entries + queries =~= (history.entries + queries.drop_last()).push(
            queries.last(),
        ));
    }
}

/// Right after a search there is no next entry: the step forward fails and
/// changes nothing.
pub proof fn lemma_no_next_after_search(history: SearchHistoryView, queries: Seq<Seq<char>>)
    requires
        history.wf(),
        queries.len() > 0,
    ensures
        history.add_all(queries).next() == (history.add_all(queries), None::<Seq<char>>),
{
    lemma_after_searches(history, queries);
}

/// With nothing selected, the step back leads to the most recent query.
pub proof fn lemma_previous_from_no_selection(history: SearchHistoryView)
    requires
        history.entries.len() > 0,
    ensures
        history.reset_selection().previous().1 == Some(history.entries.last()),
        history.reset_selection().previous().0.selected == Some(history.entries.len() - 1),
{
}

/// The step back stops at the oldest entry: from there it fails and changes
/// nothing.
pub proof fn lemma_previous_stops_at_oldest(history: SearchHistoryView)
    requires
        history.selected == Some(0int),
    ensures
        history.previous() == (history, None::<Seq<char>>),
{
}

/// Where the selection rests after `steps` steps back from `history`: one
/// entry further back per step, the first step from no selection leading to
/// the newest entry, and never before the oldest entry.
pub open spec fn selection_after_previous(history: SearchHistoryView, steps: nat) -> int {
    let start = match history.selected {
        Some(i) => i,
        None => history.entries.len() as int,
    };
    if start - steps < 0 {
        0
    } else {
        start - steps
    }
}

/// However many steps back are taken in a history with entries, the
/// entries stay as they are and the selection never leaves them: it moves
/// back one entry per step until it rests on the oldest one.
pub proof fn lemma_previous_is_bounded(history: SearchHistoryView, steps: nat)
    requires
        history.wf(),
        history.entries.len() > 0,
    ensures
        history.previous_times(steps).wf(),
        history.previous_times(steps).entries == history.entries,
        steps > 0 ==> history.previous_times(steps).selected == Some(
            selection_after_previous(history, steps),
        ),
        steps >= history.entries.len() ==> history.previous_times(steps).selected == Some(0int),
    decreases steps,
{
    if steps > 0 {
        lemma_previous_is_bounded(history, (steps - 1) as nat);
    }
}

} // verus!
