//! One project search: the query that is running or ran last, the matches
//! found so far, and the history of queries.

use crate::search::history::SearchHistory;
use crate::search::history::SearchHistoryView;
use crate::search::query::query_view;
use crate::search::query::SearchInputs;
use crate::search::query::SearchInputsView;
use crate::search::query::SearchQuery;
use crate::search::query::SearchQueryView;
use vstd::prelude::*;
use vstd::string::StringExecFns;

verus! {

/// The place of one match in the list of results.
#[derive(Clone, Copy, Debug, PartialEq, Eq, Structural)]
pub struct MatchRange {
    pub start: usize,
    pub end: usize,
}

impl MatchRange {
    /// The empty range at the start of this one. Of a hit of the semantic
    /// index only the start is shown, with its surroundings.
    pub fn collapsed_to_start(&self) -> (range: MatchRange)
        ensures
            range == (MatchRange { start: self.start, end: self.start }),
    {
        MatchRange { start: self.start, end: self.start }
    }
}

/// How many lines around a match of a text or regular-expression search
/// are shown with it.
pub const SEARCH_CONTEXT_LINES: u32 = 1;

/// How many lines around a hit of the semantic index are shown with it.
pub const SEMANTIC_CONTEXT_LINES: u32 = 3;

/// How many hits a semantic search asks the index for.
pub const SEMANTIC_RESULT_LIMIT: usize = 10;

/// The state of one project search. Searches are numbered; what a search
/// reports counts only while that search is the pending one.
#[derive(Debug, PartialEq, Eq)]
pub struct ProjectSearch {
    /// The number of the project that is searched.
    pub project: u64,
    /// The number of the search that is under way, if one is.
    pub pending_search: Option<usize>,
    pub match_ranges: Vec<MatchRange>,
    pub active_query: Option<SearchQuery>,
    /// The number of the latest search.
    pub search_id: usize,
    pub search_history: SearchHistory,
    /// Whether the latest search has found nothing so far; unknown before
    /// its first report.
    pub no_results: Option<bool>,
}

/// The model of `ProjectSearch`.
pub struct ProjectSearchState {
    pub project: u64,
    pub pending_search: Option<usize>,
    pub match_ranges: Seq<MatchRange>,
    pub active_query: Option<SearchQueryView>,
    pub search_id: usize,
    pub search_history: SearchHistoryView,
    pub no_results: Option<bool>,
}

impl View for ProjectSearch {
    type V = ProjectSearchState;

    open spec fn view(&self) -> ProjectSearchState {
        ProjectSearchState {
            project: self.project,
            pending_search: self.pending_search,
            match_ranges: self.match_ranges@,
            active_query: query_view(self.active_query),
            search_id: self.search_id,
            search_history: self.search_history@,
            no_results: self.no_results,
        }
    }
}

impl ProjectSearchState {
    /// A search of `project` in which nothing was searched for yet.
    pub open spec fn new(project: u64) -> ProjectSearchState {
        ProjectSearchState {
            project,
            pending_search: None,
            match_ranges: Seq::<MatchRange>::empty(),
            active_query: None,
            search_id: 0,
            search_history: SearchHistoryView::empty(),
            no_results: None,
        }
    }

    /// A copy for a second panel: everything but the search under way,
    /// which stays with the first.
    pub open spec fn split(self) -> ProjectSearchState {
        ProjectSearchState { pending_search: None, ..self }
    }

    /// The state after a text or regular-expression search for `query` was
    /// started: it is the next search in number, it is pending, its query
    /// is the active and the newest in the history, and the matches of
    /// earlier searches are gone.
    pub open spec fn search(self, query: SearchQueryView) -> ProjectSearchState {
        ProjectSearchState {
            search_id: (self.search_id + 1) as usize,
            search_history: self.search_history.add(query.inner.query),
            active_query: Some(query),
            match_ranges: Seq::<MatchRange>::empty(),
            pending_search: Some((self.search_id + 1) as usize),
            ..self
        }
    }

    /// The state after a semantic search for `inputs` was started. The
    /// active query stays what it was; whether there are results is
    /// unknown again.
    pub open spec fn semantic_search(self, inputs: SearchInputsView) -> ProjectSearchState {
        ProjectSearchState {
            search_id: (self.search_id + 1) as usize,
            match_ranges: Seq::<MatchRange>::empty(),
            search_history: self.search_history.add(inputs.query),
            no_results: None,
            pending_search: Some((self.search_id + 1) as usize),
            ..self
        }
    }

    /// What holds of every search that was driven through its operations:
    /// only the latest search can be pending.
    pub open spec fn latest_is_pending(self) -> bool {
        self.pending_search matches Some(pending) ==> pending == self.search_id
    }

    /// Whether what search number `search_id` reports still counts.
    pub open spec fn is_pending(self, search_id: usize) -> bool {
        self.pending_search == Some(search_id)
    }

    /// The state after search `search_id` began to report: so far it has
    /// found nothing.
    pub open spec fn results_started(self, search_id: usize) -> ProjectSearchState {
        if self.is_pending(search_id) {
            ProjectSearchState {
                match_ranges: Seq::<MatchRange>::empty(),
                no_results: Some(true),
                ..self
            }
        } else {
            self
        }
    }

    /// The state after search `search_id` reported the matches of one more
    /// file.
    pub open spec fn matches_found(
        self,
        search_id: usize,
        ranges: Seq<MatchRange>,
    ) -> ProjectSearchState {
        if self.is_pending(search_id) {
            ProjectSearchState {
                no_results: Some(false),
                match_ranges: self.match_ranges + ranges,
                ..self
            }
        } else {
            self
        }
    }

    /// The state after search `search_id` came to its end.
    pub open spec fn search_finished(self, search_id: usize) -> ProjectSearchState {
        if self.is_pending(search_id) {
            ProjectSearchState { pending_search: None, ..self }
        } else {
            self
        }
    }

    /// The state without results and without a search under way.
    pub open spec fn clear(self) -> ProjectSearchState {
        ProjectSearchState {
            pending_search: None,
            no_results: None,
            match_ranges: Seq::<MatchRange>::empty(),
            ..self
        }
    }
}

impl ProjectSearch {
    /// A search of `project` in which nothing was searched for yet.
    pub fn new(project: u64) -> (search: Self)
        ensures
            search@ == ProjectSearchState::new(project),
    {
        ProjectSearch {
            project,
            pending_search: None,
            match_ranges: Vec::new(),
            active_query: None,
            search_id: 0,
            search_history: SearchHistory::new(),
            no_results: None,
        }
    }

    /// A copy for a second panel: everything but the search under way.
    pub fn clone(&self) -> (copy: Self)
        ensures
            copy@ == self@.split(),
    {
        ProjectSearch {
            project: self.project,
            pending_search: None,
            match_ranges: self.match_ranges.clone(),
            active_query: match &self.active_query {
                Some(query) => Some(query.clone()),
                None => None,
            },
            search_id: self.search_id,
            search_history: self.search_history.duplicate(),
            no_results: self.no_results,
        }
    }

    /// Starts a text or regular-expression search for `query` and returns
    /// its number. The host runs the search and reports under that number.
    pub fn search(&mut self, query: SearchQuery) -> (search_id: usize)
        requires
            old(self).search_id < usize::MAX,
        ensures
            final(self)@ == old(self)@.search(query@),
            search_id == old(self).search_id + 1,
    {
        self.search_id += 1;
        self.search_history.add(String::from_str(query.as_str()));
        self.active_query = Some(query);
        self.match_ranges.clear();
        self.pending_search = Some(self.search_id);
        self.search_id
    }

    /// Starts a semantic search for `inputs` and returns its number. The
    /// host runs the search and reports under that number.
    pub fn semantic_search(&mut self, inputs: &SearchInputs) -> (search_id: usize)
        requires
            old(self).search_id < usize::MAX,
        ensures
            final(self)@ == old(self)@.semantic_search(inputs@),
            search_id == old(self).search_id + 1,
    {
        self.search_id += 1;
        self.match_ranges.clear();
        self.search_history.add(String::from_str(inputs.as_str()));
        self.no_results = None;
        self.pending_search = Some(self.search_id);
        self.search_id
    }

    /// Whether what search number `search_id` reports still counts: it
    /// does while that search is the pending one.
    pub fn is_pending(&self, search_id: usize) -> (pending: bool)
        ensures
            pending == self@.is_pending(search_id),
    {
        match self.pending_search {
            Some(pending) => pending == search_id,
            None => false,
        }
    }

    /// Search `search_id` begins to report. Returns whether that counted.
    pub fn results_started(&mut self, search_id: usize) -> (applied: bool)
        ensures
            final(self)@ == old(self)@.results_started(search_id),
            applied == old(self)@.is_pending(search_id),
    {
        if !self.is_pending(search_id) {
            return false;
        }
        self.match_ranges.clear();
        self.no_results = Some(true);
        true
    }

    /// Search `search_id` reports the matches of one more file. Returns
    /// whether that counted.
    pub fn matches_found(&mut self, search_id: usize, ranges: &Vec<MatchRange>) -> (applied: bool)
        ensures
            final(self)@ == old(self)@.matches_found(search_id, ranges@),
            applied == old(self)@.is_pending(search_id),
    {
        if !self.is_pending(search_id) {
            return false;
        }
        self.no_results = Some(false);
        let mut i: usize = 0;
        while i < ranges.len()
            invariant
                i <= ranges.len(),
                self.match_ranges@ == old(self).match_ranges@ + ranges@.take(i as int),
                self.project == old(self).project,
                self.pending_search == old(self).pending_search,
                self.active_query == old(self).active_query,
                self.search_id == old(self).search_id,
                self.search_history == old(self).search_history,
                self.no_results == Some(false),
            decreases ranges.len() - i,
        {
            self.match_ranges.push(ranges[i]);
            i += 1;
        }
        proof {
            assert(ranges@.take(ranges.len() as int) == ranges@);
        }
        true
    }

    /// Search `search_id` came to its end. Returns whether that counted.
    pub fn search_finished(&mut self, search_id: usize) -> (applied: bool)
        ensures
            final(self)@ == old(self)@.search_finished(search_id),
            applied == old(self)@.is_pending(search_id),
    {
        if !self.is_pending(search_id) {
            return false;
        }
        self.pending_search = None;
        true
    }

    /// Drops the results and the search under way.
    pub fn clear(&mut self)
        ensures
            final(self)@ == old(self)@.clear(),
    {
        self.pending_search = None;
        self.no_results = None;
        self.match_ranges.clear();
    }
}

/// A search that was superseded reports in vain: whatever it reports under
/// its number changes nothing.
pub proof fn lemma_superseded_search_is_ignored(
    state: ProjectSearchState,
    search_id: usize,
    ranges: Seq<MatchRange>,
)
    requires
        state.pending_search != Some(search_id),
    ensures
        state.results_started(search_id) == state,
        state.matches_found(search_id, ranges) == state,
        state.search_finished(search_id) == state,
{
}

/// Every new search has a number higher than all before it, and supersedes
/// the search that was pending.
pub proof fn lemma_search_ids_increase(
    state: ProjectSearchState,
    query: SearchQueryView,
    inputs: SearchInputsView,
)
    requires
        state.search_id < usize::MAX,
        state.pending_search matches Some(pending) ==> pending <= state.search_id,
    ensures
        state.search(query).search_id == state.search_id + 1,
        state.semantic_search(inputs).search_id == state.search_id + 1,
        state.search(query).pending_search == Some(state.search(query).search_id),
        state.semantic_search(inputs).pending_search == Some(
            state.semantic_search(inputs).search_id,
        ),
        state.pending_search matches Some(pending) ==> !state.search(query).is_pending(pending)
            && !state.semantic_search(inputs).is_pending(pending),
{
}

/// Only the latest search is ever pending: that holds of a new search, and
/// every operation keeps it. So what counts is only ever reported by the
/// latest search.
pub proof fn lemma_only_latest_search_is_pending(
    state: ProjectSearchState,
    project: u64,
    query: SearchQueryView,
    inputs: SearchInputsView,
    search_id: usize,
    ranges: Seq<MatchRange>,
)
    requires
        state.latest_is_pending(),
        state.search_id < usize::MAX,
    ensures
        ProjectSearchState::new(project).latest_is_pending(),
        state.split().latest_is_pending(),
        state.search(query).latest_is_pending(),
        state.semantic_search(inputs).latest_is_pending(),
        state.results_started(search_id).latest_is_pending(),
        state.matches_found(search_id, ranges).latest_is_pending(),
        state.search_finished(search_id).latest_is_pending(),
        state.clear().latest_is_pending(),
        state.is_pending(search_id) ==> search_id == state.search_id,
{
}

/// The matches only grow while a search reports, in the order of the
/// reports, and the first report of matches ends the doubt whether there
/// are results.
pub proof fn lemma_matches_accumulate(
    state: ProjectSearchState,
    search_id: usize,
    first: Seq<MatchRange>,
    second: Seq<MatchRange>,
)
    requires
        state.is_pending(search_id),
    ensures
        state.results_started(search_id).match_ranges == Seq::<MatchRange>::empty(),
        state.results_started(search_id).no_results == Some(true),
        state.matches_found(search_id, first).no_results == Some(false),
        state.matches_found(search_id, first).matches_found(search_id, second).match_ranges
            == state.match_ranges + first + second,
        state.results_started(search_id).matches_found(search_id, first).matches_found(
            search_id,
            second,
        ).search_finished(search_id).match_ranges == first + second,
        state.matches_found(search_id, first).search_finished(search_id).pending_search is None,
{
}

} // verus!
