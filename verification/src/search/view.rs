//! The search panel: the inputs, the options and the mode of a project
//! search, and the match that is selected among its results.
//!
//! The panel is a state machine. Whatever only the host can find out (which
//! match lies under the cursor, whether a filter compiles, what the user
//! answered) comes in as an argument; whatever only the host can do (run a
//! search, select a range, ask the user) goes out as a result.

use crate::search::events::spec_to_item_events;
use crate::search::events::EditorEvent;
use crate::search::events::InputPanel;
use crate::search::events::ItemEvent;
use crate::search::events::PanelErrors;
use crate::search::events::SearchFocus;
use crate::search::events::ToolbarItemLocation;
use crate::search::events::ViewEvent;
use crate::search::mode::SearchMode;
use crate::search::model::MatchRange;
use crate::search::model::ProjectSearch;
use crate::search::model::ProjectSearchState;
use crate::search::options::SearchOptions;
use crate::search::query::QueryKind;
use crate::search::query::QueryValidation;
use crate::search::query::SearchInputs;
use crate::search::query::SearchInputsView;
use crate::search::query::SearchQuery;
use crate::search::query::SearchQueryView;
use crate::search::semantic::SemanticIndexStatus;
use crate::search::semantic::SemanticState;
use crate::search::settings::settings_of;
use crate::search::settings::ActiveSettings;
use crate::search::settings::ProjectSearchSettings;
use crate::text::list::comma_separated;
use crate::text::list::contains_char;
use crate::text::list::join;
use crate::text::list::joined;
use crate::text::list::option_view;
use crate::text::list::split_comma_separated;
use crate::text::list::views;
use crate::text::title::spec_truncate_and_trailoff;
use crate::text::title::truncate_and_trailoff;
use vstd::prelude::*;
use vstd::string::StringExecFns;

verus! {

/// The most characters of a query that the title of a tab shows.
pub const MAX_TAB_TITLE_LEN: usize = 24;

/// The search panel. The four editors stand for the text they hold.
#[derive(Debug, PartialEq, Eq)]
pub struct ProjectSearchView {
    pub model: ProjectSearch,
    pub query_editor: String,
    pub replacement_editor: String,
    pub semantic_state: Option<SemanticState>,
    /// Whether the user allowed the project to be indexed; unknown until
    /// asked.
    pub semantic_permissioned: Option<bool>,
    pub search_options: SearchOptions,
    pub panels_with_errors: PanelErrors,
    pub active_match_index: Option<usize>,
    /// The number of the search whose results the panel shows.
    pub search_id: usize,
    pub query_editor_was_focused: bool,
    pub included_files_editor: String,
    pub excluded_files_editor: String,
    pub filters_enabled: bool,
    pub replace_enabled: bool,
    pub current_mode: SearchMode,
    /// The part of the panel that holds the keyboard focus, if one does.
    pub focus: Option<SearchFocus>,
}

/// The model of `ProjectSearchView`.
pub struct SearchViewState {
    pub model: ProjectSearchState,
    pub query_editor: Seq<char>,
    pub replacement_editor: Seq<char>,
    pub semantic_state: Option<SemanticState>,
    pub semantic_permissioned: Option<bool>,
    pub search_options: SearchOptions,
    pub panels_with_errors: Set<InputPanel>,
    pub active_match_index: Option<usize>,
    pub search_id: usize,
    pub query_editor_was_focused: bool,
    pub included_files_editor: Seq<char>,
    pub excluded_files_editor: Seq<char>,
    pub filters_enabled: bool,
    pub replace_enabled: bool,
    pub current_mode: SearchMode,
    pub focus: Option<SearchFocus>,
}

impl View for ProjectSearchView {
    type V = SearchViewState;

    open spec fn view(&self) -> SearchViewState {
        SearchViewState {
            model: self.model@,
            query_editor: self.query_editor@,
            replacement_editor: self.replacement_editor@,
            semantic_state: self.semantic_state,
            semantic_permissioned: self.semantic_permissioned,
            search_options: self.search_options,
            panels_with_errors: self.panels_with_errors@,
            active_match_index: self.active_match_index,
            search_id: self.search_id,
            query_editor_was_focused: self.query_editor_was_focused,
            included_files_editor: self.included_files_editor@,
            excluded_files_editor: self.excluded_files_editor@,
            filters_enabled: self.filters_enabled,
            replace_enabled: self.replace_enabled,
            current_mode: self.current_mode,
            focus: self.focus,
        }
    }
}

/// The search that the host is asked to run, if any.
#[derive(Debug, PartialEq, Eq)]
pub enum SearchDispatch {
    /// Nothing is searched for: an input was refused, or semantic search is
    /// not ready.
    NoSearch,
    /// The project is searched for `query`; the search has the number
    /// `search_id`.
    Project { search_id: usize, query: SearchQuery },
    /// The semantic index is searched for `inputs`; the search has the
    /// number `search_id`.
    Semantic { search_id: usize, inputs: SearchInputs },
}

/// The model of `SearchDispatch`.
pub enum SearchDispatchView {
    NoSearch,
    Project { search_id: usize, query: SearchQueryView },
    Semantic { search_id: usize, inputs: SearchInputsView },
}

impl View for SearchDispatch {
    type V = SearchDispatchView;

    open spec fn view(&self) -> SearchDispatchView {
        match self {
            SearchDispatch::NoSearch => SearchDispatchView::NoSearch,
            SearchDispatch::Project { search_id, query } => SearchDispatchView::Project {
                search_id: *search_id,
                query: query@,
            },
            SearchDispatch::Semantic { search_id, inputs } => SearchDispatchView::Semantic {
                search_id: *search_id,
                inputs: inputs@,
            },
        }
    }
}

/// What came of the request to switch to a mode.
#[derive(Debug, PartialEq, Eq)]
pub enum ModeActivation {
    /// The mode was the current one already; nothing changed.
    Unchanged,
    /// Semantic mode is on. Before the project is indexed the host finds
    /// out whether the user allows it: `known` is the answer where the
    /// panel has it; otherwise the index is asked whether the project was
    /// indexed before. The host reports to `semantic_permission_resolved`.
    AwaitPermission { known: Option<bool>, previous_mode: SearchMode },
    /// Text or regular-expression mode is on, and the query was searched
    /// for anew.
    Searched { dispatch: SearchDispatch },
}

/// The model of `ModeActivation`.
pub enum ModeActivationView {
    Unchanged,
    AwaitPermission { known: Option<bool>, previous_mode: SearchMode },
    Searched { dispatch: SearchDispatchView },
}

impl View for ModeActivation {
    type V = ModeActivationView;

    open spec fn view(&self) -> ModeActivationView {
        match self {
            ModeActivation::Unchanged => ModeActivationView::Unchanged,
            ModeActivation::AwaitPermission { known, previous_mode } => {
                ModeActivationView::AwaitPermission { known: *known, previous_mode: *previous_mode }
            },
            ModeActivation::Searched { dispatch } => ModeActivationView::Searched {
                dispatch: dispatch@,
            },
        }
    }
}

/// The view of a mode activation that may be absent.
pub open spec fn activation_view(activation: Option<ModeActivation>) -> Option<
    ModeActivationView,
> {
    match activation {
        Some(a) => Some(a@),
        None => None,
    }
}

/// What the host does to the results after the search has changed.
#[derive(Clone, Copy, Debug, PartialEq, Eq)]
pub struct ModelChanged {
    /// The match to select and scroll to: the first one, when the results
    /// are those of a new search.
    pub select: Option<MatchRange>,
    /// Whether all matches are to be highlighted.
    pub highlight: bool,
    /// Whether the focus moved from the query to the results.
    pub focus_results: bool,
}

/// One replacement: the match to replace, the query that says by what, and
/// the match to select afterwards.
#[derive(Debug, PartialEq, Eq)]
pub struct Replacement {
    pub range: MatchRange,
    pub query: SearchQuery,
    pub select: MatchRange,
}

/// The replacement of every match: the query that says by what, and the
/// matches.
#[derive(Debug, PartialEq, Eq)]
pub struct ReplacementOfAll {
    pub query: SearchQuery,
    pub ranges: Vec<MatchRange>,
}

/// What a tab shows of the panel.
#[derive(Debug, PartialEq, Eq)]
pub struct TabContent {
    pub title: String,
    /// Whether icon and title are shown in the muted colour, as they are
    /// for a tab that is not selected.
    pub muted: bool,
}

/// What the panel shows in place of results that are not there.
#[derive(Debug, PartialEq, Eq)]
pub enum SearchViewLayout {
    /// The results are shown.
    Results,
    /// A headline and, below it, a hint.
    Landing { major_text: String, minor_text: Option<String> },
}

/// The model of `SearchViewLayout`.
pub enum SearchViewLayoutView {
    Results,
    Landing { major_text: Seq<char>, minor_text: Option<Seq<char>> },
}

impl View for SearchViewLayout {
    type V = SearchViewLayoutView;

    open spec fn view(&self) -> SearchViewLayoutView {
        match self {
            SearchViewLayout::Results => SearchViewLayoutView::Results,
            SearchViewLayout::Landing { major_text, minor_text } => SearchViewLayoutView::Landing {
                major_text: major_text@,
                minor_text: option_view(*minor_text),
            },
        }
    }
}

/// The hint on the landing page of a mode.
pub open spec fn spec_landing_text_minor(mode: SearchMode) -> Seq<char> {
    match mode {
        SearchMode::Text | SearchMode::Regex =>
            "Include/exclude specific paths with the filter option. Matching exact word and/or casing is available too."@,
        SearchMode::Semantic =>
            "\nSimply explain the code you are looking to find. ex. 'prompt user for permissions to index their project'"@,
    }
}

/// The name of a project with several roots: the names of the roots with
/// `/` between them.
pub open spec fn project_name(worktree_root_names: Seq<Seq<char>>) -> Seq<char> {
    joined(worktree_root_names, "/"@)
}

/// The question whether a project may be indexed. A name with a `/` in it
/// stands for several projects.
pub open spec fn spec_semantic_prompt_text(worktree_root_names: Seq<Seq<char>>) -> Seq<char> {
    let name = project_name(worktree_root_names);
    "Would you like to index the '"@ + name + "' project"@ + (if name.contains('/') {
        "s"@
    } else {
        ""@
    }) + " for semantic search? This requires sending code to the OpenAI API"@
}

impl SearchViewState {
    /// The panel as it is put together for `model`, before it has looked
    /// at the results: the options and the mode are the remembered ones,
    /// and where the model has an active query, the inputs and the options
    /// are those of that query.
    pub open spec fn initial(
        model: ProjectSearchState,
        settings: Option<ProjectSearchSettings>,
    ) -> SearchViewState {
        SearchViewState {
            model,
            query_editor: match model.active_query {
                Some(query) => query.inner.query,
                None => Seq::<char>::empty(),
            },
            replacement_editor: match model.active_query {
                Some(SearchQueryView { replacement: Some(replacement), .. }) => replacement,
                _ => Seq::<char>::empty(),
            },
            semantic_state: None,
            semantic_permissioned: None,
            search_options: match model.active_query {
                Some(query) => SearchOptions::spec_from_query(query),
                None => match settings {
                    Some(s) => s.search_options,
                    None => SearchOptions {
                        whole_word: false,
                        case_sensitive: false,
                        include_ignored: false,
                    },
                },
            },
            panels_with_errors: Set::<InputPanel>::empty(),
            active_match_index: None,
            search_id: model.search_id,
            query_editor_was_focused: false,
            included_files_editor: Seq::<char>::empty(),
            excluded_files_editor: Seq::<char>::empty(),
            filters_enabled: match settings {
                Some(s) => s.filters_enabled,
                None => false,
            },
            replace_enabled: false,
            current_mode: match settings {
                Some(s) => s.current_mode,
                None => SearchMode::Text,
            },
            focus: None,
        }
    }

    /// The panel as it opens for `model`, `match_at_cursor` being the match
    /// that the results show under the cursor.
    pub open spec fn new(
        model: ProjectSearchState,
        settings: Option<ProjectSearchSettings>,
        match_at_cursor: Option<usize>,
    ) -> SearchViewState {
        Self::initial(model, settings).model_changed(match_at_cursor).0
    }

    /// Whether a match is active, which is when the results are shown.
    pub open spec fn has_matches(self) -> bool {
        self.active_match_index is Some
    }

    /// What this panel remembers for the next one.
    pub open spec fn current_settings(self) -> ProjectSearchSettings {
        ProjectSearchSettings {
            search_options: self.search_options,
            filters_enabled: self.filters_enabled,
            current_mode: self.current_mode,
        }
    }

    /// The remembered settings after this panel wrote its own down.
    pub open spec fn remembered(
        self,
        settings: Map<u64, ProjectSearchSettings>,
    ) -> Map<u64, ProjectSearchSettings> {
        settings.insert(self.model.project, self.current_settings())
    }

    /// The panel with the filters shown if they were hidden, and hidden if
    /// they were shown.
    pub open spec fn toggle_filters(self) -> SearchViewState {
        SearchViewState { filters_enabled: !self.filters_enabled, ..self }
    }

    /// The panel with `option` flipped.
    pub open spec fn toggle_search_option(self, option: SearchOptions) -> SearchViewState {
        SearchViewState { search_options: self.search_options.spec_toggle(option), ..self }
    }

    /// The panel after the index reported `index_status`. Only a panel
    /// that uses the index takes note; it counts the rate limit down
    /// exactly while the index is being built under one.
    pub open spec fn semantic_index_changed(
        self,
        index_status: SemanticIndexStatus,
    ) -> SearchViewState {
        match self.semantic_state {
            Some(_) => SearchViewState {
                semantic_state: Some(
                    SemanticState {
                        index_status,
                        maintain_rate_limit: index_status.rate_limited(),
                    },
                ),
                ..self
            },
            None => self,
        }
    }

    /// The panel after it asked for its project to be indexed,
    /// `index_status` being what the index says of the project, or `None`
    /// where there is no index. Semantic search has no options.
    pub open spec fn index_project(
        self,
        index_status: Option<SemanticIndexStatus>,
    ) -> SearchViewState {
        match index_status {
            Some(status) => SearchViewState {
                search_options: SearchOptions {
                    whole_word: false,
                    case_sensitive: false,
                    include_ignored: false,
                },
                semantic_state: Some(
                    SemanticState {
                        index_status: status,
                        maintain_rate_limit: status.rate_limited(),
                    },
                ),
                ..self
            },
            None => self,
        }
    }

    /// The panel without results and without a search under way.
    pub open spec fn clear_search(self) -> SearchViewState {
        SearchViewState { model: self.model.clear(), ..self }
    }

    /// The query that the inputs, the options and the mode describe. In
    /// regular-expression mode the text is a regular expression, in the
    /// other modes literal text.
    pub open spec fn query(self) -> SearchQueryView {
        SearchQueryView {
            kind: if self.current_mode == SearchMode::Regex {
                QueryKind::Regex
            } else {
                QueryKind::Text
            },
            inner: SearchInputsView {
                query: self.query_editor,
                files_to_include: comma_separated(self.included_files_editor),
                files_to_exclude: comma_separated(self.excluded_files_editor),
            },
            whole_word: self.search_options.whole_word,
            case_sensitive: self.search_options.case_sensitive,
            include_ignored: self.search_options.include_ignored,
            replacement: None,
        }
    }

    /// Whether the host accepted the text of the query in the way the
    /// current mode reads it.
    pub open spec fn query_accepted(self, validation: QueryValidation) -> bool {
        if self.current_mode == SearchMode::Regex {
            validation.regex_query
        } else {
            validation.text_query
        }
    }

    /// Builds the query, the include filters first, then the exclude
    /// filters, then the text. The first input that was refused is marked
    /// and ends the attempt; each input that was accepted before it loses
    /// its mark.
    pub open spec fn build_search_query(self, validation: QueryValidation) -> (
        SearchViewState,
        Option<SearchQueryView>,
    ) {
        if !validation.included_files {
            (
                SearchViewState {
                    panels_with_errors: self.panels_with_errors.insert(InputPanel::Include),
                    ..self
                },
                None,
            )
        } else if !validation.excluded_files {
            (
                SearchViewState {
                    panels_with_errors: self.panels_with_errors.remove(InputPanel::Include).insert(
                        InputPanel::Exclude,
                    ),
                    ..self
                },
                None,
            )
        } else if !self.query_accepted(validation) {
            (
                SearchViewState {
                    panels_with_errors: self.panels_with_errors.remove(InputPanel::Include).remove(
                        InputPanel::Exclude,
                    ).insert(InputPanel::Query),
                    ..self
                },
                None,
            )
        } else {
            (
                SearchViewState {
                    panels_with_errors: self.panels_with_errors.remove(InputPanel::Include).remove(
                        InputPanel::Exclude,
                    ).remove(InputPanel::Query),
                    ..self
                },
                Some(self.query()),
            )
        }
    }

    /// Whether a search for what the inputs hold is started, and so takes
    /// the next number: it is unless an input is refused, or semantic mode
    /// is on and the index is not in use.
    pub open spec fn starts_search(self, validation: QueryValidation) -> bool {
        &&& self.current_mode != SearchMode::Semantic || self.semantic_state is Some
        &&& validation.included_files
        &&& validation.excluded_files
        &&& self.query_accepted(validation)
    }

    /// Whether a switch to `mode` starts a search: a switch from another
    /// mode to text or regular-expression mode does, unless an input is
    /// refused.
    pub open spec fn activation_starts_search(
        self,
        mode: SearchMode,
        validation: QueryValidation,
    ) -> bool {
        &&& mode != self.current_mode
        &&& mode != SearchMode::Semantic
        &&& validation.included_files
        &&& validation.excluded_files
        &&& if mode == SearchMode::Regex {
            validation.regex_query
        } else {
            validation.text_query
        }
    }

    /// Searches for what the inputs hold. In semantic mode nothing happens
    /// before the index is in use.
    pub open spec fn search(self, validation: QueryValidation) -> (
        SearchViewState,
        SearchDispatchView,
    ) {
        if self.current_mode == SearchMode::Semantic && self.semantic_state is None {
            (self, SearchDispatchView::NoSearch)
        } else {
            let (built, query) = self.build_search_query(validation);
            match query {
                None => (built, SearchDispatchView::NoSearch),
                Some(query) => if self.current_mode == SearchMode::Semantic {
                    (
                        SearchViewState { model: built.model.semantic_search(query.inner), ..built },
                        SearchDispatchView::Semantic {
                            search_id: (self.model.search_id + 1) as usize,
                            inputs: query.inner,
                        },
                    )
                } else {
                    (
                        SearchViewState { model: built.model.search(query), ..built },
                        SearchDispatchView::Project {
                            search_id: (self.model.search_id + 1) as usize,
                            query,
                        },
                    )
                },
            }
        }
    }

    /// Switches to `mode`. A switch to the current mode changes nothing.
    /// Any other switch drops the results and the selected match; a switch
    /// to text or regular-expression mode then searches anew, a switch to
    /// semantic mode waits for the permission to index.
    pub open spec fn activate_search_mode(self, mode: SearchMode, validation: QueryValidation) -> (
        SearchViewState,
        ModeActivationView,
    ) {
        if self.current_mode == mode {
            (self, ModeActivationView::Unchanged)
        } else {
            let switched = SearchViewState {
                current_mode: mode,
                active_match_index: None,
                ..self.clear_search()
            };
            if mode == SearchMode::Semantic {
                (
                    switched,
                    ModeActivationView::AwaitPermission {
                        known: self.semantic_permissioned,
                        previous_mode: self.current_mode,
                    },
                )
            } else {
                let (searched, dispatch) = (SearchViewState {
                    semantic_state: None,
                    ..switched
                }).search(validation);
                (searched, ModeActivationView::Searched { dispatch })
            }
        }
    }

    /// The remembered settings after a request to switch to `mode`.
    pub open spec fn remembered_after_activation(
        self,
        mode: SearchMode,
        validation: QueryValidation,
        settings: Map<u64, ProjectSearchSettings>,
    ) -> Map<u64, ProjectSearchSettings> {
        if self.current_mode == mode {
            settings
        } else {
            self.activate_search_mode(mode, validation).0.remembered(settings)
        }
    }

    /// The panel after the host found out whether the project may be
    /// indexed: with the permission, indexing starts.
    pub open spec fn semantic_permission_resolved(
        self,
        has_permission: bool,
        index_status: Option<SemanticIndexStatus>,
    ) -> SearchViewState {
        if has_permission {
            self.index_project(index_status)
        } else {
            self
        }
    }

    /// The panel after the user was asked for the permission to index.
    /// Answer 0 gives it, and indexing starts; any other answer denies it,
    /// and the panel goes back to the mode it came from.
    pub open spec fn semantic_prompt_answered(
        self,
        answer: usize,
        previous_mode: SearchMode,
        index_status: Option<SemanticIndexStatus>,
        validation: QueryValidation,
    ) -> (SearchViewState, Option<ModeActivationView>) {
        if answer == 0 {
            (
                (SearchViewState { semantic_permissioned: Some(true), ..self }).index_project(
                    index_status,
                ),
                None,
            )
        } else {
            let (state, activation) = (SearchViewState {
                semantic_permissioned: Some(false),
                ..self
            }).activate_search_mode(previous_mode, validation);
            (state, Some(activation))
        }
    }

    /// The match that a replacement of the next match would replace.
    pub open spec fn replacement_target(self) -> Option<usize> {
        if self.model.active_query is Some && self.model.match_ranges.len() > 0 {
            self.active_match_index
        } else {
            None
        }
    }

    /// The active query, set to replace by what the replacement input
    /// holds.
    pub open spec fn replacement_query(self) -> SearchQueryView
        recommends
            self.model.active_query is Some,
    {
        self.model.active_query->0.with_replacement(self.replacement_editor)
    }

    /// The panel with the focus on the query.
    pub open spec fn focus_query_editor(self) -> SearchViewState {
        SearchViewState {
            query_editor_was_focused: true,
            focus: Some(SearchFocus::QueryEditor),
            ..self
        }
    }

    /// The panel with the focus on the results.
    pub open spec fn focus_results_editor(self) -> SearchViewState {
        SearchViewState {
            query_editor_was_focused: false,
            focus: Some(SearchFocus::ResultsEditor),
            ..self
        }
    }

    /// The panel with `query` in the query input.
    pub open spec fn set_query(self, query: Seq<char>) -> SearchViewState {
        SearchViewState { query_editor: query, ..self }
    }

    /// Whether the results are those of a search that the panel has not
    /// shown yet.
    pub open spec fn is_new_search(self) -> bool {
        self.search_id != self.model.search_id
    }

    /// The panel after its search changed, `match_at_cursor` being the
    /// match that the results show under the cursor. Without matches no
    /// match is active. With matches the active one is the one under the
    /// cursor; and when they are those of a new search, the first match is
    /// selected, and the focus moves from the query to the results.
    pub open spec fn model_changed(self, match_at_cursor: Option<usize>) -> (
        SearchViewState,
        ModelChanged,
    ) {
        if self.model.match_ranges.len() == 0 {
            (
                SearchViewState { active_match_index: None, ..self },
                ModelChanged { select: None, highlight: false, focus_results: false },
            )
        } else {
            let shown = SearchViewState {
                active_match_index: match_at_cursor,
                search_id: self.model.search_id,
                ..self
            };
            let focus_results = self.is_new_search() && self.focus == Some(
                SearchFocus::QueryEditor,
            );
            (
                if focus_results {
                    shown.focus_results_editor()
                } else {
                    shown
                },
                ModelChanged {
                    select: if self.is_new_search() {
                        Some(self.model.match_ranges[0])
                    } else {
                        None
                    },
                    highlight: true,
                    focus_results,
                },
            )
        }
    }

    /// The panel with the match under the cursor as the active one.
    pub open spec fn update_match_index(self, match_at_cursor: Option<usize>) -> SearchViewState {
        SearchViewState { active_match_index: match_at_cursor, ..self }
    }

    /// The panel that opens for a search in the directory `path`: the
    /// directory is the include filter, the filters are shown, and the
    /// query has the focus.
    pub open spec fn in_directory(project: u64, path: Seq<char>) -> SearchViewState {
        (SearchViewState {
            included_files_editor: path,
            filters_enabled: true,
            ..Self::new(ProjectSearchState::new(project), None, None)
        }).focus_query_editor()
    }

    /// The panel that opens for a new search in `project`, with the
    /// settings remembered for the project and with `suggestion`, unless
    /// it is empty, as the query.
    pub open spec fn deployed(
        project: u64,
        suggestion: Option<Seq<char>>,
        settings: Map<u64, ProjectSearchSettings>,
    ) -> SearchViewState {
        let opened = Self::new(ProjectSearchState::new(project), settings_of(settings, project), None);
        (match suggestion {
            Some(query) if query.len() > 0 => opened.set_query(query),
            _ => opened,
        }).focus_query_editor()
    }

    /// The title of the panel's tab: the query that was searched for last,
    /// cut short, or a fixed title before the first search.
    pub open spec fn tab_title(self) -> Seq<char> {
        match self.model.search_history.current() {
            Some(query) if query.len() > 0 => spec_truncate_and_trailoff(
                query,
                MAX_TAB_TITLE_LEN as nat,
            ),
            _ => "Project search"@,
        }
    }

    /// The tooltip of the panel's tab: the query, or a fixed text while the
    /// query is empty.
    pub open spec fn tab_tooltip_text(self) -> Seq<char> {
        if self.query_editor.len() > 0 {
            self.query_editor
        } else {
            "Project Search"@
        }
    }

    /// The headline of the landing page.
    pub open spec fn major_text(self) -> Seq<char> {
        if self.semantic_state matches Some(state) && state.index_status
            == SemanticIndexStatus::NotAuthenticated {
            "Not Authenticated"@
        } else if self.model.pending_search is Some {
            "Searching..."@
        } else if self.model.no_results == Some(true) {
            "No results"@
        } else {
            self.current_mode.spec_label() + " search all files"@
        }
    }

    /// The hint of the landing page.
    pub open spec fn minor_text(self) -> Option<Seq<char>> {
        match self.model.no_results {
            Some(no_results) => if self.model.pending_search is None && no_results {
                Some("No results found in this project for the provided query"@)
            } else {
                None
            },
            None => match self.semantic_state {
                Some(SemanticState { index_status, .. }) => match index_status.spec_status_text() {
                    Some(status) => Some(status + spec_landing_text_minor(self.current_mode)),
                    None => Some(spec_landing_text_minor(self.current_mode)),
                },
                None => Some(spec_landing_text_minor(self.current_mode)),
            },
        }
    }

    /// What the panel shows.
    pub open spec fn layout(self) -> SearchViewLayoutView {
        if self.has_matches() {
            SearchViewLayoutView::Results
        } else {
            SearchViewLayoutView::Landing {
                major_text: self.major_text(),
                minor_text: self.minor_text(),
            }
        }
    }
}


/// The hint on the landing page of a mode.
pub fn landing_text_minor(mode: SearchMode) -> (text: &'static str)
    ensures
        text@ == spec_landing_text_minor(mode),
{
    match mode {
        SearchMode::Text | SearchMode::Regex =>
            "Include/exclude specific paths with the filter option. Matching exact word and/or casing is available too.",
        SearchMode::Semantic =>
            "\nSimply explain the code you are looking to find. ex. 'prompt user for permissions to index their project'",
    }
}

/// The question whether the project with the roots `worktree_root_names`
/// may be indexed.
pub fn semantic_prompt_text(worktree_root_names: &Vec<String>) -> (text: String)
    ensures
        text@ == spec_semantic_prompt_text(views(worktree_root_names@)),
{
    let name = join(worktree_root_names, "/");
    let is_plural = contains_char(name.as_str(), '/');
    let text = String::from_str("Would you like to index the '").concat(name.as_str()).concat(
        "' project",
    );
    let text = if is_plural {
        text.concat("s")
    } else {
        text.concat("")
    };
    text.concat(" for semantic search? This requires sending code to the OpenAI API")
}

impl ProjectSearchView {
    /// Opens a panel for `model`. `settings` is what was remembered for the
    /// project; `match_at_cursor` is the match that the results show under
    /// the cursor, `None` where there are no matches.
    pub fn new(
        model: ProjectSearch,
        settings: Option<ProjectSearchSettings>,
        match_at_cursor: Option<usize>,
    ) -> (view: Self)
        ensures
            view@ == SearchViewState::new(model@, settings, match_at_cursor),
    {
        let mut replacement_text: Option<String> = None;
        let mut query_text = String::new();
        let (mut options, current_mode, filters_enabled) = match settings {
            Some(settings) => (
                settings.search_options,
                settings.current_mode,
                settings.filters_enabled,
            ),
            None => (SearchOptions::none(), SearchMode::default(), false),
        };
        match &model.active_query {
            Some(active_query) => {
                query_text = String::from_str(active_query.as_str());
                replacement_text = active_query.replacement();
                options = SearchOptions::from_query(active_query);
            },
            None => {},
        }
        let search_id = model.search_id;
        let mut this = ProjectSearchView {
            replacement_editor: match replacement_text {
                Some(text) => text,
                None => String::new(),
            },
            search_id,
            model,
            query_editor: query_text,
            semantic_state: None,
            semantic_permissioned: None,
            search_options: options,
            panels_with_errors: PanelErrors::new(),
            active_match_index: None,
            query_editor_was_focused: false,
            included_files_editor: String::new(),
            excluded_files_editor: String::new(),
            filters_enabled,
            current_mode,
            replace_enabled: false,
            focus: None,
        };
        this.model_changed(match_at_cursor);
        this
    }

    /// A second panel on the same search, for the other half of a split
    /// pane. It has a copy of the model, without the search under way, and
    /// starts from the default settings. `match_at_cursor` is the match
    /// that its results show under the cursor.
    pub fn clone_on_split(&self, match_at_cursor: Option<usize>) -> (view: Option<Self>)
        ensures
            view matches Some(opened) && opened@ == SearchViewState::new(
                self@.model.split(),
                None,
                match_at_cursor,
            ),
    {
        let model = self.model.clone();
        Some(Self::new(model, None, match_at_cursor))
    }

    /// Takes an event of the results: a change of the selection brings
    /// the active match up to date, `match_at_cursor` being the match
    /// under the cursor now. Every event is passed on to the surroundings,
    /// which is the result.
    pub fn results_editor_event(
        &mut self,
        event: EditorEvent,
        match_at_cursor: Option<usize>,
    ) -> (raised: ViewEvent)
        ensures
            final(self)@ == if event == EditorEvent::SelectionsChanged {
                old(self)@.update_match_index(match_at_cursor)
            } else {
                old(self)@
            },
            raised == ViewEvent::EditorEvent(event),
    {
        match event {
            EditorEvent::SelectionsChanged => {
                self.update_match_index(match_at_cursor);
            },
            _ => {},
        }
        ViewEvent::EditorEvent(event)
    }

    /// Shows or hides the filters and writes the settings down.
    pub fn toggle_filters(&mut self, settings: &mut ActiveSettings)
        ensures
            final(self)@ == old(self)@.toggle_filters(),
            final(settings)@ == final(self)@.remembered(old(settings)@),
    {
        self.filters_enabled = !self.filters_enabled;
        settings.insert(self.model.project, self.current_settings());
    }

    /// What this panel remembers for the next one.
    pub fn current_settings(&self) -> (settings: ProjectSearchSettings)
        ensures
            settings == self@.current_settings(),
    {
        ProjectSearchSettings {
            search_options: self.search_options,
            filters_enabled: self.filters_enabled,
            current_mode: self.current_mode,
        }
    }

    /// Flips `option` and writes the settings down.
    pub fn toggle_search_option(&mut self, option: SearchOptions, settings: &mut ActiveSettings)
        ensures
            final(self)@ == old(self)@.toggle_search_option(option),
            final(settings)@ == final(self)@.remembered(old(settings)@),
    {
        self.search_options.toggle(option);
        settings.insert(self.model.project, self.current_settings());
    }

    /// Takes semantic search into use. `index_status` is what the index
    /// says of the project, or `None` where there is no index; with an
    /// index, the host has the project indexed.
    pub fn index_project(&mut self, index_status: Option<SemanticIndexStatus>)
        ensures
            final(self)@ == old(self)@.index_project(index_status),
    {
        match index_status {
            Some(status) => {
                self.search_options = SearchOptions::none();
                self.semantic_state = Some(
                    SemanticState { index_status: status, maintain_rate_limit: false },
                );
                self.semantic_index_changed(status);
            },
            None => {},
        }
    }

    /// Takes note of what the index now says of the project.
    pub fn semantic_index_changed(&mut self, index_status: SemanticIndexStatus)
        ensures
            final(self)@ == old(self)@.semantic_index_changed(index_status),
    {
        match self.semantic_state {
            Some(_) => {
                self.semantic_state = Some(
                    SemanticState {
                        index_status,
                        maintain_rate_limit: index_status.is_rate_limited(),
                    },
                );
            },
            None => {},
        }
    }

    /// Drops the results and the search under way.
    pub fn clear_search(&mut self)
        ensures
            final(self)@ == old(self)@.clear_search(),
    {
        self.model.clear();
    }

    /// Switches to `mode`; see `SearchViewState::activate_search_mode`.
    /// `validation` is what the host's compilers say of the inputs.
    pub fn activate_search_mode(
        &mut self,
        mode: SearchMode,
        validation: QueryValidation,
        settings: &mut ActiveSettings,
    ) -> (activation: ModeActivation)
        requires
            old(self)@.activation_starts_search(mode, validation) ==> old(self).model.search_id
                < usize::MAX,
        ensures
            final(self)@ == old(self)@.activate_search_mode(mode, validation).0,
            activation@ == old(self)@.activate_search_mode(mode, validation).1,
            final(settings)@ == old(self)@.remembered_after_activation(
                mode,
                validation,
                old(settings)@,
            ),
    {
        let previous_mode = self.current_mode;
        if previous_mode == mode {
            return ModeActivation::Unchanged;
        }
        self.clear_search();
        self.current_mode = mode;
        self.active_match_index = None;
        let activation = match mode {
            SearchMode::Semantic => {
                let known = self.semantic_permissioned();
                ModeActivation::AwaitPermission { known, previous_mode }
            },
            SearchMode::Regex | SearchMode::Text => {
                self.semantic_state = None;
                ModeActivation::Searched { dispatch: self.search(validation) }
            },
        };
        settings.insert(self.model.project, self.current_settings());
        activation
    }

    /// Takes the host's word on whether the project may be indexed. With
    /// the permission, semantic search is taken into use. Returns whether
    /// the user has to be asked; the host then asks
    /// `semantic_prompt_text` and reports to `semantic_prompt_answered`.
    pub fn semantic_permission_resolved(
        &mut self,
        has_permission: bool,
        index_status: Option<SemanticIndexStatus>,
    ) -> (ask: bool)
        ensures
            final(self)@ == old(self)@.semantic_permission_resolved(has_permission, index_status),
            ask == !has_permission,
    {
        if !has_permission {
            return true;
        }
        self.index_project(index_status);
        false
    }

    /// Takes the user's answer to the question whether the project may be
    /// indexed. The first answer, number 0, allows it, and semantic search
    /// is taken into use. Any other answer is a denial: the panel goes
    /// back to `previous_mode`, and the result says what came of that.
    pub fn semantic_prompt_answered(
        &mut self,
        answer: usize,
        previous_mode: SearchMode,
        index_status: Option<SemanticIndexStatus>,
        validation: QueryValidation,
        settings: &mut ActiveSettings,
    ) -> (activation: Option<ModeActivation>)
        requires
            answer != 0 && old(self)@.activation_starts_search(previous_mode, validation)
                ==> old(self).model.search_id < usize::MAX,
        ensures
            final(self)@ == old(self)@.semantic_prompt_answered(
                answer,
                previous_mode,
                index_status,
                validation,
            ).0,
            activation_view(activation) == old(self)@.semantic_prompt_answered(
                answer,
                previous_mode,
                index_status,
                validation,
            ).1,
            final(settings)@ == if answer == 0 {
                old(settings)@
            } else {
                old(self)@.remembered_after_activation(previous_mode, validation, old(settings)@)
            },
    {
        if answer == 0 {
            self.semantic_permissioned = Some(true);
            self.index_project(index_status);
            None
        } else {
            self.semantic_permissioned = Some(false);
            Some(self.activate_search_mode(previous_mode, validation, settings))
        }
    }

    /// What is needed to replace the active match: the match, the active
    /// query with the replacement text, and the match to select after it,
    /// which is number `next_match`. There is nothing to replace without
    /// an active query, without matches or without an active match.
    pub fn replace_next(&self, next_match: usize) -> (replacement: Option<Replacement>)
        requires
            self@.replacement_target() matches Some(active) ==> active
                < self@.model.match_ranges.len() && next_match < self@.model.match_ranges.len(),
        ensures
            replacement is Some == self@.replacement_target() is Some,
            replacement matches Some(r) ==> r.range == self@.model.match_ranges[self@.replacement_target()->0 as int]
                && r.query@ == self@.replacement_query() && r.select
                == self@.model.match_ranges[next_match as int],
    {
        match &self.model.active_query {
            Some(query) => {
                if self.model.match_ranges.is_empty() {
                    return None;
                }
                match self.active_match_index {
                    Some(active_index) => {
                        let query = query.clone().with_replacement(self.replacement());
                        Some(
                            Replacement {
                                range: self.model.match_ranges[active_index],
                                query,
                                select: self.model.match_ranges[next_match],
                            },
                        )
                    },
                    None => None,
                }
            },
            None => None,
        }
    }

    /// What the replacement input holds.
    pub fn replacement(&self) -> (text: String)
        ensures
            text@ == self@.replacement_editor,
    {
        self.replacement_editor.clone()
    }

    /// What is needed to replace every match: the active query with the
    /// replacement text, and all matches in their order. There is nothing
    /// to replace without an active query, without matches or without an
    /// active match.
    pub fn replace_all(&self) -> (replacement: Option<ReplacementOfAll>)
        ensures
            replacement is Some == self@.replacement_target() is Some,
            replacement matches Some(r) ==> r.query@ == self@.replacement_query() && r.ranges@
                == self@.model.match_ranges,
    {
        match &self.model.active_query {
            Some(query) => {
                if self.model.match_ranges.is_empty() {
                    return None;
                }
                if self.active_match_index.is_some() {
                    let query = query.clone().with_replacement(self.replacement());
                    Some(ReplacementOfAll { query, ranges: self.model.match_ranges.clone() })
                } else {
                    None
                }
            },
            None => None,
        }
    }

    /// Whether the user allowed the project to be indexed, where the panel
    /// knows. Where it does not, the host asks the index whether the
    /// project was indexed before; without an index the answer is no.
    pub fn semantic_permissioned(&self) -> (known: Option<bool>)
        ensures
            known == self@.semantic_permissioned,
    {
        self.semantic_permissioned
    }

    /// Opens a panel that searches in one directory of `project`. Nothing
    /// opens for an entry that is no directory, or whose path is no text.
    pub fn new_search_in_directory(project: u64, is_dir: bool, path: Option<&str>) -> (view: Option<
        Self,
    >)
        ensures
            view is Some == (is_dir && path is Some),
            view matches Some(opened) ==> opened@ == SearchViewState::in_directory(
                project,
                path->0@,
            ),
    {
        if !is_dir {
            return None;
        }
        let filter_str = match path {
            Some(filter_str) => filter_str,
            None => {
                return None;
            },
        };
        let model = ProjectSearch::new(project);
        let mut search = ProjectSearchView::new(model, None, None);
        search.included_files_editor = String::from_str(filter_str);
        search.filters_enabled = true;
        search.focus_query_editor();
        Some(search)
    }

    /// Opens a panel for a new search in `project`, with the settings
    /// remembered for the project. `suggestion` is the query that the
    /// active editor proposes, `None` where no editor is active.
    pub fn deploy(project: u64, suggestion: Option<String>, settings: &ActiveSettings) -> (view:
        Self)
        ensures
            view@ == SearchViewState::deployed(project, option_view(suggestion), settings@),
    {
        let query = match suggestion {
            Some(query) => if query.as_str().is_empty() {
                None
            } else {
                Some(query)
            },
            None => None,
        };
        let settings = settings.get(project);
        let model = ProjectSearch::new(project);
        let mut search = ProjectSearchView::new(model, settings, None);
        match query {
            Some(query) => {
                search.set_query(query.as_str());
            },
            None => {},
        }
        search.focus_query_editor();
        search
    }

    /// Searches for what the inputs hold and says which search the host is
    /// to run. `validation` is what the host's compilers say of the inputs.
    pub fn search(&mut self, validation: QueryValidation) -> (dispatch: SearchDispatch)
        requires
            old(self)@.starts_search(validation) ==> old(self).model.search_id < usize::MAX,
        ensures
            final(self)@ == old(self)@.search(validation).0,
            dispatch@ == old(self)@.search(validation).1,
    {
        match self.current_mode {
            SearchMode::Semantic => {
                if self.semantic_state.is_some() {
                    match self.build_search_query(validation) {
                        Some(query) => {
                            let search_id = self.model.semantic_search(query.as_inner());
                            SearchDispatch::Semantic { search_id, inputs: query.inner }
                        },
                        None => SearchDispatch::NoSearch,
                    }
                } else {
                    SearchDispatch::NoSearch
                }
            },
            _ => {
                match self.build_search_query(validation) {
                    Some(query) => {
                        let sent = query.clone();
                        let search_id = self.model.search(query);
                        SearchDispatch::Project { search_id, query: sent }
                    },
                    None => SearchDispatch::NoSearch,
                }
            },
        }
    }

    /// Builds the query that the inputs describe, or marks the first input
    /// that the host refused. `validation` is what the host's compilers
    /// say of the inputs.
    pub fn build_search_query(&mut self, validation: QueryValidation) -> (query: Option<
        SearchQuery,
    >)
        ensures
            final(self)@ == old(self)@.build_search_query(validation).0,
            crate::search::query::query_view(query) == old(self)@.build_search_query(validation).1,
    {
        let text = self.query_editor.clone();
        let included_files = if validation.included_files {
            self.panels_with_errors.remove(InputPanel::Include);
            Self::parse_path_matches(self.included_files_editor.as_str())
        } else {
            self.panels_with_errors.insert(InputPanel::Include);
            return None;
        };
        let excluded_files = if validation.excluded_files {
            self.panels_with_errors.remove(InputPanel::Exclude);
            Self::parse_path_matches(self.excluded_files_editor.as_str())
        } else {
            self.panels_with_errors.insert(InputPanel::Exclude);
            return None;
        };
        let whole_word = self.search_options.contains(SearchOptions::only_whole_word());
        let case_sensitive = self.search_options.contains(SearchOptions::only_case_sensitive());
        let include_ignored = self.search_options.contains(SearchOptions::only_include_ignored());
        match self.current_mode {
            SearchMode::Regex => {
                if validation.regex_query {
                    self.panels_with_errors.remove(InputPanel::Query);
                    Some(
                        SearchQuery::regex(
                            text,
                            whole_word,
                            case_sensitive,
                            include_ignored,
                            included_files,
                            excluded_files,
                        ),
                    )
                } else {
                    self.panels_with_errors.insert(InputPanel::Query);
                    None
                }
            },
            _ => {
                if validation.text_query {
                    self.panels_with_errors.remove(InputPanel::Query);
                    Some(
                        SearchQuery::text(
                            text,
                            whole_word,
                            case_sensitive,
                            include_ignored,
                            included_files,
                            excluded_files,
                        ),
                    )
                } else {
                    self.panels_with_errors.insert(InputPanel::Query);
                    None
                }
            },
        }
    }

    /// The filters that a filter input holds: its entries between commas,
    /// trimmed, blank ones left out. Whether each compiles is for the host
    /// to say.
    pub fn parse_path_matches(text: &str) -> (filters: Vec<String>)
        ensures
            views(filters@) == comma_separated(text@),
    {
        split_comma_separated(text)
    }

    /// The match to select when the user steps through the matches:
    /// number `new_index`, which the results computed from the active
    /// match, the cursor and the direction. Without an active match there
    /// is nothing to select.
    pub fn select_match(&self, new_index: usize) -> (range_to_select: Option<MatchRange>)
        requires
            self@.active_match_index is Some ==> new_index < self@.model.match_ranges.len(),
        ensures
            range_to_select == if self@.active_match_index is Some {
                Some(self@.model.match_ranges[new_index as int])
            } else {
                None
            },
    {
        match self.active_match_index {
            Some(_) => Some(self.model.match_ranges[new_index]),
            None => None,
        }
    }

    /// Moves the focus to the query, all of which the host selects.
    pub fn focus_query_editor(&mut self)
        ensures
            final(self)@ == old(self)@.focus_query_editor(),
    {
        self.query_editor_was_focused = true;
        self.focus = Some(SearchFocus::QueryEditor);
    }

    /// Puts `query` into the query input.
    pub fn set_query(&mut self, query: &str)
        ensures
            final(self)@ == old(self)@.set_query(query@),
    {
        self.query_editor = String::from_str(query);
    }

    /// Moves the focus to the results; the host drops the selection in the
    /// query.
    pub fn focus_results_editor(&mut self)
        ensures
            final(self)@ == old(self)@.focus_results_editor(),
    {
        self.query_editor_was_focused = false;
        self.focus = Some(SearchFocus::ResultsEditor);
    }

    /// Takes note that the search changed; see
    /// `SearchViewState::model_changed`. The host then emits
    /// `ViewEvent::UpdateTab`.
    pub fn model_changed(&mut self, match_at_cursor: Option<usize>) -> (changed: ModelChanged)
        ensures
            final(self)@ == old(self)@.model_changed(match_at_cursor).0,
            changed == old(self)@.model_changed(match_at_cursor).1,
    {
        if self.model.match_ranges.is_empty() {
            self.active_match_index = None;
            ModelChanged { select: None, highlight: false, focus_results: false }
        } else {
            self.active_match_index = Some(0);
            self.update_match_index(match_at_cursor);
            let prev_search_id = self.search_id;
            self.search_id = self.model.search_id;
            let is_new_search = self.search_id != prev_search_id;
            let select = if is_new_search {
                Some(self.model.match_ranges[0])
            } else {
                None
            };
            let query_focused = match self.focus {
                Some(SearchFocus::QueryEditor) => true,
                _ => false,
            };
            let focus_results = is_new_search && query_focused;
            if focus_results {
                self.focus_results_editor();
            }
            ModelChanged { select, highlight: true, focus_results }
        }
    }

    /// Takes note of the match under the cursor. Returns whether the
    /// active match changed.
    pub fn update_match_index(&mut self, match_at_cursor: Option<usize>) -> (changed: bool)
        ensures
            final(self)@ == old(self)@.update_match_index(match_at_cursor),
            changed == (old(self)@.active_match_index != match_at_cursor),
    {
        let same = match (self.active_match_index, match_at_cursor) {
            (Some(old_index), Some(new_index)) => old_index == new_index,
            (None, None) => true,
            _ => false,
        };
        if !same {
            self.active_match_index = match_at_cursor;
        }
        !same
    }

    /// Whether a match is active, which is when the results are shown.
    pub fn has_matches(&self) -> (has: bool)
        ensures
            has == self@.has_matches(),
    {
        self.active_match_index.is_some()
    }

    /// The hint on the landing page of the current mode.
    pub fn landing_text_minor(&self) -> (text: &'static str)
        ensures
            text@ == spec_landing_text_minor(self@.current_mode),
    {
        landing_text_minor(self.current_mode)
    }

    /// The tooltip of the panel's tab: the query, or a fixed text while
    /// the query is empty.
    pub fn tab_tooltip_text(&self) -> (text: String)
        ensures
            text@ == self@.tab_tooltip_text(),
    {
        if !self.query_editor.as_str().is_empty() {
            self.query_editor.clone()
        } else {
            String::from_str("Project Search")
        }
    }

    /// What the panel's tab shows.
    pub fn tab_content(&self, selected: bool) -> (content: TabContent)
        ensures
            content.title@ == self@.tab_title(),
            content.muted == !selected,
    {
        let last_query = match self.model.search_history.current() {
            Some(query) => Some(truncate_and_trailoff(query.as_str(), MAX_TAB_TITLE_LEN)),
            None => None,
        };
        let title = match last_query {
            Some(query) => {
                if !query.as_str().is_empty() {
                    query
                } else {
                    String::from_str("Project search")
                }
            },
            None => String::from_str("Project search"),
        };
        TabContent { title, muted: !selected }
    }

    /// Maps an event of the panel to what its tab is asked to do.
    pub fn to_item_events(event: &ViewEvent, from_editor: Vec<ItemEvent>) -> (events: Vec<ItemEvent>)
        ensures
            events@ == spec_to_item_events(*event, from_editor@),
    {
        match event {
            ViewEvent::UpdateTab => {
                let mut events: Vec<ItemEvent> = Vec::new();
                events.push(ItemEvent::UpdateBreadcrumbs);
                events.push(ItemEvent::UpdateTab);
                events
            },
            ViewEvent::EditorEvent(_) => from_editor,
            ViewEvent::Dismiss => {
                let mut events: Vec<ItemEvent> = Vec::new();
                events.push(ItemEvent::CloseItem);
                events
            },
            ViewEvent::Activate => Vec::new(),
        }
    }

    /// The breadcrumbs are shown exactly while there are matches.
    pub fn breadcrumb_location(&self) -> (location: ToolbarItemLocation)
        ensures
            location == if self@.has_matches() {
                ToolbarItemLocation::Secondary
            } else {
                ToolbarItemLocation::Hidden
            },
    {
        if self.has_matches() {
            ToolbarItemLocation::Secondary
        } else {
            ToolbarItemLocation::Hidden
        }
    }

    /// What the panel shows.
    pub fn render(&self) -> (layout: SearchViewLayout)
        ensures
            layout@ == self@.layout(),
    {
        if self.has_matches() {
            return SearchViewLayout::Results;
        }
        let has_no_results = match self.model.no_results {
            Some(no_results) => no_results,
            None => false,
        };
        let is_search_underway = self.model.pending_search.is_some();
        let mut major_text = if is_search_underway {
            String::from_str("Searching...")
        } else if has_no_results {
            String::from_str("No results")
        } else {
            String::from_str(self.current_mode.label()).concat(" search all files")
        };
        let semantic_status = match &self.semantic_state {
            Some(semantic) => {
                match semantic.index_status {
                    SemanticIndexStatus::NotAuthenticated => {
                        major_text = String::from_str("Not Authenticated");
                    },
                    _ => {},
                }
                semantic.index_status.status_text()
            },
            None => None,
        };
        let minor_text = match self.model.no_results {
            Some(no_results) => {
                if self.model.pending_search.is_none() && no_results {
                    Some(String::from_str("No results found in this project for the provided query"))
                } else {
                    None
                }
            },
            None => match semantic_status {
                Some(semantic_status) => Some(semantic_status.concat(self.landing_text_minor())),
                None => Some(String::from_str(self.landing_text_minor())),
            },
        };
        SearchViewLayout::Landing { major_text, minor_text }
    }
}

} // verus!
