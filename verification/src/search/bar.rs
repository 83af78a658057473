//! The toolbar of the search panel. It acts on the panel that is shown in the
//! active pane, and does nothing while no search panel is.

use crate::search::events::Direction;
use crate::search::events::SearchFocus;
use crate::search::events::ToolbarItemLocation;
use crate::search::mode::next_mode;
use crate::search::mode::spec_next_mode;
use crate::search::mode::SearchMode;
use crate::search::model::ProjectSearch;
use crate::search::model::ProjectSearchState;
use crate::search::options::SearchOptions;
use crate::search::query::QueryValidation;
use crate::search::semantic::SemanticIndexStatus;
use crate::search::settings::ActiveSettings;
use crate::search::view::activation_view;
use crate::search::view::ModeActivation;
use crate::search::view::ModeActivationView;
use crate::search::view::ProjectSearchView;
use crate::search::view::SearchDispatch;
use crate::search::view::SearchDispatchView;
use crate::search::view::SearchViewState;
use crate::text::decimal::decimal;
use crate::text::decimal::unsigned_decimal;
use crate::text::list::join;
use crate::text::list::joined;
use crate::text::list::option_view;
use crate::text::list::views;
use vstd::prelude::*;
use vstd::string::StringExecFns;

verus! {

/// The toolbar, with the search panel of the active pane, if that pane
/// shows one.
#[derive(Debug, PartialEq, Eq)]
pub struct ProjectSearchBar {
    pub active_project_search: Option<ProjectSearchView>,
}

/// The model of `ProjectSearchBar`.
pub struct SearchBarState {
    pub active_project_search: Option<SearchViewState>,
}

/// The view of a search panel that may be absent.
pub open spec fn panel_view(panel: Option<ProjectSearchView>) -> Option<SearchViewState> {
    match panel {
        Some(p) => Some(p@),
        None => None,
    }
}

/// The view of a dispatch that may be absent.
pub open spec fn dispatch_view(dispatch: Option<SearchDispatch>) -> Option<SearchDispatchView> {
    match dispatch {
        Some(d) => Some(d@),
        None => None,
    }
}

impl View for ProjectSearchBar {
    type V = SearchBarState;

    open spec fn view(&self) -> SearchBarState {
        SearchBarState { active_project_search: panel_view(self.active_project_search) }
    }
}

/// What the toolbar shows.
#[derive(Debug, PartialEq, Eq)]
pub struct BarLayout {
    /// The hint that the empty query input shows, where the keys for the
    /// history are bound.
    pub placeholder_text: Option<String>,
    /// Whether the filter button is shown as pressed.
    pub filters_selected: bool,
    /// The button with the case-sensitive icon, absent in semantic mode.
    /// It is shown as pressed while whole-word search is on, which is also
    /// what a click on it toggles.
    pub case_sensitive_button: Option<bool>,
    pub text_mode_selected: bool,
    pub regex_mode_selected: bool,
    /// The button for semantic mode, absent while semantic search is not
    /// available; the value says whether the mode is the current one.
    pub semantic_mode_button: Option<bool>,
    /// Whether the replacement input and the two replace buttons are shown.
    pub replace_enabled: bool,
    /// The number of the active match among all matches.
    pub match_label: Option<String>,
    /// Whether the buttons that step through the matches are disabled.
    pub navigation_disabled: bool,
    /// Whether the keys for replacing and for the whole-word and
    /// case-sensitive options are bound: they are outside semantic mode.
    pub option_actions: bool,
    /// Whether the key for the ignored-files option is bound: it is
    /// outside semantic mode while the filters are shown.
    pub include_ignored_action: bool,
}

/// The model of `BarLayout`.
pub struct BarLayoutView {
    pub placeholder_text: Option<Seq<char>>,
    pub filters_selected: bool,
    pub case_sensitive_button: Option<bool>,
    pub text_mode_selected: bool,
    pub regex_mode_selected: bool,
    pub semantic_mode_button: Option<bool>,
    pub replace_enabled: bool,
    pub match_label: Option<Seq<char>>,
    pub navigation_disabled: bool,
    pub option_actions: bool,
    pub include_ignored_action: bool,
}

impl View for BarLayout {
    type V = BarLayoutView;

    open spec fn view(&self) -> BarLayoutView {
        BarLayoutView {
            placeholder_text: option_view(self.placeholder_text),
            filters_selected: self.filters_selected,
            case_sensitive_button: self.case_sensitive_button,
            text_mode_selected: self.text_mode_selected,
            regex_mode_selected: self.regex_mode_selected,
            semantic_mode_button: self.semantic_mode_button,
            replace_enabled: self.replace_enabled,
            match_label: option_view(self.match_label),
            navigation_disabled: self.navigation_disabled,
            option_actions: self.option_actions,
            include_ignored_action: self.include_ignored_action,
        }
    }
}

/// The view of a layout that may be absent.
pub open spec fn layout_view(layout: Option<BarLayout>) -> Option<BarLayoutView> {
    match layout {
        Some(l) => Some(l@),
        None => None,
    }
}

/// The hint in the empty query input. It names the keys that step back and
/// forth in the history, as far as they are bound; the keystrokes of one
/// binding are written with a blank between them.
pub open spec fn spec_placeholder_text(
    previous_query_keystrokes: Option<Seq<Seq<char>>>,
    next_query_keystrokes: Option<Seq<Seq<char>>>,
) -> Option<Seq<char>> {
    match (previous_query_keystrokes, next_query_keystrokes) {
        (Some(previous), Some(next)) => Some(
            "Search ("@ + joined(previous, " "@) + "/"@ + joined(next, " "@)
                + " for previous/next query)"@,
        ),
        (None, Some(next)) => Some("Search ("@ + joined(next, " "@) + " for next query)"@),
        (Some(previous), None) => Some(
            "Search ("@ + joined(previous, " "@) + " for previous query)"@,
        ),
        (None, None) => None,
    }
}

/// The views of a list of texts that may be absent.
pub open spec fn option_views(texts: Option<Vec<String>>) -> Option<Seq<Seq<char>>> {
    match texts {
        Some(t) => Some(views(t@)),
        None => None,
    }
}

/// The inputs that the tab key steps through, in their order: the query,
/// the two filters while they are shown, the replacement while it is.
pub open spec fn fields(filters_enabled: bool, replace_enabled: bool) -> Seq<SearchFocus> {
    seq![SearchFocus::QueryEditor] + (if filters_enabled {
        seq![SearchFocus::IncludedFilesEditor, SearchFocus::ExcludedFilesEditor]
    } else {
        Seq::<SearchFocus>::empty()
    }) + (if replace_enabled {
        seq![SearchFocus::ReplacementEditor]
    } else {
        Seq::<SearchFocus>::empty()
    })
}

/// The place in a ring of `len` places that follows, or precedes, place
/// `index`.
pub open spec fn step_in_ring(index: int, len: int, direction: Direction) -> int
    recommends
        0 <= index < len,
{
    match direction {
        Direction::Next => if index + 1 == len {
            0
        } else {
            index + 1
        },
        Direction::Prev => if index == 0 {
            len - 1
        } else {
            index - 1
        },
    }
}

/// The input that gets the focus when the tab key is pressed while `focus`
/// has it: the neighbour of `focus` among the inputs that are shown. There
/// is none while none of these inputs has the focus.
pub open spec fn spec_next_field(
    filters_enabled: bool,
    replace_enabled: bool,
    focus: Option<SearchFocus>,
    direction: Direction,
) -> Option<SearchFocus> {
    let shown = fields(filters_enabled, replace_enabled);
    match focus {
        Some(field) => match shown.index_of_first(field) {
            Some(index) => Some(shown[step_in_ring(index, shown.len() as int, direction)]),
            None => None,
        },
        None => None,
    }
}

impl SearchViewState {
    /// The panel after a step forward in the history: the query is the
    /// entry arrived at, or empty, with nothing selected, where there is
    /// no later entry.
    pub open spec fn next_history_query(self) -> SearchViewState {
        let (history, entry) = self.model.search_history.next();
        match entry {
            Some(query) => SearchViewState {
                model: ProjectSearchState { search_history: history, ..self.model },
                query_editor: query,
                ..self
            },
            None => SearchViewState {
                model: ProjectSearchState {
                    search_history: history.reset_selection(),
                    ..self.model
                },
                query_editor: Seq::<char>::empty(),
                ..self
            },
        }
    }

    /// The panel after a step back in the history. An empty query is first
    /// filled with the selected entry, without a step; otherwise the query
    /// is the entry arrived at, and stays as it is where there is no
    /// earlier entry.
    pub open spec fn previous_history_query(self) -> SearchViewState {
        if self.query_editor.len() == 0 && self.model.search_history.current() is Some {
            SearchViewState { query_editor: self.model.search_history.current()->0, ..self }
        } else {
            let (history, entry) = self.model.search_history.previous();
            match entry {
                Some(query) => SearchViewState {
                    model: ProjectSearchState { search_history: history, ..self.model },
                    query_editor: query,
                    ..self
                },
                None => self,
            }
        }
    }

    /// The panel after the replacement input was shown or hidden: the
    /// focus is on the replacement when it is shown, on the query when it
    /// is not.
    pub open spec fn toggle_replace(self) -> SearchViewState {
        SearchViewState {
            replace_enabled: !self.replace_enabled,
            focus: Some(
                if self.replace_enabled {
                    SearchFocus::QueryEditor
                } else {
                    SearchFocus::ReplacementEditor
                },
            ),
            ..self
        }
    }

    /// The panel after the tab key was pressed.
    pub open spec fn cycle_field(self, direction: Direction) -> SearchViewState {
        match spec_next_field(self.filters_enabled, self.replace_enabled, self.focus, direction) {
            Some(field) => SearchViewState { focus: Some(field), ..self },
            None => self,
        }
    }

    /// The panel after the mode was cycled: the next mode is active, and
    /// the query has the focus.
    pub open spec fn cycle_mode(self, semantic_enabled: bool, validation: QueryValidation) -> (
        SearchViewState,
        ModeActivationView,
    ) {
        let (activated, activation) = self.activate_search_mode(
            spec_next_mode(self.current_mode, semantic_enabled),
            validation,
        );
        (SearchViewState { focus: Some(SearchFocus::QueryEditor), ..activated }, activation)
    }

    /// The panel after it sent its query off to a panel of its own: where
    /// a query could be built, the inputs go back to the active query.
    pub open spec fn search_in_new(self, validation: QueryValidation) -> SearchViewState {
        let (built, query) = self.build_search_query(validation);
        match (query, built.model.active_query) {
            (Some(_), Some(old_query)) => SearchViewState {
                query_editor: old_query.inner.query,
                search_options: SearchOptions::spec_from_query(old_query),
                ..built
            },
            _ => built,
        }
    }

    /// The panel that opens for the query of this one, with the search
    /// for it under way.
    pub open spec fn opened_in_new(self, validation: QueryValidation) -> Option<SearchViewState> {
        match self.build_search_query(validation).1 {
            Some(query) => Some(
                Self::new(ProjectSearchState::new(self.model.project).search(query), None, None),
            ),
            None => None,
        }
    }

    /// The number of the active match among all matches, counted from
    /// one; none while there is no active match or no match at all.
    pub open spec fn match_label(self) -> Option<Seq<char>> {
        match self.active_match_index {
            Some(index) if self.model.match_ranges.len() > 0 => Some(
                decimal(index + 1) + "/"@ + decimal(self.model.match_ranges.len() as int),
            ),
            _ => None,
        }
    }

    /// What the toolbar shows of this panel.
    pub open spec fn bar_layout(
        self,
        semantic_is_available: bool,
        placeholder_text: Option<Seq<char>>,
    ) -> BarLayoutView {
        BarLayoutView {
            placeholder_text,
            filters_selected: self.filters_enabled,
            case_sensitive_button: if self.current_mode != SearchMode::Semantic {
                Some(self.search_options.whole_word)
            } else {
                None
            },
            text_mode_selected: self.current_mode == SearchMode::Text,
            regex_mode_selected: self.current_mode == SearchMode::Regex,
            semantic_mode_button: if semantic_is_available {
                Some(self.current_mode == SearchMode::Semantic)
            } else {
                None
            },
            replace_enabled: self.replace_enabled,
            match_label: self.match_label(),
            navigation_disabled: self.active_match_index is None,
            option_actions: self.current_mode != SearchMode::Semantic,
            include_ignored_action: self.current_mode != SearchMode::Semantic
                && self.filters_enabled,
        }
    }
}

impl SearchBarState {
    /// The toolbar after the active pane came to show `item`. A search
    /// panel in semantic mode takes the index into use.
    pub open spec fn set_active_pane_item(
        item: Option<SearchViewState>,
        index_status: Option<SemanticIndexStatus>,
    ) -> SearchBarState {
        SearchBarState {
            active_project_search: match item {
                Some(panel) => Some(
                    if panel.current_mode == SearchMode::Semantic {
                        panel.index_project(index_status)
                    } else {
                        panel
                    },
                ),
                None => None,
            },
        }
    }

    /// How many rows the toolbar takes: two while the filters are shown.
    pub open spec fn row_count(self) -> usize {
        match self.active_project_search {
            Some(panel) if panel.filters_enabled => 2,
            _ => 1,
        }
    }
}

/// The input that gets the focus when the tab key is pressed while `focus`
/// has it.
pub fn next_field(
    filters_enabled: bool,
    replace_enabled: bool,
    focus: Option<SearchFocus>,
    direction: Direction,
) -> (field: Option<SearchFocus>)
    ensures
        field == spec_next_field(filters_enabled, replace_enabled, focus, direction),
{
    let mut views: Vec<SearchFocus> = Vec::new();
    views.push(SearchFocus::QueryEditor);
    if filters_enabled {
        views.push(SearchFocus::IncludedFilesEditor);
        views.push(SearchFocus::ExcludedFilesEditor);
    }
    if replace_enabled {
        views.push(SearchFocus::ReplacementEditor);
    }
    assert(views@ =~= fields(filters_enabled, replace_enabled));
    let focused = match focus {
        Some(focused) => focused,
        None => {
            return None;
        },
    };
    let mut current_index: usize = 0;
    while current_index < views.len() && views[current_index] != focused
        invariant
            current_index <= views.len(),
            forall|j: int| 0 <= j < current_index ==> views@[j] != focused,
        decreases views.len() - current_index,
    {
        current_index += 1;
    }
    proof {
        views@.index_of_first_ensures(focused);
    }
    if current_index == views.len() {
        return None;
    }
    let new_index = match direction {
        Direction::Next => (current_index + 1) % views.len(),
        Direction::Prev => if current_index == 0 {
            views.len() - 1
        } else {
            (current_index - 1) % views.len()
        },
    };
    Some(views[new_index])
}

impl ProjectSearchBar {
    /// A toolbar without a search panel.
    pub fn new() -> (bar: Self)
        ensures
            bar@.active_project_search is None,
    {
        ProjectSearchBar { active_project_search: None }
    }

    /// Switches the panel to the next mode and moves the focus to the
    /// query.
    pub fn cycle_mode(
        &mut self,
        semantic_enabled: bool,
        validation: QueryValidation,
        settings: &mut ActiveSettings,
    ) -> (activation: Option<ModeActivation>)
        requires
            old(self)@.active_project_search matches Some(panel) ==> (panel.activation_starts_search(
                spec_next_mode(panel.current_mode, semantic_enabled),
                validation,
            )
                ==> panel.model.search_id < usize::MAX),
        ensures
            old(self)@.active_project_search is None ==> final(self)@ == old(self)@ && final(settings)@ == old(settings)@ && activation is None,
            old(self)@.active_project_search matches Some(panel) ==> {
                &&& final(self)@.active_project_search == Some(
                    panel.cycle_mode(semantic_enabled, validation).0,
                )
                &&& activation_view(activation) == Some(
                    panel.cycle_mode(semantic_enabled, validation).1,
                )
                &&& final(settings)@ == panel.remembered_after_activation(
                    spec_next_mode(panel.current_mode, semantic_enabled),
                    validation,
                    old(settings)@,
                )
            },
    {
        match &mut self.active_project_search {
            Some(view) => {
                let new_mode = next_mode(&view.current_mode, semantic_enabled);
                let activation = view.activate_search_mode(new_mode, validation, settings);
                view.focus = Some(SearchFocus::QueryEditor);
                Some(activation)
            },
            None => None,
        }
    }

    /// The enter key: searches, unless the focus is on the replacement
    /// input. The result is `None` where the key was not for the toolbar.
    pub fn confirm(&mut self, validation: QueryValidation) -> (dispatch: Option<SearchDispatch>)
        requires
            old(self)@.active_project_search matches Some(panel) ==> (panel.focus != Some(
                SearchFocus::ReplacementEditor,
            ) && panel.starts_search(validation)
                ==> panel.model.search_id < usize::MAX),
        ensures
            match old(self)@.active_project_search {
                Some(panel) if panel.focus != Some(SearchFocus::ReplacementEditor) => {
                    &&& final(self)@.active_project_search == Some(panel.search(validation).0)
                    &&& dispatch_view(dispatch) == Some(panel.search(validation).1)
                },
                _ => final(self)@ == old(self)@ && dispatch is None,
            },
    {
        match &mut self.active_project_search {
            Some(search_view) => {
                let replacement_focused = match search_view.focus {
                    Some(SearchFocus::ReplacementEditor) => true,
                    _ => false,
                };
                if !replacement_focused {
                    Some(search_view.search(validation))
                } else {
                    None
                }
            },
            None => None,
        }
    }

    /// Sends the query of `search_view` off to a panel of its own, which
    /// is the result, and gives `search_view` its active query back.
    /// Nothing opens where the query could not be built.
    pub fn search_in_new(search_view: &mut ProjectSearchView, validation: QueryValidation) -> (opened:
        Option<ProjectSearchView>)
        ensures
            final(search_view)@ == old(search_view)@.search_in_new(validation),
            panel_view(opened) == old(search_view)@.opened_in_new(validation),
    {
        let new_query = search_view.build_search_query(validation);
        if new_query.is_some() {
            let restored = match &search_view.model.active_query {
                Some(old_query) => Some(
                    (String::from_str(old_query.as_str()), SearchOptions::from_query(old_query)),
                ),
                None => None,
            };
            match restored {
                Some((text, options)) => {
                    search_view.query_editor = text;
                    search_view.search_options = options;
                },
                None => {},
            }
        }
        match new_query {
            Some(new_query) => {
                let mut model = ProjectSearch::new(search_view.model.project);
                model.search(new_query);
                Some(ProjectSearchView::new(model, None, None))
            },
            None => None,
        }
    }

    /// The tab key: moves the focus to the next input. Returns whether the
    /// key was for the toolbar.
    pub fn tab(&mut self) -> (handled: bool)
        ensures
            match old(self)@.active_project_search {
                Some(panel) => final(self)@.active_project_search == Some(
                    panel.cycle_field(Direction::Next),
                ) && handled == (spec_next_field(
                    panel.filters_enabled,
                    panel.replace_enabled,
                    panel.focus,
                    Direction::Next,
                ) is Some),
                None => final(self)@ == old(self)@ && !handled,
            },
    {
        self.cycle_field(Direction::Next)
    }

    /// The tab key with shift: moves the focus to the input before.
    /// Returns whether the key was for the toolbar.
    pub fn tab_previous(&mut self) -> (handled: bool)
        ensures
            match old(self)@.active_project_search {
                Some(panel) => final(self)@.active_project_search == Some(
                    panel.cycle_field(Direction::Prev),
                ) && handled == (spec_next_field(
                    panel.filters_enabled,
                    panel.replace_enabled,
                    panel.focus,
                    Direction::Prev,
                ) is Some),
                None => final(self)@ == old(self)@ && !handled,
            },
    {
        self.cycle_field(Direction::Prev)
    }

    /// Moves the focus to the neighbour, in `direction`, of the input that
    /// has it. Returns whether it moved; it does not while no input has
    /// the focus.
    pub fn cycle_field(&mut self, direction: Direction) -> (handled: bool)
        ensures
            match old(self)@.active_project_search {
                Some(panel) => final(self)@.active_project_search == Some(
                    panel.cycle_field(direction),
                ) && handled == (spec_next_field(
                    panel.filters_enabled,
                    panel.replace_enabled,
                    panel.focus,
                    direction,
                ) is Some),
                None => final(self)@ == old(self)@ && !handled,
            },
    {
        match &mut self.active_project_search {
            Some(project_view) => {
                match next_field(
                    project_view.filters_enabled,
                    project_view.replace_enabled,
                    project_view.focus,
                    direction,
                ) {
                    Some(field) => {
                        project_view.focus = Some(field);
                        true
                    },
                    None => false,
                }
            },
            None => false,
        }
    }

    /// Flips `option`, writes the settings down and searches anew. The
    /// result is `None` while there is no search panel.
    pub fn toggle_search_option(
        &mut self,
        option: SearchOptions,
        validation: QueryValidation,
        settings: &mut ActiveSettings,
    ) -> (dispatch: Option<SearchDispatch>)
        requires
            old(self)@.active_project_search matches Some(panel) ==> (panel.starts_search(validation)
                ==> panel.model.search_id < usize::MAX),
        ensures
            match old(self)@.active_project_search {
                Some(panel) => {
                    &&& final(self)@.active_project_search == Some(
                        panel.toggle_search_option(option).search(validation).0,
                    )
                    &&& dispatch_view(dispatch) == Some(
                        panel.toggle_search_option(option).search(validation).1,
                    )
                    &&& final(settings)@ == panel.toggle_search_option(option).remembered(
                        old(settings)@,
                    )
                },
                None => final(self)@ == old(self)@ && dispatch is None && final(settings)@ == old(settings)@,
            },
    {
        match &mut self.active_project_search {
            Some(search_view) => {
                search_view.toggle_search_option(option, settings);
                Some(search_view.search(validation))
            },
            None => None,
        }
    }

    /// Shows or hides the replacement input and moves the focus.
    pub fn toggle_replace(&mut self)
        ensures
            match old(self)@.active_project_search {
                Some(panel) => final(self)@.active_project_search == Some(panel.toggle_replace()),
                None => final(self)@ == old(self)@,
            },
    {
        match &mut self.active_project_search {
            Some(search) => {
                search.replace_enabled = !search.replace_enabled;
                search.focus = Some(
                    if !search.replace_enabled {
                        SearchFocus::QueryEditor
                    } else {
                        SearchFocus::ReplacementEditor
                    },
                );
            },
            None => {},
        }
    }

    /// Shows or hides the filters and writes the settings down. Returns
    /// whether there is a search panel.
    pub fn toggle_filters(&mut self, settings: &mut ActiveSettings) -> (handled: bool)
        ensures
            match old(self)@.active_project_search {
                Some(panel) => {
                    &&& final(self)@.active_project_search == Some(panel.toggle_filters())
                    &&& final(settings)@ == panel.toggle_filters().remembered(old(settings)@)
                    &&& handled
                },
                None => final(self)@ == old(self)@ && !handled && final(settings)@ == old(settings)@,
            },
    {
        match &mut self.active_project_search {
            Some(search_view) => {
                search_view.toggle_filters(settings);
                true
            },
            None => false,
        }
    }

    /// Switches the panel to `mode`. The result is `None` while there is
    /// no search panel.
    pub fn activate_search_mode(
        &mut self,
        mode: SearchMode,
        validation: QueryValidation,
        settings: &mut ActiveSettings,
    ) -> (activation: Option<ModeActivation>)
        requires
            old(self)@.active_project_search matches Some(panel) ==> (panel.activation_starts_search(mode, validation)
                ==> panel.model.search_id < usize::MAX),
        ensures
            match old(self)@.active_project_search {
                Some(panel) => {
                    &&& final(self)@.active_project_search == Some(
                        panel.activate_search_mode(mode, validation).0,
                    )
                    &&& activation_view(activation) == Some(
                        panel.activate_search_mode(mode, validation).1,
                    )
                    &&& final(settings)@ == panel.remembered_after_activation(
                        mode,
                        validation,
                        old(settings)@,
                    )
                },
                None => final(self)@ == old(self)@ && activation is None && final(settings)@
                    == old(settings)@,
            },
    {
        match &mut self.active_project_search {
            Some(search_view) => Some(search_view.activate_search_mode(mode, validation, settings)),
            None => None,
        }
    }

    /// Whether the panel has every switch of `option` on.
    pub fn is_option_enabled(&self, option: SearchOptions) -> (enabled: bool)
        ensures
            enabled == match self@.active_project_search {
                Some(panel) => panel.search_options.spec_contains(option),
                None => false,
            },
    {
        match &self.active_project_search {
            Some(search) => search.search_options.contains(option),
            None => false,
        }
    }

    /// Steps forward in the history and puts the entry into the query
    /// input; past the newest entry the input is emptied.
    pub fn next_history_query(&mut self)
        ensures
            match old(self)@.active_project_search {
                Some(panel) => final(self)@.active_project_search == Some(
                    panel.next_history_query(),
                ),
                None => final(self)@ == old(self)@,
            },
    {
        match &mut self.active_project_search {
            Some(search_view) => {
                let new_query = match search_view.model.search_history.next() {
                    Some(new_query) => new_query,
                    None => {
                        search_view.model.search_history.reset_selection();
                        String::new()
                    },
                };
                search_view.set_query(new_query.as_str());
            },
            None => {},
        }
    }

    /// Steps back in the history and puts the entry into the query input.
    /// An empty input is first filled with the selected entry.
    pub fn previous_history_query(&mut self)
        ensures
            match old(self)@.active_project_search {
                Some(panel) => final(self)@.active_project_search == Some(
                    panel.previous_history_query(),
                ),
                None => final(self)@ == old(self)@,
            },
    {
        match &mut self.active_project_search {
            Some(search_view) => {
                if search_view.query_editor.as_str().is_empty() {
                    match search_view.model.search_history.current() {
                        Some(new_query) => {
                            search_view.set_query(new_query.as_str());
                            return ;
                        },
                        None => {},
                    }
                }
                match search_view.model.search_history.previous() {
                    Some(new_query) => {
                        search_view.set_query(new_query.as_str());
                    },
                    None => {},
                }
            },
            None => {},
        }
    }

    /// The hint in the empty query input, from the keystrokes bound to the step
    /// back and to the step forward in the history.
    pub fn new_placeholder_text(
        previous_query_keystrokes: &Option<Vec<String>>,
        next_query_keystrokes: &Option<Vec<String>>,
    ) -> (text: Option<String>)
        ensures
            option_view(text) == spec_placeholder_text(
                option_views(*previous_query_keystrokes),
                option_views(*next_query_keystrokes),
            ),
    {
        match (previous_query_keystrokes, next_query_keystrokes) {
            (Some(previous_query_keystrokes), Some(next_query_keystrokes)) => {
                let previous = join(previous_query_keystrokes, " ");
                let next = join(next_query_keystrokes, " ");
                Some(
                    String::from_str("Search (").concat(previous.as_str()).concat("/").concat(
                        next.as_str(),
                    ).concat(" for previous/next query)"),
                )
            },
            (None, Some(next_query_keystrokes)) => {
                let next = join(next_query_keystrokes, " ");
                Some(String::from_str("Search (").concat(next.as_str()).concat(" for next query)"))
            },
            (Some(previous_query_keystrokes), None) => {
                let previous = join(previous_query_keystrokes, " ");
                Some(
                    String::from_str("Search (").concat(previous.as_str()).concat(
                        " for previous query)",
                    ),
                )
            },
            (None, None) => None,
        }
    }

    /// What the toolbar shows; nothing while there is no search panel.
    /// The keystrokes are those bound to the step back and to the step
    /// forward in the history.
    pub fn render(
        &self,
        semantic_is_available: bool,
        previous_query_keystrokes: &Option<Vec<String>>,
        next_query_keystrokes: &Option<Vec<String>>,
    ) -> (layout: Option<BarLayout>)
        requires
            self@.active_project_search matches Some(panel) ==> (panel.active_match_index matches Some(
                index,
            ) ==> index < usize::MAX),
        ensures
            layout_view(layout) == match self@.active_project_search {
                Some(panel) => Some(
                    panel.bar_layout(
                        semantic_is_available,
                        spec_placeholder_text(
                            option_views(*previous_query_keystrokes),
                            option_views(*next_query_keystrokes),
                        ),
                    ),
                ),
                None => None,
            },
    {
        let search = match &self.active_project_search {
            Some(search) => search,
            None => {
                return None;
            },
        };
        let placeholder_text = Self::new_placeholder_text(
            previous_query_keystrokes,
            next_query_keystrokes,
        );
        let not_semantic = match search.current_mode {
            SearchMode::Semantic => false,
            _ => true,
        };
        let match_label = match search.active_match_index {
            Some(index) => {
                let index = index + 1;
                let match_quantity = search.model.match_ranges.len();
                if match_quantity > 0 {
                    let position = unsigned_decimal(index as u64);
                    let quantity = unsigned_decimal(match_quantity as u64);
                    Some(position.concat("/").concat(quantity.as_str()))
                } else {
                    None
                }
            },
            None => None,
        };
        Some(
            BarLayout {
                placeholder_text,
                filters_selected: search.filters_enabled,
                case_sensitive_button: if not_semantic {
                    Some(self.is_option_enabled(SearchOptions::only_whole_word()))
                } else {
                    None
                },
                text_mode_selected: search.current_mode == SearchMode::Text,
                regex_mode_selected: search.current_mode == SearchMode::Regex,
                semantic_mode_button: if semantic_is_available {
                    Some(search.current_mode == SearchMode::Semantic)
                } else {
                    None
                },
                replace_enabled: search.replace_enabled,
                match_label,
                navigation_disabled: search.active_match_index.is_none(),
                option_actions: not_semantic,
                include_ignored_action: not_semantic && search.filters_enabled,
            },
        )
    }

    /// Takes note of what the active pane shows: `active_pane_item` is its
    /// search panel, `None` where it shows something else. A panel in
    /// semantic mode takes the index into use, `index_status` being what
    /// the index says of the project. Returns where the toolbar is shown.
    pub fn set_active_pane_item(
        &mut self,
        active_pane_item: Option<ProjectSearchView>,
        index_status: Option<SemanticIndexStatus>,
    ) -> (location: ToolbarItemLocation)
        ensures
            final(self)@ == SearchBarState::set_active_pane_item(
                panel_view(active_pane_item),
                index_status,
            ),
            location == if active_pane_item is Some {
                ToolbarItemLocation::PrimaryLeft
            } else {
                ToolbarItemLocation::Hidden
            },
    {
        self.active_project_search = None;
        match active_pane_item {
            Some(search) => {
                let mut search = search;
                if search.current_mode == SearchMode::Semantic {
                    search.index_project(index_status);
                }
                self.active_project_search = Some(search);
                ToolbarItemLocation::PrimaryLeft
            },
            None => ToolbarItemLocation::Hidden,
        }
    }

    /// How many rows the toolbar takes.
    pub fn row_count(&self) -> (rows: usize)
        ensures
            rows == self@.row_count(),
    {
        match &self.active_project_search {
            Some(search) => {
                if search.filters_enabled {
                    return 2;
                }
            },
            None => {},
        }
        1
    }
}

impl Default for ProjectSearchBar {
    fn default() -> (bar: Self)
        ensures
            bar@.active_project_search is None,
    {
        Self::new()
    }
}

} // verus!
