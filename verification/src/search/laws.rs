//! What holds of the search panel whatever the user does.

use crate::search::bar::fields;
use crate::search::bar::spec_next_field;
use crate::search::bar::step_in_ring;
use crate::search::bar::SearchBarState;
use crate::search::events::Direction;
use crate::search::events::InputPanel;
use crate::search::events::SearchFocus;
use crate::search::history::lemma_after_searches;
use crate::search::history::SearchHistoryView;
use crate::search::mode::SearchMode;
use crate::search::model::MatchRange;
use crate::search::query::QueryValidation;
use crate::search::view::ModeActivationView;
use crate::search::view::SearchDispatchView;
use crate::search::view::SearchViewState;
use vstd::prelude::*;

verus! {

/// A switch to another mode leaves no match behind: the list of matches is
/// empty and no match is active, whatever the inputs hold and whether or
/// not a new search could be started.
pub proof fn lemma_mode_switch_clears_matches(
    panel: SearchViewState,
    mode: SearchMode,
    validation: QueryValidation,
)
    requires
        panel.current_mode != mode,
    ensures
        panel.activate_search_mode(mode, validation).0.current_mode == mode,
        panel.activate_search_mode(mode, validation).0.model.match_ranges
            == Seq::<MatchRange>::empty(),
        panel.activate_search_mode(mode, validation).0.active_match_index is None,
        !panel.activate_search_mode(mode, validation).0.has_matches(),
{
}

/// A switch to the mode that is active already changes nothing.
pub proof fn lemma_same_mode_changes_nothing(
    panel: SearchViewState,
    validation: QueryValidation,
)
    ensures
        panel.activate_search_mode(panel.current_mode, validation) == (
            panel,
            ModeActivationView::Unchanged,
        ),
{
}

/// A search that is dispatched records the query as the newest entry of
/// the history and selects it; a search that is not dispatched leaves the
/// history alone.
pub proof fn lemma_search_records_query(panel: SearchViewState, validation: QueryValidation)
    ensures
        panel.search(validation).1 != SearchDispatchView::NoSearch ==> panel.search(
            validation,
        ).0.model.search_history == panel.model.search_history.add(panel.query_editor),
        panel.search(validation).1 == SearchDispatchView::NoSearch ==> panel.search(
            validation,
        ).0.model.search_history == panel.model.search_history,
{
}

/// A search is dispatched exactly when it is started; it then has the next
/// number, which is the number of the search that is pending afterwards.
pub proof fn lemma_started_search_is_dispatched(panel: SearchViewState, validation: QueryValidation)
    requires
        panel.model.search_id < usize::MAX,
    ensures
        panel.starts_search(validation) <==> panel.search(validation).1
            != SearchDispatchView::NoSearch,
        panel.starts_search(validation) ==> {
            &&& panel.search(validation).0.model.search_id == panel.model.search_id + 1
            &&& panel.search(validation).0.model.pending_search == Some(
                (panel.model.search_id + 1) as usize,
            )
        },
        !panel.starts_search(validation) ==> panel.search(validation).0.model == panel.model,
{
}

/// A switch of the mode starts a search exactly when it dispatches one.
pub proof fn lemma_activation_starts_search(
    panel: SearchViewState,
    mode: SearchMode,
    validation: QueryValidation,
)
    ensures
        panel.activation_starts_search(mode, validation) <==> (panel.activate_search_mode(
            mode,
            validation,
        ).1 matches ModeActivationView::Searched { dispatch } && dispatch
            != SearchDispatchView::NoSearch),
{
}

/// Nothing is searched for while an input is refused. The first refused
/// input, in the order include filters, exclude filters, query, is marked;
/// the inputs before it are not.
pub proof fn lemma_refused_input_blocks_search(panel: SearchViewState, validation: QueryValidation)
    requires
        !validation.included_files || !validation.excluded_files || !panel.query_accepted(
            validation,
        ),
    ensures
        panel.search(validation).1 == SearchDispatchView::NoSearch,
        panel.search(validation).0.model == panel.model,
        panel.build_search_query(validation).1 is None,
        !validation.included_files ==> panel.build_search_query(
            validation,
        ).0.panels_with_errors.contains(InputPanel::Include),
        validation.included_files && !validation.excluded_files ==> {
            let marked = panel.build_search_query(validation).0.panels_with_errors;
            marked.contains(InputPanel::Exclude) && !marked.contains(InputPanel::Include)
        },
        validation.included_files && validation.excluded_files ==> {
            let marked = panel.build_search_query(validation).0.panels_with_errors;
            marked.contains(InputPanel::Query) && !marked.contains(InputPanel::Include)
                && !marked.contains(InputPanel::Exclude)
        },
{
}

/// A query that is built leaves no input marked.
pub proof fn lemma_built_query_clears_marks(panel: SearchViewState, validation: QueryValidation)
    requires
        validation.included_files,
        validation.excluded_files,
        panel.query_accepted(validation),
    ensures
        panel.build_search_query(validation).1 == Some(panel.query()),
        forall|input: InputPanel|
            !panel.build_search_query(validation).0.panels_with_errors.contains(input),
{
    assert forall|input: InputPanel|
        !panel.build_search_query(validation).0.panels_with_errors.contains(input) by {
        match input {
            InputPanel::Query => {},
            InputPanel::Exclude => {},
            InputPanel::Include => {},
        }
    }
}

/// What the host says when it accepts every input.
pub open spec fn all_accepted() -> QueryValidation {
    QueryValidation { included_files: true, excluded_files: true, text_query: true, regex_query: true }
}

/// Whether a search is dispatched once the inputs are accepted: always in
/// text and regular-expression mode, in semantic mode once the index is in
/// use.
pub open spec fn ready_to_search(panel: SearchViewState) -> bool {
    panel.current_mode != SearchMode::Semantic || panel.semantic_state is Some
}

/// The panel after each of `queries` was typed into the query input and
/// searched for, one after the other, every input being accepted.
pub open spec fn after_searches(panel: SearchViewState, queries: Seq<Seq<char>>) -> SearchViewState
    decreases queries.len(),
{
    if queries.len() == 0 {
        panel
    } else {
        after_searches(panel, queries.drop_last()).set_query(queries.last()).search(
            all_accepted(),
        ).0
    }
}

/// The panel after `steps` steps back in the history.
pub open spec fn after_steps_back(panel: SearchViewState, steps: nat) -> SearchViewState
    decreases steps,
{
    if steps == 0 {
        panel
    } else {
        after_steps_back(panel, (steps - 1) as nat).previous_history_query()
    }
}

/// Searches fill the history in their order: after a run of searches the
/// history holds their queries behind what it held before, the last query
/// is selected and is what the query input holds.
pub proof fn lemma_searches_fill_history(panel: SearchViewState, queries: Seq<Seq<char>>)
    requires
        ready_to_search(panel),
    ensures
        ready_to_search(after_searches(panel, queries)),
        after_searches(panel, queries).model.search_history
            == panel.model.search_history.add_all(queries),
        queries.len() > 0 ==> after_searches(panel, queries).query_editor == queries.last(),
    decreases queries.len(),
{
    if queries.len() > 0 {
        lemma_searches_fill_history(panel, queries.drop_last());
    }
}

/// After any number of searches, the step forward from the last one leads
/// nowhere: the query input is emptied and nothing is selected, and it
/// stays so however often the step is repeated. The same holds before the
/// first search, as long as nothing is selected.
pub proof fn lemma_next_after_last_empties_query(panel: SearchViewState, queries: Seq<Seq<char>>)
    requires
        ready_to_search(panel),
        panel.model.search_history.wf(),
        queries.len() > 0 || panel.model.search_history.selected is None,
    ensures
        ({
            let searched = after_searches(panel, queries);
            &&& searched.next_history_query().query_editor == Seq::<char>::empty()
            &&& searched.next_history_query().model.search_history
                == searched.model.search_history.reset_selection()
            &&& searched.next_history_query().next_history_query()
                == searched.next_history_query()
        }),
{
    lemma_searches_fill_history(panel, queries);
    lemma_after_searches(panel.model.search_history, queries);
}

/// From an empty query input, the step back brings the most recent search:
/// after the step forward has emptied the input, and as well when the user
/// emptied it by hand.
pub proof fn lemma_previous_from_empty_is_most_recent(
    panel: SearchViewState,
    queries: Seq<Seq<char>>,
)
    requires
        ready_to_search(panel),
        panel.model.search_history.wf(),
        queries.len() > 0,
    ensures
        ({
            let searched = after_searches(panel, queries);
            &&& searched.next_history_query().previous_history_query().query_editor
                == queries.last()
            &&& searched.set_query(Seq::<char>::empty()).previous_history_query().query_editor
                == queries.last()
        }),
{
    lemma_searches_fill_history(panel, queries);
    lemma_after_searches(panel.model.search_history, queries);
}

/// The step back stops at the oldest entry. While it is selected, a step
/// back moves nothing in the history, and the query input holds the oldest
/// entry afterwards if it held it before or was empty.
pub proof fn lemma_previous_stops_at_oldest(panel: SearchViewState)
    requires
        panel.model.search_history.entries.len() > 0,
        panel.model.search_history.selected == Some(0int),
    ensures
        panel.previous_history_query().model == panel.model,
        panel.query_editor.len() > 0 ==> panel.previous_history_query() == panel,
        panel.query_editor.len() == 0 ==> panel.previous_history_query().query_editor
            == panel.model.search_history.entries[0],
{
}

/// Stepping back after a run of searches in a new panel walks through the
/// queries from the last to the first and then rests on the first, however
/// many more steps are taken. (A query that is empty would hold the walk up:
/// an empty input is filled before a step is taken.)
pub proof fn lemma_steps_back_end_at_oldest(
    panel: SearchViewState,
    queries: Seq<Seq<char>>,
    steps: nat,
)
    requires
        ready_to_search(panel),
        panel.model.search_history == SearchHistoryView::empty(),
        queries.len() > 0,
        forall|i: int| 0 <= i < queries.len() ==> (#[trigger] queries[i]).len() > 0,
    ensures
        ({
            let walked = after_steps_back(after_searches(panel, queries), steps);
            let rests_at = if steps < queries.len() {
                queries.len() - 1 - steps
            } else {
                0
            };
            &&& walked.model.search_history.entries == queries
            &&& walked.model.search_history.selected == Some(rests_at)
            &&& walked.query_editor == queries[rests_at]
        }),
    decreases steps,
{
    lemma_searches_fill_history(panel, queries);
    lemma_after_searches(panel.model.search_history, queries);
    if steps > 0 {
        lemma_steps_back_end_at_oldest(panel, queries, (steps - 1) as nat);
    }
}

/// Steps through the history never change its entries, and leave a
/// well-formed history well formed.
pub proof fn lemma_history_steps_keep_entries(panel: SearchViewState)
    requires
        panel.model.search_history.wf(),
    ensures
        panel.next_history_query().model.search_history.entries
            == panel.model.search_history.entries,
        panel.previous_history_query().model.search_history.entries
            == panel.model.search_history.entries,
        panel.next_history_query().model.search_history.wf(),
        panel.previous_history_query().model.search_history.wf(),
{
}

/// Once the search has changed, a panel without matches has no active
/// match; a panel with matches has the one that the results name, so an
/// index that lies within the matches gives an active match that does.
pub proof fn lemma_model_changed_tracks_matches(
    panel: SearchViewState,
    match_at_cursor: Option<usize>,
)
    ensures
        panel.model.match_ranges.len() == 0 ==> panel.model_changed(
            match_at_cursor,
        ).0.active_match_index is None,
        panel.model.match_ranges.len() > 0 ==> panel.model_changed(
            match_at_cursor,
        ).0.active_match_index == match_at_cursor,
        panel.model_changed(match_at_cursor).0.model == panel.model,
        panel.model.match_ranges.len() > 0 ==> panel.model_changed(match_at_cursor).0.search_id
            == panel.model.search_id,
        panel.model.match_ranges.len() > 0 ==> !panel.model_changed(
            match_at_cursor,
        ).0.is_new_search(),
{
}

/// The toolbar takes two rows exactly while it has a panel whose filters
/// are shown.
pub proof fn lemma_row_count(bar: SearchBarState)
    ensures
        bar.row_count() == 1 || bar.row_count() == 2,
        bar.row_count() == 2 <==> (bar.active_project_search matches Some(panel)
            && panel.filters_enabled),
{
}

/// The tab key moves the focus within the inputs that are shown, and the
/// same key with shift moves it back: the inputs form a ring.
pub proof fn lemma_fields_form_a_ring(
    filters_enabled: bool,
    replace_enabled: bool,
    field: SearchFocus,
    direction: Direction,
)
    requires
        fields(filters_enabled, replace_enabled).contains(field),
    ensures
        ({
            let back = match direction {
                Direction::Next => Direction::Prev,
                Direction::Prev => Direction::Next,
            };
            let moved = spec_next_field(filters_enabled, replace_enabled, Some(field), direction);
            &&& moved is Some
            &&& fields(filters_enabled, replace_enabled).contains(moved->0)
            &&& spec_next_field(filters_enabled, replace_enabled, moved, back) == Some(field)
        }),
{
    let shown = fields(filters_enabled, replace_enabled);
    assert(forall|i: int, j: int|
        0 <= i < shown.len() && 0 <= j < shown.len() && i != j ==> shown[i] != shown[j]);
    shown.index_of_first_ensures(field);
    let at = shown.index_of_first(field)->0;
    let moved = shown[step_in_ring(at, shown.len() as int, direction)];
    shown.index_of_first_ensures(moved);
}

/// Without the focus on one of the inputs that are shown, the tab key is
/// not for the toolbar.
pub proof fn lemma_tab_needs_focus_on_a_field(
    filters_enabled: bool,
    replace_enabled: bool,
    focus: Option<SearchFocus>,
    direction: Direction,
)
    ensures
        spec_next_field(filters_enabled, replace_enabled, focus, direction) is Some <==> (
        focus matches Some(field) && fields(filters_enabled, replace_enabled).contains(field)),
{
    match focus {
        Some(field) => {
            fields(filters_enabled, replace_enabled).index_of_first_ensures(field);
        },
        None => {},
    }
}

} // verus!
