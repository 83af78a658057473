use editor_panels::search::bar::ProjectSearchBar;
use editor_panels::search::events::InputPanel;
use editor_panels::search::events::SearchFocus;
use editor_panels::search::events::ToolbarItemLocation;
use editor_panels::search::mode::SearchMode;
use editor_panels::search::model::MatchRange;
use editor_panels::search::model::ProjectSearch;
use editor_panels::search::options::SearchOptions;
use editor_panels::search::query::QueryKind;
use editor_panels::search::query::QueryValidation;
use editor_panels::search::query::SearchQuery;
use editor_panels::search::semantic::RateLimit;
use editor_panels::search::semantic::SemanticIndexStatus;
use editor_panels::search::semantic::SemanticState;
use editor_panels::search::settings::ActiveSettings;
use editor_panels::search::settings::ProjectSearchSettings;
use editor_panels::search::view::semantic_prompt_text;
use editor_panels::search::view::ModeActivation;
use editor_panels::search::view::ModelChanged;
use editor_panels::search::view::ProjectSearchView;
use editor_panels::search::view::SearchDispatch;
use editor_panels::search::view::SearchViewLayout;

fn accepted() -> QueryValidation {
    QueryValidation { included_files: true, excluded_files: true, text_query: true, regex_query: true }
}

fn range(start: usize, end: usize) -> MatchRange {
    MatchRange { start, end }
}

fn two_matches() -> Vec<MatchRange> {
    // The matches of "TWO" in
    // "\n\nconst THREE: usize = one::ONE + two::TWO;\n\n\nconst TWO: usize = one::ONE + one::ONE;"
    vec![range(34, 37), range(39, 42), range(52, 55)]
}

fn new_view() -> ProjectSearchView {
    ProjectSearchView::new(ProjectSearch::new(7), None, None)
}

/// Runs a search to its end, the host reporting `batches`, and lets the
/// panel look at the model after each step as the host would.
fn run_search(view: &mut ProjectSearchView, query: &str, batches: &[Vec<MatchRange>]) -> Vec<ModelChanged> {
    let mut changes = Vec::new();
    view.set_query(query);
    let search_id = match view.search(accepted()) {
        SearchDispatch::Project { search_id, .. } => search_id,
        SearchDispatch::Semantic { search_id, .. } => search_id,
        SearchDispatch::NoSearch => panic!("nothing was searched for"),
    };
    changes.push(view.model_changed(None));
    assert!(view.model.results_started(search_id));
    for batch in batches {
        assert!(view.model.matches_found(search_id, batch));
        changes.push(view.model_changed(Some(0)));
    }
    assert!(view.model.search_finished(search_id));
    let at_cursor = if view.model.match_ranges.is_empty() { None } else { Some(0) };
    changes.push(view.model_changed(at_cursor));
    changes
}

#[test]
fn test_project_search() {
    let mut search_view = new_view();
    let changes = run_search(&mut search_view, "TWO", &[two_matches()[..2].to_vec(), two_matches()[2..].to_vec()]);

    assert_eq!(search_view.model.match_ranges, two_matches());
    assert_eq!(search_view.active_match_index, Some(0));
    // The first match is selected once, when the first results arrive.
    assert_eq!(
        changes,
        vec![
            ModelChanged { select: None, highlight: false, focus_results: false },
            ModelChanged { select: Some(range(34, 37)), highlight: true, focus_results: false },
            ModelChanged { select: None, highlight: true, focus_results: false },
            ModelChanged { select: None, highlight: true, focus_results: false },
        ]
    );

    // Stepping through the matches: the results name the match to go to, the
    // panel hands out its range, and the new selection makes it the active one.
    let mut step = |view: &mut ProjectSearchView, to: usize| {
        let selected = view.select_match(to);
        view.update_match_index(Some(to));
        selected
    };
    assert_eq!(step(&mut search_view, 1), Some(range(39, 42)));
    assert_eq!(search_view.active_match_index, Some(1));
    assert_eq!(step(&mut search_view, 2), Some(range(52, 55)));
    assert_eq!(search_view.active_match_index, Some(2));
    assert_eq!(step(&mut search_view, 0), Some(range(34, 37)));
    assert_eq!(search_view.active_match_index, Some(0));
    assert_eq!(step(&mut search_view, 2), Some(range(52, 55)));
    assert_eq!(search_view.active_match_index, Some(2));
    assert_eq!(step(&mut search_view, 1), Some(range(39, 42)));
    assert_eq!(search_view.active_match_index, Some(1));
}

#[test]
fn test_project_search_focus() {
    let settings = ActiveSettings::new();
    let mut search_view = ProjectSearchView::deploy(1, None, &settings);
    assert_eq!(
        search_view.focus,
        Some(SearchFocus::QueryEditor),
        "Search view should be focused after the new search view is activated"
    );
    assert!(search_view.query_editor.is_empty(), "New search query should be empty");
    assert!(search_view.model.match_ranges.is_empty(), "Empty search view should have no results");
    assert!(!search_view.has_matches());

    run_search(&mut search_view, "sOMETHINGtHATsURELYdOESnOTeXIST", &[]);
    assert!(search_view.model.match_ranges.is_empty());
    assert_eq!(
        search_view.focus,
        Some(SearchFocus::QueryEditor),
        "Search view should be focused after mismatching query had been used in search"
    );

    let changes = run_search(&mut search_view, "TWO", &[two_matches()]);
    assert_eq!(search_view.model.match_ranges, two_matches(), "Search view results should match the query");
    assert_eq!(
        search_view.focus,
        Some(SearchFocus::ResultsEditor),
        "Search view with matching query should be focused after search results are available"
    );
    assert!(!search_view.query_editor_was_focused);
    assert_eq!(changes[1], ModelChanged { select: Some(range(34, 37)), highlight: true, focus_results: true });

    let mut search_view_2 = ProjectSearchView::deploy(1, Some("two".to_string()), &settings);
    assert!(search_view_2 != search_view, "New search view should be open after the new search event");
    assert_eq!(search_view.query_editor, "TWO", "First search view should not have an updated query");
    assert_eq!(search_view.model.match_ranges, two_matches(), "Results of the first search view should not update too");
    assert_eq!(search_view_2.query_editor, "two");
    assert!(search_view_2.model.match_ranges.is_empty());
    assert_eq!(
        search_view_2.focus,
        Some(SearchFocus::QueryEditor),
        "Focus should be moved into query editor fo the new window"
    );

    run_search(&mut search_view_2, "FOUR", &[vec![range(8, 12)]]);
    assert_eq!(
        search_view_2.model.match_ranges,
        vec![range(8, 12)],
        "New search view with the updated query should have new search results"
    );
    assert_eq!(search_view_2.focus, Some(SearchFocus::ResultsEditor));
}

#[test]
fn test_new_project_search_in_directory() {
    assert_eq!(
        ProjectSearchView::new_search_in_directory(1, false, Some("a/one.rs")),
        None,
        "Expected no search panel to be active for file entry"
    );
    assert_eq!(ProjectSearchView::new_search_in_directory(1, true, None), None);
    assert_eq!(ProjectSearchView::new_search_in_directory(1, false, None), None);

    let mut search_view = ProjectSearchView::new_search_in_directory(1, true, Some("a"))
        .expect("Search view expected to appear after new search in directory event trigger");
    assert_eq!(
        search_view.focus,
        Some(SearchFocus::QueryEditor),
        "On new search in directory, focus should be moved into query editor"
    );
    assert!(search_view.query_editor_was_focused);
    assert!(
        search_view.excluded_files_editor.is_empty(),
        "New search in directory should not have any excluded files"
    );
    assert_eq!(
        search_view.included_files_editor, "a",
        "New search in directory should have included dir entry path"
    );
    assert!(search_view.filters_enabled);
    assert_eq!(search_view.current_mode, SearchMode::Text);
    assert_eq!(search_view.model.project, 1);

    search_view.set_query("const");
    match search_view.search(accepted()) {
        SearchDispatch::Project { search_id, query } => {
            assert_eq!(search_id, 1);
            assert_eq!(query.as_str(), "const");
            assert_eq!(
                query.inner.files_to_include,
                vec!["a".to_string()],
                "New search in directory should have a filter that matches a certain directory"
            );
            assert!(query.inner.files_to_exclude.is_empty());
        }
        other => panic!("expected a project search, got {:?}", other),
    }
}

#[test]
fn new_view_takes_settings_and_active_query() {
    let view = new_view();
    assert_eq!(view.search_options, SearchOptions::none());
    assert_eq!(view.current_mode, SearchMode::Text);
    assert!(!view.filters_enabled);
    assert!(!view.replace_enabled);
    assert_eq!(view.focus, None);
    assert_eq!(view.active_match_index, None);
    assert_eq!(view.search_id, 0);
    assert_eq!(view.semantic_state, None);
    assert_eq!(view.semantic_permissioned, None);
    assert_eq!(view.semantic_permissioned(), None);

    let settings = ProjectSearchSettings {
        search_options: SearchOptions::only_whole_word(),
        filters_enabled: true,
        current_mode: SearchMode::Regex,
    };
    let view = ProjectSearchView::new(ProjectSearch::new(7), Some(settings), None);
    assert_eq!(view.current_settings(), settings);

    let mut model = ProjectSearch::new(7);
    let query = SearchQuery::regex("a+".to_string(), false, true, true, vec![], vec![])
        .with_replacement("b".to_string());
    let search_id = model.search(query);
    model.results_started(search_id);
    model.matches_found(search_id, &vec![range(1, 2), range(5, 6)]);
    let copy = model.clone();
    assert_eq!(copy.pending_search, None);
    assert_eq!(copy.match_ranges, model.match_ranges);
    assert_eq!(copy.search_id, 1);
    let view = ProjectSearchView::new(copy, Some(settings), Some(1));
    assert_eq!(view.query_editor, "a+");
    assert_eq!(view.replacement_editor, "b");
    assert_eq!(view.replacement(), "b");
    assert_eq!(
        view.search_options,
        SearchOptions { whole_word: false, case_sensitive: true, include_ignored: true }
    );
    assert_eq!(view.current_mode, SearchMode::Regex);
    assert!(view.filters_enabled);
    assert_eq!(view.active_match_index, Some(1));
    assert_eq!(view.search_id, 1);
    assert!(view.has_matches());
}

#[test]
fn build_search_query_marks_the_first_refused_input() {
    let mut view = new_view();
    view.set_query("needle");
    view.included_files_editor = "src/**, , *.rs".to_string();
    view.excluded_files_editor = " vendor/* ".to_string();
    view.search_options = SearchOptions { whole_word: true, case_sensitive: false, include_ignored: true };

    let refused_all = QueryValidation { included_files: false, excluded_files: false, text_query: false, regex_query: false };
    assert_eq!(view.build_search_query(refused_all), None);
    assert!(view.panels_with_errors.contains(InputPanel::Include));
    assert!(!view.panels_with_errors.contains(InputPanel::Exclude));
    assert!(!view.panels_with_errors.contains(InputPanel::Query));

    let refused_exclude = QueryValidation { included_files: true, ..refused_all };
    assert_eq!(view.build_search_query(refused_exclude), None);
    assert!(!view.panels_with_errors.contains(InputPanel::Include));
    assert!(view.panels_with_errors.contains(InputPanel::Exclude));
    assert!(!view.panels_with_errors.contains(InputPanel::Query));

    let refused_text = QueryValidation { included_files: true, excluded_files: true, text_query: false, regex_query: true };
    assert_eq!(view.build_search_query(refused_text), None);
    assert!(!view.panels_with_errors.contains(InputPanel::Exclude));
    assert!(view.panels_with_errors.contains(InputPanel::Query));

    // A refused include filter keeps the older mark on the query.
    assert_eq!(view.build_search_query(refused_all), None);
    assert!(view.panels_with_errors.contains(InputPanel::Include));
    assert!(view.panels_with_errors.contains(InputPanel::Query));

    let query = view.build_search_query(accepted()).unwrap();
    assert!(!view.panels_with_errors.contains(InputPanel::Include));
    assert!(!view.panels_with_errors.contains(InputPanel::Exclude));
    assert!(!view.panels_with_errors.contains(InputPanel::Query));
    assert_eq!(query.kind, QueryKind::Text);
    assert_eq!(query.as_str(), "needle");
    assert_eq!(query.inner.files_to_include, vec!["src/**".to_string(), "*.rs".to_string()]);
    assert_eq!(query.inner.files_to_exclude, vec!["vendor/*".to_string()]);
    assert!(query.whole_word);
    assert!(!query.case_sensitive);
    assert!(query.include_ignored);
    assert_eq!(query.replacement(), None);

    view.current_mode = SearchMode::Regex;
    assert_eq!(view.build_search_query(refused_text).unwrap().kind, QueryKind::Regex);
    let refused_regex = QueryValidation { regex_query: false, text_query: true, ..accepted() };
    assert_eq!(view.build_search_query(refused_regex), None);
    assert!(view.panels_with_errors.contains(InputPanel::Query));
    view.current_mode = SearchMode::Semantic;
    assert_eq!(view.build_search_query(refused_regex).unwrap().kind, QueryKind::Text);
}

#[test]
fn parse_path_matches_splits_on_commas() {
    assert_eq!(
        ProjectSearchView::parse_path_matches("crates/**/*.toml, vendor/*,, *.lock "),
        vec!["crates/**/*.toml".to_string(), "vendor/*".to_string(), "*.lock".to_string()]
    );
    assert_eq!(ProjectSearchView::parse_path_matches(""), Vec::<String>::new());
}

#[test]
fn search_numbers_its_searches_and_records_them() {
    let mut view = new_view();
    view.set_query("one");
    let first = view.search(accepted());
    assert!(matches!(first, SearchDispatch::Project { search_id: 1, .. }));
    assert_eq!(view.model.pending_search, Some(1));
    assert_eq!(view.model.search_id, 1);
    assert_eq!(view.model.active_query.as_ref().unwrap().as_str(), "one");
    view.set_query("two");
    let second = view.search(accepted());
    assert!(matches!(second, SearchDispatch::Project { search_id: 2, .. }));
    assert_eq!(view.model.search_history.entries(), vec!["one".to_string(), "two".to_string()]);
    assert_eq!(view.model.search_history.current(), Some("two".to_string()));

    let refused = QueryValidation { text_query: false, ..accepted() };
    assert_eq!(view.search(refused), SearchDispatch::NoSearch);
    assert_eq!(view.model.search_id, 2);
    assert_eq!(view.model.search_history.entries().len(), 2);
}

#[test]
fn superseded_search_reports_in_vain() {
    let mut model = ProjectSearch::new(1);
    let first = model.search(SearchQuery::text("a".to_string(), false, false, false, vec![], vec![]));
    assert!(model.results_started(first));
    assert_eq!(model.no_results, Some(true));
    assert!(model.matches_found(first, &vec![range(0, 1)]));
    assert_eq!(model.no_results, Some(false));
    let second = model.search(SearchQuery::text("b".to_string(), false, false, false, vec![], vec![]));
    assert_eq!(second, first + 1);
    assert!(model.match_ranges.is_empty());
    assert!(model.is_pending(second));
    assert!(!model.is_pending(first));

    assert!(!model.matches_found(first, &vec![range(2, 3)]));
    assert!(!model.results_started(first));
    assert!(!model.search_finished(first));
    assert!(model.match_ranges.is_empty());
    assert_eq!(model.pending_search, Some(second));
    assert_eq!(model.no_results, Some(false));

    assert!(model.results_started(second));
    assert_eq!(model.no_results, Some(true));
    assert!(model.matches_found(second, &vec![]));
    assert_eq!(model.no_results, Some(false));
    assert!(model.matches_found(second, &vec![range(4, 5), range(6, 7)]));
    assert!(model.matches_found(second, &vec![range(8, 9)]));
    assert_eq!(model.match_ranges, vec![range(4, 5), range(6, 7), range(8, 9)]);
    assert!(model.search_finished(second));
    assert_eq!(model.pending_search, None);
    assert!(!model.matches_found(second, &vec![range(10, 11)]));
    assert_eq!(model.match_ranges.len(), 3);

    model.clear();
    assert!(model.match_ranges.is_empty());
    assert_eq!(model.no_results, None);
    assert_eq!(model.pending_search, None);
    assert_eq!(model.search_id, second);
    assert_eq!(model.active_query.as_ref().unwrap().as_str(), "b");
}

#[test]
fn switching_mode_clears_matches_and_active_index() {
    let mut settings = ActiveSettings::new();
    let mut view = new_view();
    run_search(&mut view, "TWO", &[two_matches()]);
    assert_eq!(view.active_match_index, Some(0));
    assert_eq!(view.model.match_ranges.len(), 3);

    // The same mode: nothing happens.
    assert_eq!(view.activate_search_mode(SearchMode::Text, accepted(), &mut settings), ModeActivation::Unchanged);
    assert_eq!(view.active_match_index, Some(0));
    assert_eq!(view.model.match_ranges.len(), 3);
    assert_eq!(settings.get(7), None);

    let activation = view.activate_search_mode(SearchMode::Regex, accepted(), &mut settings);
    match activation {
        ModeActivation::Searched { dispatch: SearchDispatch::Project { search_id, query } } => {
            assert_eq!(search_id, 2);
            assert_eq!(query.kind, QueryKind::Regex);
            assert_eq!(query.as_str(), "TWO");
        }
        other => panic!("expected a new search, got {:?}", other),
    }
    assert_eq!(view.current_mode, SearchMode::Regex);
    assert_eq!(view.active_match_index, None);
    assert!(view.model.match_ranges.is_empty());
    assert!(!view.has_matches());
    assert_eq!(settings.get(7), Some(view.current_settings()));
    assert_eq!(settings.get(8), None);

    // With a refused query the matches are gone all the same.
    view.model.matches_found(2, &two_matches());
    view.model_changed(Some(2));
    assert_eq!(view.active_match_index, Some(2));
    let refused = QueryValidation { text_query: false, ..accepted() };
    assert_eq!(
        view.activate_search_mode(SearchMode::Text, refused, &mut settings),
        ModeActivation::Searched { dispatch: SearchDispatch::NoSearch }
    );
    assert_eq!(view.active_match_index, None);
    assert!(view.model.match_ranges.is_empty());
    assert_eq!(view.model.pending_search, None);
    assert_eq!(view.model.no_results, None);

    view.model.matches_found(2, &two_matches());
    assert!(view.model.match_ranges.is_empty());
    view.semantic_permissioned = Some(true);
    assert_eq!(
        view.activate_search_mode(SearchMode::Semantic, accepted(), &mut settings),
        ModeActivation::AwaitPermission { known: Some(true), previous_mode: SearchMode::Text }
    );
    assert_eq!(view.current_mode, SearchMode::Semantic);
    assert_eq!(view.active_match_index, None);
    assert_eq!(settings.get(7).unwrap().current_mode, SearchMode::Semantic);
}

#[test]
fn semantic_mode_needs_permission_before_it_indexes() {
    let mut settings = ActiveSettings::new();
    let mut view = new_view();
    view.search_options = SearchOptions::only_case_sensitive();
    view.set_query("where is the prompt");
    assert_eq!(
        view.activate_search_mode(SearchMode::Semantic, accepted(), &mut settings),
        ModeActivation::AwaitPermission { known: None, previous_mode: SearchMode::Text }
    );
    // Nothing is searched for before the index is in use.
    assert_eq!(view.search(accepted()), SearchDispatch::NoSearch);
    assert_eq!(view.model.search_id, 0);

    // The project was not indexed before: the user is asked, and says no.
    assert!(view.semantic_permission_resolved(false, Some(SemanticIndexStatus::NotIndexed)));
    assert_eq!(view.semantic_state, None);
    let activation = view.semantic_prompt_answered(1, SearchMode::Text, Some(SemanticIndexStatus::NotIndexed), accepted(), &mut settings);
    assert!(matches!(
        activation,
        Some(ModeActivation::Searched { dispatch: SearchDispatch::Project { search_id: 1, .. } })
    ));
    assert_eq!(view.semantic_permissioned, Some(false));
    assert_eq!(view.current_mode, SearchMode::Text);
    assert_eq!(view.search_options, SearchOptions::only_case_sensitive());

    // Asked again, the user says yes.
    assert_eq!(
        view.activate_search_mode(SearchMode::Semantic, accepted(), &mut settings),
        ModeActivation::AwaitPermission { known: Some(false), previous_mode: SearchMode::Text }
    );
    assert!(view.semantic_permission_resolved(false, None));
    let status = SemanticIndexStatus::Indexing { remaining_files: 3, rate_limit_expiry: None };
    assert_eq!(view.semantic_prompt_answered(0, SearchMode::Text, Some(status), accepted(), &mut settings), None);
    assert_eq!(view.semantic_permissioned, Some(true));
    assert_eq!(view.current_mode, SearchMode::Semantic);
    assert_eq!(view.search_options, SearchOptions::none());
    assert_eq!(view.semantic_state, Some(SemanticState { index_status: status, maintain_rate_limit: false }));

    match view.search(accepted()) {
        SearchDispatch::Semantic { search_id, inputs } => {
            assert_eq!(search_id, 2);
            assert_eq!(inputs.as_str(), "where is the prompt");
        }
        other => panic!("expected a semantic search, got {:?}", other),
    }
    assert_eq!(view.model.no_results, None);
    assert_eq!(view.model.pending_search, Some(2));
    // The active query is still the one of the text search.
    assert_eq!(view.model.active_query.as_ref().unwrap().kind, QueryKind::Text);
    assert_eq!(view.model.search_history.current(), Some("where is the prompt".to_string()));

    // Back in text mode the index is out of use.
    view.activate_search_mode(SearchMode::Text, accepted(), &mut settings);
    assert_eq!(view.semantic_state, None);
}

#[test]
fn permission_known_to_be_given_starts_indexing() {
    let mut view = new_view();
    view.current_mode = SearchMode::Semantic;
    assert!(!view.semantic_permission_resolved(true, Some(SemanticIndexStatus::Indexed)));
    assert_eq!(
        view.semantic_state,
        Some(SemanticState { index_status: SemanticIndexStatus::Indexed, maintain_rate_limit: false })
    );
    // Without an index nothing is taken into use.
    let mut view = new_view();
    assert!(!view.semantic_permission_resolved(true, None));
    assert_eq!(view.semantic_state, None);
}

#[test]
fn rate_limit_is_counted_down_only_while_indexing_under_one() {
    let limited = SemanticIndexStatus::Indexing {
        remaining_files: 4,
        rate_limit_expiry: Some(RateLimit { remaining_secs: 12, remaining_subsec_nanos: 0 }),
    };
    let mut view = new_view();
    view.semantic_index_changed(limited);
    assert_eq!(view.semantic_state, None);
    view.search_options = SearchOptions::only_whole_word();
    view.index_project(Some(limited));
    assert_eq!(view.search_options, SearchOptions::none());
    assert_eq!(view.semantic_state, Some(SemanticState { index_status: limited, maintain_rate_limit: true }));
    view.semantic_index_changed(limited);
    assert_eq!(view.semantic_state.unwrap().maintain_rate_limit, true);
    view.semantic_index_changed(SemanticIndexStatus::Indexing { remaining_files: 1, rate_limit_expiry: None });
    assert_eq!(view.semantic_state.unwrap().maintain_rate_limit, false);
    view.semantic_index_changed(SemanticIndexStatus::Indexed);
    assert_eq!(
        view.semantic_state,
        Some(SemanticState { index_status: SemanticIndexStatus::Indexed, maintain_rate_limit: false })
    );
}

#[test]
fn semantic_prompt_names_the_project() {
    assert_eq!(
        semantic_prompt_text(&vec!["zed".to_string()]),
        "Would you like to index the 'zed' project for semantic search? This requires sending code to the OpenAI API"
    );
    assert_eq!(
        semantic_prompt_text(&vec!["zed".to_string(), "docs".to_string()]),
        "Would you like to index the 'zed/docs' projects for semantic search? This requires sending code to the OpenAI API"
    );
    assert_eq!(
        semantic_prompt_text(&vec![]),
        "Would you like to index the '' project for semantic search? This requires sending code to the OpenAI API"
    );
}

#[test]
fn replacing_needs_query_matches_and_active_match() {
    let mut view = new_view();
    view.replacement_editor = "THREE".to_string();
    assert_eq!(view.replace_next(0), None);
    assert_eq!(view.replace_all(), None);

    run_search(&mut view, "TWO", &[]);
    assert_eq!(view.replace_next(0), None);
    assert_eq!(view.replace_all(), None);

    run_search(&mut view, "TWO", &[two_matches()]);
    view.update_match_index(Some(1));
    let replacement = view.replace_next(2).unwrap();
    assert_eq!(replacement.range, range(39, 42));
    assert_eq!(replacement.select, range(52, 55));
    assert_eq!(replacement.query.as_str(), "TWO");
    assert_eq!(replacement.query.replacement(), Some("THREE".to_string()));
    // The active query itself stays without a replacement.
    assert_eq!(view.model.active_query.as_ref().unwrap().replacement(), None);

    let all = view.replace_all().unwrap();
    assert_eq!(all.ranges, two_matches());
    assert_eq!(all.query.replacement(), Some("THREE".to_string()));

    view.update_match_index(None);
    assert_eq!(view.replace_next(0), None);
    assert_eq!(view.replace_all(), None);
    assert_eq!(view.select_match(0), None);
}

#[test]
fn update_match_index_reports_changes() {
    let mut view = new_view();
    assert!(!view.update_match_index(None));
    assert!(view.update_match_index(Some(3)));
    assert!(!view.update_match_index(Some(3)));
    assert!(view.update_match_index(Some(4)));
    assert_eq!(view.active_match_index, Some(4));
    assert_eq!(view.breadcrumb_location(), ToolbarItemLocation::Secondary);
    assert!(view.update_match_index(None));
    assert_eq!(view.breadcrumb_location(), ToolbarItemLocation::Hidden);
}

#[test]
fn focus_moves_between_query_and_results() {
    let mut view = new_view();
    view.focus_query_editor();
    assert_eq!(view.focus, Some(SearchFocus::QueryEditor));
    assert!(view.query_editor_was_focused);
    view.focus_results_editor();
    assert_eq!(view.focus, Some(SearchFocus::ResultsEditor));
    assert!(!view.query_editor_was_focused);
}

#[test]
fn toggles_are_written_down_per_project() {
    let mut settings = ActiveSettings::new();
    let mut view = new_view();
    view.toggle_filters(&mut settings);
    assert!(view.filters_enabled);
    assert_eq!(settings.get(7).unwrap().filters_enabled, true);
    view.toggle_search_option(SearchOptions::only_whole_word(), &mut settings);
    view.toggle_search_option(SearchOptions::only_include_ignored(), &mut settings);
    assert_eq!(
        settings.get(7),
        Some(ProjectSearchSettings {
            search_options: SearchOptions { whole_word: true, case_sensitive: false, include_ignored: true },
            filters_enabled: true,
            current_mode: SearchMode::Text,
        })
    );
    view.toggle_search_option(SearchOptions::only_whole_word(), &mut settings);
    view.toggle_filters(&mut settings);
    assert_eq!(settings.get(7).unwrap().search_options, SearchOptions::only_include_ignored());
    assert!(!settings.get(7).unwrap().filters_enabled);

    // The next panel of the project opens with what was written down.
    let next = ProjectSearchView::deploy(7, Some(String::new()), &settings);
    assert_eq!(next.search_options, SearchOptions::only_include_ignored());
    assert!(next.query_editor.is_empty());
    let other = ProjectSearchView::deploy(8, None, &settings);
    assert_eq!(other.search_options, SearchOptions::none());
}

#[test]
fn tab_shows_the_last_query_cut_short() {
    let mut view = new_view();
    assert_eq!(view.tab_content(true).title, "Project search");
    assert!(!view.tab_content(true).muted);
    assert!(view.tab_content(false).muted);
    assert_eq!(view.tab_tooltip_text(), "Project Search");

    run_search(&mut view, "short", &[]);
    assert_eq!(view.tab_content(true).title, "short");
    assert_eq!(view.tab_tooltip_text(), "short");

    run_search(&mut view, "123456789012345678901234", &[]);
    assert_eq!(view.tab_content(true).title, "123456789012345678901234");
    run_search(&mut view, "1234567890123456789012345", &[]);
    assert_eq!(view.tab_content(true).title, "123456789012345678901234\u{2026}");
    assert_eq!(view.tab_tooltip_text(), "1234567890123456789012345");

    view.model.search_history.reset_selection();
    assert_eq!(view.tab_content(true).title, "Project search");
    run_search(&mut view, "", &[]);
    assert_eq!(view.tab_content(true).title, "Project search");
}

fn landing(view: &ProjectSearchView) -> (String, Option<String>) {
    match view.render() {
        SearchViewLayout::Landing { major_text, minor_text } => (major_text, minor_text),
        SearchViewLayout::Results => panic!("the results are shown"),
    }
}

const TEXT_HINT: &str = "Include/exclude specific paths with the filter option. Matching exact word and/or casing is available too.";
const SEMANTIC_HINT: &str = "\nSimply explain the code you are looking to find. ex. 'prompt user for permissions to index their project'";

#[test]
fn landing_page_follows_the_search() {
    let mut view = new_view();
    assert_eq!(landing(&view), ("Text search all files".to_string(), Some(TEXT_HINT.to_string())));
    assert_eq!(view.landing_text_minor(), TEXT_HINT);
    view.current_mode = SearchMode::Regex;
    assert_eq!(landing(&view), ("Regex search all files".to_string(), Some(TEXT_HINT.to_string())));
    view.current_mode = SearchMode::Semantic;
    assert_eq!(landing(&view), ("Semantic search all files".to_string(), Some(SEMANTIC_HINT.to_string())));
    assert_eq!(view.landing_text_minor(), SEMANTIC_HINT);
    view.current_mode = SearchMode::Text;

    view.set_query("nothing like it");
    let search_id = match view.search(accepted()) {
        SearchDispatch::Project { search_id, .. } => search_id,
        other => panic!("expected a project search, got {:?}", other),
    };
    assert_eq!(landing(&view), ("Searching...".to_string(), Some(TEXT_HINT.to_string())));
    view.model.results_started(search_id);
    assert_eq!(landing(&view), ("Searching...".to_string(), None));
    view.model.search_finished(search_id);
    assert_eq!(
        landing(&view),
        ("No results".to_string(), Some("No results found in this project for the provided query".to_string()))
    );

    run_search(&mut view, "TWO", &[two_matches()]);
    assert_eq!(view.render(), SearchViewLayout::Results);
    view.update_match_index(None);
    assert_eq!(landing(&view), ("Text search all files".to_string(), None));
}

#[test]
fn landing_page_describes_the_index() {
    let mut view = new_view();
    view.current_mode = SearchMode::Semantic;
    let mut describe = |status: SemanticIndexStatus| {
        view.index_project(Some(status));
        landing(&view)
    };
    assert_eq!(
        describe(SemanticIndexStatus::NotIndexed),
        ("Semantic search all files".to_string(), Some(SEMANTIC_HINT.to_string()))
    );
    assert_eq!(
        describe(SemanticIndexStatus::Indexed),
        ("Semantic search all files".to_string(), Some(format!("Indexing complete{}", SEMANTIC_HINT)))
    );
    assert_eq!(
        describe(SemanticIndexStatus::NotAuthenticated),
        (
            "Not Authenticated".to_string(),
            Some(format!(
                "API Key Missing: Please set 'OPENAI_API_KEY' in Environment Variables. If you authenticated using the Assistant Panel, please restart Zed to Authenticate.{}",
                SEMANTIC_HINT
            ))
        )
    );
    assert_eq!(
        describe(SemanticIndexStatus::Indexing { remaining_files: 0, rate_limit_expiry: None }).1,
        Some(format!("Indexing...{}", SEMANTIC_HINT))
    );
    assert_eq!(
        describe(SemanticIndexStatus::Indexing { remaining_files: 12, rate_limit_expiry: None }).1,
        Some(format!("Remaining files to index: 12{}", SEMANTIC_HINT))
    );
    let limit = |remaining_secs, remaining_subsec_nanos| SemanticIndexStatus::Indexing {
        remaining_files: 12,
        rate_limit_expiry: Some(RateLimit { remaining_secs, remaining_subsec_nanos }),
    };
    assert_eq!(
        describe(limit(30, 0)).1,
        Some(format!("Remaining files to index (rate limit resets in 30s): 12{}", SEMANTIC_HINT))
    );
    assert_eq!(
        describe(limit(0, 500)).1,
        Some(format!("Remaining files to index (rate limit resets in 0s): 12{}", SEMANTIC_HINT))
    );
    assert_eq!(describe(limit(0, 0)).1, Some(format!("Remaining files to index: 12{}", SEMANTIC_HINT)));
    assert_eq!(SemanticIndexStatus::NotIndexed.status_text(), None);
    assert!(limit(1, 0).is_rate_limited());
    assert!(!SemanticIndexStatus::Indexed.is_rate_limited());
}

#[test]
fn bar_without_panel_does_nothing() {
    let mut settings = ActiveSettings::new();
    let mut bar = ProjectSearchBar::new();
    assert_eq!(bar.row_count(), 1);
    assert_eq!(bar.render(true, &None, &None), None);
    assert_eq!(bar.confirm(accepted()), None);
    assert_eq!(bar.cycle_mode(true, accepted(), &mut settings), None);
    assert_eq!(bar.activate_search_mode(SearchMode::Regex, accepted(), &mut settings), None);
    assert_eq!(bar.toggle_search_option(SearchOptions::only_whole_word(), accepted(), &mut settings), None);
    assert!(!bar.toggle_filters(&mut settings));
    assert!(!bar.tab());
    assert!(!bar.tab_previous());
    bar.toggle_replace();
    assert!(!bar.is_option_enabled(SearchOptions::none()));
    assert_eq!(bar.set_active_pane_item(None, None), ToolbarItemLocation::Hidden);
    assert!(bar.active_project_search.is_none());
    assert_eq!(settings.get(7), None);
}

fn bar_with_panel() -> ProjectSearchBar {
    let mut bar = ProjectSearchBar::new();
    assert_eq!(bar.set_active_pane_item(Some(new_view()), None), ToolbarItemLocation::PrimaryLeft);
    bar
}

fn panel(bar: &mut ProjectSearchBar) -> &mut ProjectSearchView {
    bar.active_project_search.as_mut().unwrap()
}

#[test]
fn tab_cycles_through_the_shown_inputs() {
    let mut bar = bar_with_panel();
    // Nothing is focused: the key is not for the toolbar.
    assert!(!bar.tab());
    panel(&mut bar).focus = Some(SearchFocus::ResultsEditor);
    assert!(!bar.tab());
    assert_eq!(panel(&mut bar).focus, Some(SearchFocus::ResultsEditor));

    panel(&mut bar).focus_query_editor();
    assert!(bar.tab());
    assert_eq!(panel(&mut bar).focus, Some(SearchFocus::QueryEditor));
    assert!(bar.tab_previous());
    assert_eq!(panel(&mut bar).focus, Some(SearchFocus::QueryEditor));

    panel(&mut bar).filters_enabled = true;
    let mut seen = vec![];
    for _ in 0..4 {
        assert!(bar.tab());
        seen.push(panel(&mut bar).focus.unwrap());
    }
    assert_eq!(seen, vec![SearchFocus::IncludedFilesEditor, SearchFocus::ExcludedFilesEditor, SearchFocus::QueryEditor, SearchFocus::IncludedFilesEditor]);

    panel(&mut bar).replace_enabled = true;
    let mut seen = vec![];
    for _ in 0..5 {
        assert!(bar.tab_previous());
        seen.push(panel(&mut bar).focus.unwrap());
    }
    assert_eq!(seen, vec![SearchFocus::QueryEditor, SearchFocus::ReplacementEditor, SearchFocus::ExcludedFilesEditor, SearchFocus::IncludedFilesEditor, SearchFocus::QueryEditor]);

    panel(&mut bar).filters_enabled = false;
    assert!(bar.tab());
    assert_eq!(panel(&mut bar).focus, Some(SearchFocus::ReplacementEditor));
    assert!(bar.tab());
    assert_eq!(panel(&mut bar).focus, Some(SearchFocus::QueryEditor));
    // An input that is hidden is not part of the ring.
    panel(&mut bar).focus = Some(SearchFocus::IncludedFilesEditor);
    assert!(!bar.tab());
    assert_eq!(panel(&mut bar).focus, Some(SearchFocus::IncludedFilesEditor));
}

#[test]
fn confirm_searches_unless_the_replacement_has_the_focus() {
    let mut bar = bar_with_panel();
    panel(&mut bar).set_query("TWO");
    assert!(matches!(bar.confirm(accepted()), Some(SearchDispatch::Project { search_id: 1, .. })));
    panel(&mut bar).focus = Some(SearchFocus::ReplacementEditor);
    assert_eq!(bar.confirm(accepted()), None);
    assert_eq!(panel(&mut bar).model.search_id, 1);
    panel(&mut bar).focus = Some(SearchFocus::ResultsEditor);
    let refused = QueryValidation { included_files: false, ..accepted() };
    assert_eq!(bar.confirm(refused), Some(SearchDispatch::NoSearch));
    assert!(panel(&mut bar).panels_with_errors.contains(InputPanel::Include));
}

#[test]
fn cycle_mode_skips_semantic_mode_while_it_is_disabled() {
    let mut settings = ActiveSettings::new();
    let mut bar = bar_with_panel();
    panel(&mut bar).focus = Some(SearchFocus::ResultsEditor);
    let mut modes = vec![];
    for _ in 0..4 {
        assert!(matches!(
            bar.cycle_mode(false, accepted(), &mut settings),
            Some(ModeActivation::Searched { .. })
        ));
        assert_eq!(panel(&mut bar).focus, Some(SearchFocus::QueryEditor));
        modes.push(panel(&mut bar).current_mode);
    }
    assert_eq!(modes, vec![SearchMode::Regex, SearchMode::Text, SearchMode::Regex, SearchMode::Text]);
    bar.cycle_mode(true, accepted(), &mut settings);
    assert_eq!(
        bar.cycle_mode(true, accepted(), &mut settings),
        Some(ModeActivation::AwaitPermission { known: None, previous_mode: SearchMode::Regex })
    );
    assert_eq!(panel(&mut bar).current_mode, SearchMode::Semantic);
    assert!(matches!(bar.cycle_mode(true, accepted(), &mut settings), Some(ModeActivation::Searched { .. })));
    assert_eq!(panel(&mut bar).current_mode, SearchMode::Text);
    assert_eq!(settings.get(7).unwrap().current_mode, SearchMode::Text);
}

#[test]
fn bar_toggles_act_on_the_panel() {
    let mut settings = ActiveSettings::new();
    let mut bar = bar_with_panel();
    panel(&mut bar).set_query("TWO");
    let dispatch = bar.toggle_search_option(SearchOptions::only_case_sensitive(), accepted(), &mut settings);
    match dispatch {
        Some(SearchDispatch::Project { query, .. }) => assert!(query.case_sensitive && !query.whole_word),
        other => panic!("expected a project search, got {:?}", other),
    }
    assert!(bar.is_option_enabled(SearchOptions::only_case_sensitive()));
    assert!(!bar.is_option_enabled(SearchOptions::only_whole_word()));
    assert!(bar.is_option_enabled(SearchOptions::none()));
    assert_eq!(settings.get(7).unwrap().search_options, SearchOptions::only_case_sensitive());

    assert_eq!(bar.row_count(), 1);
    assert!(bar.toggle_filters(&mut settings));
    assert_eq!(bar.row_count(), 2);
    assert!(settings.get(7).unwrap().filters_enabled);

    bar.toggle_replace();
    assert!(panel(&mut bar).replace_enabled);
    assert_eq!(panel(&mut bar).focus, Some(SearchFocus::ReplacementEditor));
    bar.toggle_replace();
    assert!(!panel(&mut bar).replace_enabled);
    assert_eq!(panel(&mut bar).focus, Some(SearchFocus::QueryEditor));

    assert!(matches!(
        bar.activate_search_mode(SearchMode::Regex, accepted(), &mut settings),
        Some(ModeActivation::Searched { .. })
    ));
    assert_eq!(bar.activate_search_mode(SearchMode::Regex, accepted(), &mut settings), Some(ModeActivation::Unchanged));
}

#[test]
fn search_in_new_opens_a_panel_and_restores_the_old_query() {
    let mut view = new_view();
    view.search_options = SearchOptions::only_whole_word();
    run_search(&mut view, "TWO", &[two_matches()]);
    view.set_query("FOUR");
    view.search_options = SearchOptions::only_case_sensitive();

    let refused = QueryValidation { text_query: false, ..accepted() };
    assert_eq!(ProjectSearchBar::search_in_new(&mut view, refused), None);
    assert_eq!(view.query_editor, "FOUR");
    assert!(view.panels_with_errors.contains(InputPanel::Query));

    let opened = ProjectSearchBar::search_in_new(&mut view, accepted()).unwrap();
    assert_eq!(view.query_editor, "TWO");
    assert_eq!(view.search_options, SearchOptions::only_whole_word());
    assert_eq!(view.model.match_ranges, two_matches());
    assert_eq!(opened.query_editor, "FOUR");
    assert_eq!(opened.search_options, SearchOptions::only_case_sensitive());
    assert_eq!(opened.model.project, 7);
    assert_eq!(opened.model.search_id, 1);
    assert_eq!(opened.search_id, 1);
    assert_eq!(opened.model.pending_search, Some(1));
    assert_eq!(opened.model.search_history.entries(), vec!["FOUR".to_string()]);
    assert_eq!(opened.active_match_index, None);

    // Without an active query there is nothing to restore.
    let mut fresh = new_view();
    fresh.set_query("ONE");
    let opened = ProjectSearchBar::search_in_new(&mut fresh, accepted()).unwrap();
    assert_eq!(fresh.query_editor, "ONE");
    assert_eq!(fresh.model.search_id, 0);
    assert_eq!(opened.query_editor, "ONE");
}

#[test]
fn semantic_panel_takes_the_index_into_use_when_it_becomes_active() {
    let mut view = new_view();
    view.current_mode = SearchMode::Semantic;
    view.search_options = SearchOptions::only_whole_word();
    let mut bar = ProjectSearchBar::new();
    bar.set_active_pane_item(Some(view), Some(SemanticIndexStatus::Indexed));
    assert_eq!(
        panel(&mut bar).semantic_state,
        Some(SemanticState { index_status: SemanticIndexStatus::Indexed, maintain_rate_limit: false })
    );
    assert_eq!(panel(&mut bar).search_options, SearchOptions::none());

    let mut bar = ProjectSearchBar::new();
    let mut view = new_view();
    view.search_options = SearchOptions::only_whole_word();
    bar.set_active_pane_item(Some(view), Some(SemanticIndexStatus::Indexed));
    assert_eq!(panel(&mut bar).semantic_state, None);
    assert_eq!(panel(&mut bar).search_options, SearchOptions::only_whole_word());
}
