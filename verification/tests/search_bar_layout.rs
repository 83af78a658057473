use editor_panels::search::bar::next_field;
use editor_panels::search::bar::BarLayout;
use editor_panels::search::bar::ProjectSearchBar;
use editor_panels::search::events::Direction;
use editor_panels::search::events::EditorEvent;
use editor_panels::search::events::InputPanel;
use editor_panels::search::events::ItemEvent;
use editor_panels::search::events::PanelErrors;
use editor_panels::search::events::SearchFocus;
use editor_panels::search::events::ViewEvent;
use editor_panels::search::mode::next_mode;
use editor_panels::search::mode::SearchMode;
use editor_panels::search::model::MatchRange;
use editor_panels::search::model::ProjectSearch;
use editor_panels::search::options::SearchOptions;
use editor_panels::search::query::SearchQuery;
use editor_panels::search::view::ProjectSearchView;

fn keys(items: &[&str]) -> Option<Vec<String>> {
    Some(items.iter().map(|s| s.to_string()).collect())
}

#[test]
fn placeholder_names_the_bound_keys() {
    assert_eq!(ProjectSearchBar::new_placeholder_text(&None, &None), None);
    assert_eq!(
        ProjectSearchBar::new_placeholder_text(&keys(&["up"]), &keys(&["down"])),
        Some("Search (up/down for previous/next query)".to_string())
    );
    assert_eq!(
        ProjectSearchBar::new_placeholder_text(&keys(&["ctrl-k", "up"]), &keys(&["ctrl-k", "down"])),
        Some("Search (ctrl-k up/ctrl-k down for previous/next query)".to_string())
    );
    assert_eq!(ProjectSearchBar::new_placeholder_text(&None, &keys(&["down"])), Some("Search (down for next query)".to_string()));
    assert_eq!(ProjectSearchBar::new_placeholder_text(&keys(&["up"]), &None), Some("Search (up for previous query)".to_string()));
    assert_eq!(ProjectSearchBar::new_placeholder_text(&keys(&[]), &None), Some("Search ( for previous query)".to_string()));
}

fn bar_with(view: ProjectSearchView) -> ProjectSearchBar {
    let mut bar = ProjectSearchBar::new();
    bar.set_active_pane_item(Some(view), None);
    bar
}

#[test]
fn layout_of_a_fresh_panel() {
    let bar = bar_with(ProjectSearchView::new(ProjectSearch::new(1), None, None));
    assert_eq!(
        bar.render(false, &None, &None),
        Some(BarLayout {
            placeholder_text: None,
            filters_selected: false,
            case_sensitive_button: Some(false),
            text_mode_selected: true,
            regex_mode_selected: false,
            semantic_mode_button: None,
            replace_enabled: false,
            match_label: None,
            navigation_disabled: true,
            option_actions: true,
            include_ignored_action: false,
        })
    );
}

#[test]
fn layout_follows_the_panel() {
    let mut view = ProjectSearchView::new(ProjectSearch::new(1), None, None);
    view.filters_enabled = true;
    view.replace_enabled = true;
    view.current_mode = SearchMode::Regex;
    view.search_options = SearchOptions { whole_word: true, case_sensitive: false, include_ignored: false };
    let search_id = view.model.search(SearchQuery::regex("x".to_string(), false, false, false, vec![], vec![]));
    let ranges: Vec<MatchRange> = (0..12).map(|i| MatchRange { start: 2 * i, end: 2 * i + 1 }).collect();
    view.model.matches_found(search_id, &ranges);
    view.model_changed(Some(8));
    let bar = bar_with(view);
    assert_eq!(
        bar.render(true, &keys(&["up"]), &keys(&["down"])),
        Some(BarLayout {
            placeholder_text: Some("Search (up/down for previous/next query)".to_string()),
            filters_selected: true,
            case_sensitive_button: Some(true),
            text_mode_selected: false,
            regex_mode_selected: true,
            semantic_mode_button: Some(false),
            replace_enabled: true,
            match_label: Some("9/12".to_string()),
            navigation_disabled: false,
            option_actions: true,
            include_ignored_action: true,
        })
    );
}

#[test]
fn layout_in_semantic_mode_hides_the_options() {
    let mut view = ProjectSearchView::new(ProjectSearch::new(1), None, None);
    view.current_mode = SearchMode::Semantic;
    view.filters_enabled = true;
    view.active_match_index = Some(0);
    let layout = bar_with(view).render(true, &None, &None).unwrap();
    assert_eq!(layout.case_sensitive_button, None);
    assert_eq!(layout.semantic_mode_button, Some(true));
    assert!(!layout.text_mode_selected);
    assert!(!layout.regex_mode_selected);
    assert!(!layout.option_actions);
    assert!(!layout.include_ignored_action);
    assert!(layout.filters_selected);
    // An active match without matches has no label.
    assert_eq!(layout.match_label, None);
    assert!(!layout.navigation_disabled);
}

#[test]
fn next_field_without_focus_is_none() {
    assert_eq!(next_field(true, true, None, Direction::Next), None);
    assert_eq!(next_field(true, true, Some(SearchFocus::ResultsEditor), Direction::Prev), None);
    assert_eq!(next_field(false, true, Some(SearchFocus::ExcludedFilesEditor), Direction::Next), None);
    assert_eq!(next_field(true, false, Some(SearchFocus::ReplacementEditor), Direction::Next), None);
    assert_eq!(
        next_field(true, true, Some(SearchFocus::ExcludedFilesEditor), Direction::Next),
        Some(SearchFocus::ReplacementEditor)
    );
    assert_eq!(
        next_field(true, true, Some(SearchFocus::ReplacementEditor), Direction::Next),
        Some(SearchFocus::QueryEditor)
    );
    assert_eq!(
        next_field(false, false, Some(SearchFocus::QueryEditor), Direction::Prev),
        Some(SearchFocus::QueryEditor)
    );
}

#[test]
fn modes_cycle_in_order() {
    assert_eq!(next_mode(&SearchMode::Text, false), SearchMode::Regex);
    assert_eq!(next_mode(&SearchMode::Text, true), SearchMode::Regex);
    assert_eq!(next_mode(&SearchMode::Regex, false), SearchMode::Text);
    assert_eq!(next_mode(&SearchMode::Regex, true), SearchMode::Semantic);
    assert_eq!(next_mode(&SearchMode::Semantic, false), SearchMode::Text);
    assert_eq!(next_mode(&SearchMode::Semantic, true), SearchMode::Text);
    assert_eq!(SearchMode::default(), SearchMode::Text);
    assert_eq!(SearchMode::Text.label(), "Text");
    assert_eq!(SearchMode::Regex.label(), "Regex");
    assert_eq!(SearchMode::Semantic.label(), "Semantic");
}

#[test]
fn options_are_sets_of_switches() {
    let mut options = SearchOptions::none();
    assert!(options.contains(SearchOptions::none()));
    assert!(!options.contains(SearchOptions::only_whole_word()));
    options.toggle(SearchOptions::only_whole_word());
    options.toggle(SearchOptions::only_include_ignored());
    assert_eq!(options, SearchOptions { whole_word: true, case_sensitive: false, include_ignored: true });
    assert!(options.contains(SearchOptions::only_whole_word()));
    assert!(options.contains(SearchOptions::only_include_ignored()));
    assert!(!options.contains(SearchOptions::only_case_sensitive()));
    assert!(!options.contains(SearchOptions { whole_word: true, case_sensitive: true, include_ignored: false }));
    options.toggle(options);
    assert_eq!(options, SearchOptions::none());
    let query = SearchQuery::text("q".to_string(), true, false, true, vec![], vec![]);
    assert_eq!(
        SearchOptions::from_query(&query),
        SearchOptions { whole_word: true, case_sensitive: false, include_ignored: true }
    );
}

#[test]
fn panel_errors_are_a_set() {
    let mut errors = PanelErrors::new();
    for panel in [InputPanel::Query, InputPanel::Exclude, InputPanel::Include] {
        assert!(!errors.contains(panel));
    }
    errors.insert(InputPanel::Exclude);
    errors.insert(InputPanel::Exclude);
    assert!(errors.contains(InputPanel::Exclude));
    assert!(!errors.contains(InputPanel::Query));
    errors.insert(InputPanel::Query);
    errors.remove(InputPanel::Exclude);
    errors.remove(InputPanel::Include);
    assert!(errors.contains(InputPanel::Query));
    assert!(!errors.contains(InputPanel::Exclude));
    assert!(!errors.contains(InputPanel::Include));
}

#[test]
fn view_events_become_item_events() {
    assert_eq!(
        ProjectSearchView::to_item_events(&ViewEvent::UpdateTab, vec![ItemEvent::Edit]),
        vec![ItemEvent::UpdateBreadcrumbs, ItemEvent::UpdateTab]
    );
    assert_eq!(ProjectSearchView::to_item_events(&ViewEvent::Dismiss, vec![]), vec![ItemEvent::CloseItem]);
    assert_eq!(ProjectSearchView::to_item_events(&ViewEvent::Activate, vec![ItemEvent::Edit]), vec![]);
    assert_eq!(
        ProjectSearchView::to_item_events(&ViewEvent::EditorEvent(EditorEvent::Edited), vec![ItemEvent::Edit, ItemEvent::UpdateBreadcrumbs]),
        vec![ItemEvent::Edit, ItemEvent::UpdateBreadcrumbs]
    );
    assert_eq!(ProjectSearchView::to_item_events(&ViewEvent::EditorEvent(EditorEvent::Other), vec![]), vec![]);
}
