//! The small vocabulary that the search panel shares with its host: events,
//! places, directions.

use vstd::prelude::*;

verus! {

/// One of the three inputs of a search whose content can be refused.
#[derive(Clone, Copy, Debug, PartialEq, Eq, Hash, Structural)]
pub enum InputPanel {
    Query,
    Exclude,
    Include,
}

/// The part of the search panel that holds the keyboard focus.
#[derive(Clone, Copy, Debug, PartialEq, Eq, Structural)]
pub enum SearchFocus {
    QueryEditor,
    IncludedFilesEditor,
    ExcludedFilesEditor,
    ReplacementEditor,
    ResultsEditor,
}

/// The way to step through a list.
#[derive(Clone, Copy, Debug, PartialEq, Eq, Structural)]
pub enum Direction {
    Prev,
    Next,
}

/// What happened in one of the panel's editors, as far as the panel cares.
#[derive(Clone, Copy, Debug, PartialEq, Eq, Structural)]
pub enum EditorEvent {
    Edited,
    SelectionsChanged,
    Other,
}

/// What the search panel tells its surroundings.
#[derive(Clone, Copy, Debug, PartialEq, Eq, Structural)]
pub enum ViewEvent {
    UpdateTab,
    Activate,
    EditorEvent(EditorEvent),
    Dismiss,
}

/// What a tab of the workspace can be asked to do.
#[derive(Clone, Copy, Debug, PartialEq, Eq, Structural)]
pub enum ItemEvent {
    CloseItem,
    UpdateTab,
    UpdateBreadcrumbs,
    Edit,
}

/// Where an item of the toolbar is shown.
#[derive(Clone, Copy, Debug, PartialEq, Eq, Structural)]
pub enum ToolbarItemLocation {
    Hidden,
    PrimaryLeft,
    PrimaryRight,
    Secondary,
}

/// The inputs whose content was refused at the latest attempt to search.
#[derive(Clone, Copy, Debug, PartialEq, Eq, Structural)]
pub struct PanelErrors {
    pub query: bool,
    pub excluded_files: bool,
    pub included_files: bool,
}

impl View for PanelErrors {
    type V = Set<InputPanel>;

    open spec fn view(&self) -> Set<InputPanel> {
        Set::new(
            |panel: InputPanel|
                match panel {
                    InputPanel::Query => self.query,
                    InputPanel::Exclude => self.excluded_files,
                    InputPanel::Include => self.included_files,
                },
        )
    }
}

impl PanelErrors {
    /// No input was refused.
    pub fn new() -> (errors: Self)
        ensures
            errors@ == Set::<InputPanel>::empty(),
    {
        PanelErrors { query: false, excluded_files: false, included_files: false }
    }

    /// Marks `panel` as refused.
    pub fn insert(&mut self, panel: InputPanel)
        ensures
            final(self)@ == old(self)@.insert(panel),
    {
        match panel {
            InputPanel::Query => {
                self.query = true;
            },
            InputPanel::Exclude => {
                self.excluded_files = true;
            },
            InputPanel::Include => {
                self.included_files = true;
            },
        }
    }

    /// Marks `panel` as accepted.
    pub fn remove(&mut self, panel: InputPanel)
        ensures
            final(self)@ == old(self)@.remove(panel),
    {
        match panel {
            InputPanel::Query => {
                self.query = false;
            },
            InputPanel::Exclude => {
                self.excluded_files = false;
            },
            InputPanel::Include => {
                self.included_files = false;
            },
        }
    }

    /// Whether `panel` was refused.
    pub fn contains(&self, panel: InputPanel) -> (refused: bool)
        ensures
            refused == self@.contains(panel),
    {
        match panel {
            InputPanel::Query => self.query,
            InputPanel::Exclude => self.excluded_files,
            InputPanel::Include => self.included_files,
        }
    }
}

/// What becomes of the events of the panel in the tab that shows it. The
/// events of an editor are mapped by the editor; `from_editor` is what it
/// made of the event at hand.
pub open spec fn spec_to_item_events(event: ViewEvent, from_editor: Seq<ItemEvent>) -> Seq<
    ItemEvent,
> {
    match event {
        ViewEvent::UpdateTab => seq![ItemEvent::UpdateBreadcrumbs, ItemEvent::UpdateTab],
        ViewEvent::EditorEvent(_) => from_editor,
        ViewEvent::Dismiss => seq![ItemEvent::CloseItem],
        ViewEvent::Activate => Seq::<ItemEvent>::empty(),
    }
}

} // verus!
