//! Session state and decision logic of two editor panels: the feedback form
//! and the project-wide search panel with its toolbar.
//!
//! Both panels are state machines over plain values. Their host owns the
//! widgets, the network and the search engine: it reports what happened and
//! carries out what the panels decide.

pub mod feedback;
pub mod pattern;
pub mod search;
pub mod text;

pub use feedback::modal::FeedbackModal;
pub use search::bar::ProjectSearchBar;
pub use search::events::ViewEvent;
pub use search::view::ProjectSearchView;
