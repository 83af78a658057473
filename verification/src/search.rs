//! The project-wide search panel: its queries, its results, its options and
//! its toolbar.

pub mod bar;
pub mod events;
pub mod history;
pub mod laws;
pub mod mode;
pub mod model;
pub mod options;
pub mod query;
pub mod semantic;
pub mod settings;
pub mod view;
