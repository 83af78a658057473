//! The three ways a project search can interpret its query.

use vstd::prelude::*;

verus! {

/// How the query of a project search is interpreted.
#[derive(Clone, Copy, Debug, PartialEq, Eq, Structural)]
pub enum SearchMode {
    Text,
    Semantic,
    Regex,
}

impl SearchMode {
    /// The name of the mode as the panel shows it.
    pub open spec fn spec_label(self) -> Seq<char> {
        match self {
            SearchMode::Text => "Text"@,
            SearchMode::Semantic => "Semantic"@,
            SearchMode::Regex => "Regex"@,
        }
    }

    /// The name of the mode as the panel shows it.
    pub fn label(&self) -> (label: &'static str)
        ensures
            label@ == self.spec_label(),
    {
        match self {
            SearchMode::Text => "Text",
            SearchMode::Semantic => "Semantic",
            SearchMode::Regex => "Regex",
        }
    }
}

impl Default for SearchMode {
    fn default() -> (mode: Self)
        ensures
            mode == SearchMode::Text,
    {
        SearchMode::Text
    }
}

/// The mode that follows `mode` when the user cycles through the modes.
/// Semantic search is part of the cycle only while it is enabled.
pub open spec fn spec_next_mode(mode: SearchMode, semantic_enabled: bool) -> SearchMode {
    match mode {
        SearchMode::Text => SearchMode::Regex,
        SearchMode::Regex => if semantic_enabled {
            SearchMode::Semantic
        } else {
            SearchMode::Text
        },
        SearchMode::Semantic => SearchMode::Text,
    }
}

/// Steps to the next mode of the cycle text, regex, semantic.
pub fn next_mode(mode: &SearchMode, semantic_enabled: bool) -> (next: SearchMode)
    ensures
        next == spec_next_mode(*mode, semantic_enabled),
{
    match mode {
        SearchMode::Text => SearchMode::Regex,
        SearchMode::Regex => {
            if semantic_enabled {
                SearchMode::Semantic
            } else {
                SearchMode::Text
            }
        },
        SearchMode::Semantic => SearchMode::Text,
    }
}

} // verus!
