//! The settings of the search panel that are remembered per project.

use crate::search::mode::SearchMode;
use crate::search::options::SearchOptions;
use std::collections::HashMap;
use vstd::prelude::*;

verus! {

/// What a search panel remembers for the next panel of the same project.
#[derive(Clone, Copy, Debug, PartialEq, Eq, Structural)]
pub struct ProjectSearchSettings {
    pub search_options: SearchOptions,
    pub filters_enabled: bool,
    pub current_mode: SearchMode,
}

/// The remembered settings, by the number of the project.
pub struct ActiveSettings {
    pub by_project: HashMap<u64, ProjectSearchSettings>,
}

impl View for ActiveSettings {
    type V = Map<u64, ProjectSearchSettings>;

    open spec fn view(&self) -> Map<u64, ProjectSearchSettings> {
        self.by_project@
    }
}

/// The settings remembered for `project`, if any.
pub open spec fn settings_of(settings: Map<u64, ProjectSearchSettings>, project: u64) -> Option<
    ProjectSearchSettings,
> {
    if settings.contains_key(project) {
        Some(settings[project])
    } else {
        None
    }
}

impl ActiveSettings {
    /// Nothing is remembered.
    pub fn new() -> (settings: Self)
        ensures
            settings@ == Map::<u64, ProjectSearchSettings>::empty(),
    {
        ActiveSettings { by_project: HashMap::new() }
    }

    /// Remembers `settings` for `project`, in place of what was remembered
    /// for it before.
    pub fn insert(&mut self, project: u64, settings: ProjectSearchSettings)
        ensures
            final(self)@ == old(self)@.insert(project, settings),
    {
        self.by_project.insert(project, settings);
    }

    /// The settings remembered for `project`, if any.
    pub fn get(&self, project: u64) -> (settings: Option<ProjectSearchSettings>)
        ensures
            settings == settings_of(self@, project),
    {
        match self.by_project.get(&project) {
            Some(settings) => Some(*settings),
            None => None,
        }
    }
}

} // verus!
