//! The switches of a search: whole words only, case sensitive, ignored
//! files included.

use crate::search::query::SearchQuery;
use crate::search::query::SearchQueryView;
use vstd::prelude::*;

verus! {

/// A set of search switches.
#[derive(Clone, Copy, Debug, PartialEq, Eq, Structural)]
pub struct SearchOptions {
    pub whole_word: bool,
    pub case_sensitive: bool,
    pub include_ignored: bool,
}

impl SearchOptions {
    /// Whether every switch of `other` is also in this set.
    pub open spec fn spec_contains(self, other: SearchOptions) -> bool {
        &&& other.whole_word ==> self.whole_word
        &&& other.case_sensitive ==> self.case_sensitive
        &&& other.include_ignored ==> self.include_ignored
    }

    /// This set with every switch of `other` flipped.
    pub open spec fn spec_toggle(self, other: SearchOptions) -> SearchOptions {
        SearchOptions {
            whole_word: self.whole_word != other.whole_word,
            case_sensitive: self.case_sensitive != other.case_sensitive,
            include_ignored: self.include_ignored != other.include_ignored,
        }
    }

    /// The switches that `query` was built with.
    pub open spec fn spec_from_query(query: SearchQueryView) -> SearchOptions {
        SearchOptions {
            whole_word: query.whole_word,
            case_sensitive: query.case_sensitive,
            include_ignored: query.include_ignored,
        }
    }

    /// No switch.
    pub fn none() -> (options: Self)
        ensures
            options == (SearchOptions {
                whole_word: false,
                case_sensitive: false,
                include_ignored: false,
            }),
    {
        SearchOptions { whole_word: false, case_sensitive: false, include_ignored: false }
    }

    /// The switch for whole words alone.
    pub fn only_whole_word() -> (options: Self)
        ensures
            options == (SearchOptions {
                whole_word: true,
                case_sensitive: false,
                include_ignored: false,
            }),
    {
        SearchOptions { whole_word: true, case_sensitive: false, include_ignored: false }
    }

    /// The switch for case sensitivity alone.
    pub fn only_case_sensitive() -> (options: Self)
        ensures
            options == (SearchOptions {
                whole_word: false,
                case_sensitive: true,
                include_ignored: false,
            }),
    {
        SearchOptions { whole_word: false, case_sensitive: true, include_ignored: false }
    }

    /// The switch for ignored files alone.
    pub fn only_include_ignored() -> (options: Self)
        ensures
            options == (SearchOptions {
                whole_word: false,
                case_sensitive: false,
                include_ignored: true,
            }),
    {
        SearchOptions { whole_word: false, case_sensitive: false, include_ignored: true }
    }

    /// Whether every switch of `other` is also in this set.
    pub fn contains(&self, other: SearchOptions) -> (contained: bool)
        ensures
            contained == self.spec_contains(other),
    {
        (!other.whole_word || self.whole_word) && (!other.case_sensitive || self.case_sensitive)
            && (!other.include_ignored || self.include_ignored)
    }

    /// Flips every switch of `other` in this set.
    pub fn toggle(&mut self, other: SearchOptions)
        ensures
            *final(self) == old(self).spec_toggle(other),
    {
        self.whole_word = self.whole_word != other.whole_word;
        self.case_sensitive = self.case_sensitive != other.case_sensitive;
        self.include_ignored = self.include_ignored != other.include_ignored;
    }

    /// The switches that `query` was built with.
    pub fn from_query(query: &SearchQuery) -> (options: Self)
        ensures
            options == Self::spec_from_query(query@),
    {
        SearchOptions {
            whole_word: query.whole_word,
            case_sensitive: query.case_sensitive,
            include_ignored: query.include_ignored,
        }
    }
}

/// Flipping the same switches twice leaves a set as it was.
pub proof fn lemma_toggle_twice(options: SearchOptions, other: SearchOptions)
    ensures
        options.spec_toggle(other).spec_toggle(other) == options,
{
}

/// A single switch is in a set after it was flipped exactly when it was not
/// in it before.
pub proof fn lemma_toggle_flips_membership(options: SearchOptions, other: SearchOptions)
    requires
        other == (SearchOptions { whole_word: true, case_sensitive: false, include_ignored: false })
            || other == (SearchOptions {
            whole_word: false,
            case_sensitive: true,
            include_ignored: false,
        }) || other == (SearchOptions {
            whole_word: false,
            case_sensitive: false,
            include_ignored: true,
        }),
    ensures
        options.spec_toggle(other).spec_contains(other) == !options.spec_contains(other),
{
}

} // verus!
