//! A query as the panel hands it to the search engine.

use crate::text::list::clone_option;
use crate::text::list::clone_strings;
use crate::text::list::option_view;
use crate::text::list::views;
use vstd::prelude::*;

verus! {

/// How the engine reads the text of a query.
#[derive(Clone, Copy, Debug, PartialEq, Eq, Structural)]
pub enum QueryKind {
    Text,
    Regex,
}

/// What a search looks for and in which files.
#[derive(Debug, PartialEq, Eq)]
pub struct SearchInputs {
    pub query: String,
    pub files_to_include: Vec<String>,
    pub files_to_exclude: Vec<String>,
}

/// The model of `SearchInputs`.
pub struct SearchInputsView {
    pub query: Seq<char>,
    pub files_to_include: Seq<Seq<char>>,
    pub files_to_exclude: Seq<Seq<char>>,
}

impl View for SearchInputs {
    type V = SearchInputsView;

    open spec fn view(&self) -> SearchInputsView {
        SearchInputsView {
            query: self.query@,
            files_to_include: views(self.files_to_include@),
            files_to_exclude: views(self.files_to_exclude@),
        }
    }
}

impl Clone for SearchInputs {
    fn clone(&self) -> (copy: Self)
        ensures
            copy@ == self@,
    {
        SearchInputs {
            query: self.query.clone(),
            files_to_include: clone_strings(&self.files_to_include),
            files_to_exclude: clone_strings(&self.files_to_exclude),
        }
    }
}

impl SearchInputs {
    /// The text that is searched for.
    pub fn as_str(&self) -> (query: &str)
        ensures
            query@ == self@.query,
    {
        self.query.as_str()
    }
}

/// A text or regular-expression query with its switches and, for a
/// replacement, the text to put in place of each match.
#[derive(Debug, PartialEq, Eq)]
pub struct SearchQuery {
    pub kind: QueryKind,
    pub inner: SearchInputs,
    pub whole_word: bool,
    pub case_sensitive: bool,
    pub include_ignored: bool,
    pub replacement: Option<String>,
}

/// The model of `SearchQuery`.
pub struct SearchQueryView {
    pub kind: QueryKind,
    pub inner: SearchInputsView,
    pub whole_word: bool,
    pub case_sensitive: bool,
    pub include_ignored: bool,
    pub replacement: Option<Seq<char>>,
}

impl View for SearchQuery {
    type V = SearchQueryView;

    open spec fn view(&self) -> SearchQueryView {
        SearchQueryView {
            kind: self.kind,
            inner: self.inner@,
            whole_word: self.whole_word,
            case_sensitive: self.case_sensitive,
            include_ignored: self.include_ignored,
            replacement: option_view(self.replacement),
        }
    }
}

impl Clone for SearchQuery {
    fn clone(&self) -> (copy: Self)
        ensures
            copy@ == self@,
    {
        SearchQuery {
            kind: self.kind,
            inner: self.inner.clone(),
            whole_word: self.whole_word,
            case_sensitive: self.case_sensitive,
            include_ignored: self.include_ignored,
            replacement: clone_option(&self.replacement),
        }
    }
}

/// The view of a query that may be absent.
pub open spec fn query_view(query: Option<SearchQuery>) -> Option<SearchQueryView> {
    match query {
        Some(q) => Some(q@),
        None => None,
    }
}

impl SearchQueryView {
    /// This query, set to replace each match by `replacement`.
    pub open spec fn with_replacement(self, replacement: Seq<char>) -> SearchQueryView {
        SearchQueryView { replacement: Some(replacement), ..self }
    }
}

impl SearchQuery {
    /// A query for the literal text `query`.
    pub fn text(
        query: String,
        whole_word: bool,
        case_sensitive: bool,
        include_ignored: bool,
        files_to_include: Vec<String>,
        files_to_exclude: Vec<String>,
    ) -> (built: Self)
        ensures
            built@ == (SearchQueryView {
                kind: QueryKind::Text,
                inner: SearchInputsView {
                    query: query@,
                    files_to_include: views(files_to_include@),
                    files_to_exclude: views(files_to_exclude@),
                },
                whole_word,
                case_sensitive,
                include_ignored,
                replacement: None,
            }),
    {
        SearchQuery {
            kind: QueryKind::Text,
            inner: SearchInputs { query, files_to_include, files_to_exclude },
            whole_word,
            case_sensitive,
            include_ignored,
            replacement: None,
        }
    }

    /// A query for the regular expression `query`.
    pub fn regex(
        query: String,
        whole_word: bool,
        case_sensitive: bool,
        include_ignored: bool,
        files_to_include: Vec<String>,
        files_to_exclude: Vec<String>,
    ) -> (built: Self)
        ensures
            built@ == (SearchQueryView {
                kind: QueryKind::Regex,
                inner: SearchInputsView {
                    query: query@,
                    files_to_include: views(files_to_include@),
                    files_to_exclude: views(files_to_exclude@),
                },
                whole_word,
                case_sensitive,
                include_ignored,
                replacement: None,
            }),
    {
        SearchQuery {
            kind: QueryKind::Regex,
            inner: SearchInputs { query, files_to_include, files_to_exclude },
            whole_word,
            case_sensitive,
            include_ignored,
            replacement: None,
        }
    }

    /// This query, set to replace each match by `new_replacement`.
    pub fn with_replacement(self, new_replacement: String) -> (query: Self)
        ensures
            query@ == self@.with_replacement(new_replacement@),
    {
        SearchQuery {
            kind: self.kind,
            inner: self.inner,
            whole_word: self.whole_word,
            case_sensitive: self.case_sensitive,
            include_ignored: self.include_ignored,
            replacement: Some(new_replacement),
        }
    }

    /// The text that is searched for.
    pub fn as_str(&self) -> (query: &str)
        ensures
            query@ == self@.inner.query,
    {
        self.inner.query.as_str()
    }

    /// What is searched for and in which files.
    pub fn as_inner(&self) -> (inner: &SearchInputs)
        ensures
            inner@ == self@.inner,
    {
        &self.inner
    }

    /// The text to put in place of each match, if matches are to be
    /// replaced.
    pub fn replacement(&self) -> (replacement: Option<String>)
        ensures
            option_view(replacement) == self@.replacement,
    {
        clone_option(&self.replacement)
    }
}

/// What the host's compilers said of the inputs of a search: whether the
/// include filters, the exclude filters, and the query text, read as
/// literal text or as a regular expression, were accepted.
#[derive(Clone, Copy, Debug, PartialEq, Eq, Structural)]
pub struct QueryValidation {
    pub included_files: bool,
    pub excluded_files: bool,
    pub text_query: bool,
    pub regex_query: bool,
}

} // verus!
