//! What the panel knows of the semantic index of its project.

use crate::text::decimal::decimal;
use crate::text::decimal::unsigned_decimal;
use vstd::prelude::*;
use vstd::string::StringExecFns;

verus! {

/// The time left until the rate limit of the embedding service resets, as
/// whole seconds and the nanoseconds beyond them.
#[derive(Clone, Copy, Debug, PartialEq, Eq, Structural)]
pub struct RateLimit {
    pub remaining_secs: u64,
    pub remaining_subsec_nanos: u32,
}

/// How far the semantic index of a project has come.
#[derive(Clone, Copy, Debug, PartialEq, Eq)]
pub enum SemanticIndexStatus {
    NotAuthenticated,
    NotIndexed,
    Indexed,
    Indexing { remaining_files: usize, rate_limit_expiry: Option<RateLimit> },
}

/// The panel's record of the index while semantic search is in use.
#[derive(Clone, Copy, Debug, PartialEq, Eq)]
pub struct SemanticState {
    pub index_status: SemanticIndexStatus,
    /// Whether the panel refreshes itself every second to count the rate
    /// limit down.
    pub maintain_rate_limit: bool,
}

/// What the landing page says when no key for the embedding service is
/// set.
pub const NOT_AUTHENTICATED_TEXT: &'static str =
    "API Key Missing: Please set 'OPENAI_API_KEY' in Environment Variables. If you authenticated using the Assistant Panel, please restart Zed to Authenticate.";

impl SemanticIndexStatus {
    /// Whether the index is being built under a rate limit.
    pub open spec fn rate_limited(self) -> bool {
        self matches SemanticIndexStatus::Indexing { rate_limit_expiry: Some(_), .. }
    }

    /// The line that describes the index on the landing page; none for a
    /// project that is not indexed.
    pub open spec fn spec_status_text(self) -> Option<Seq<char>> {
        match self {
            SemanticIndexStatus::NotAuthenticated => Some(NOT_AUTHENTICATED_TEXT@),
            SemanticIndexStatus::Indexed => Some("Indexing complete"@),
            SemanticIndexStatus::Indexing { remaining_files, rate_limit_expiry } => {
                if remaining_files == 0 {
                    Some("Indexing..."@)
                } else {
                    match rate_limit_expiry {
                        Some(limit) if limit.remaining_secs > 0 || limit.remaining_subsec_nanos
                            > 0 => Some(
                            "Remaining files to index (rate limit resets in "@ + decimal(
                                limit.remaining_secs as int,
                            ) + "s): "@ + decimal(remaining_files as int),
                        ),
                        _ => Some("Remaining files to index: "@ + decimal(remaining_files as int)),
                    }
                }
            },
            SemanticIndexStatus::NotIndexed => None,
        }
    }

    /// Whether the index is being built under a rate limit.
    pub fn is_rate_limited(&self) -> (limited: bool)
        ensures
            limited == self.rate_limited(),
    {
        match self {
            SemanticIndexStatus::Indexing { rate_limit_expiry: Some(_), .. } => true,
            _ => false,
        }
    }

    /// The line that describes the index on the landing page; none for a
    /// project that is not indexed.
    pub fn status_text(&self) -> (text: Option<String>)
        ensures
            crate::text::list::option_view(text) == self.spec_status_text(),
    {
        match self {
            SemanticIndexStatus::NotAuthenticated => Some(String::from_str(NOT_AUTHENTICATED_TEXT)),
            SemanticIndexStatus::Indexed => Some(String::from_str("Indexing complete")),
            SemanticIndexStatus::Indexing { remaining_files, rate_limit_expiry } => {
                if *remaining_files == 0 {
                    Some(String::from_str("Indexing..."))
                } else {
                    let files = unsigned_decimal(*remaining_files as u64);
                    match rate_limit_expiry {
                        Some(limit) if limit.remaining_secs > 0 || limit.remaining_subsec_nanos
                            > 0 => {
                            let seconds = unsigned_decimal(limit.remaining_secs);
                            Some(
                                String::from_str(
                                    "Remaining files to index (rate limit resets in ",
                                ).concat(seconds.as_str()).concat("s): ").concat(files.as_str()),
                            )
                        },
                        _ => Some(
                            String::from_str("Remaining files to index: ").concat(files.as_str()),
                        ),
                    }
                }
            },
            SemanticIndexStatus::NotIndexed => None,
        }
    }
}

} // verus!
