//! Matching a text against a regular expression.

use vstd::prelude::*;

verus! {

/// `regex::Error`, the reason for which a pattern was refused. Nothing is
/// known of a value of it.
#[verifier::external_type_specification]
#[verifier::external_body]
pub struct ExRegexError(regex::Error);

/// Whether `regex::Regex::new` compiles `pattern`: whether it is a regular
/// expression in the syntax of the regex crate, and small enough for the
/// size limit that the crate sets by default.
pub uninterp spec fn regex_compiles(pattern: Seq<char>) -> bool;

/// Whether the regular expression `pattern`, once compiled, matches anywhere
/// in `haystack`.
pub uninterp spec fn regex_matches(pattern: Seq<char>, haystack: Seq<char>) -> bool;

/// A pattern that could not be compiled into a regular expression.
#[derive(Clone, Copy, Debug, PartialEq, Eq, Structural)]
pub struct PatternError;

/// `regex::Regex::new` on `pattern`, then `regex::Regex::is_match` of the
/// compiled expression on `haystack`. Compiling is done with the crate's
/// fixed default settings, so whether it succeeds depends on the pattern
/// alone; `regex_compiles` names that. When it succeeds, the answer depends
/// on the pattern and the haystack alone and is the one that
/// `regex_matches` names. The compiled expression does not leave this
/// function, so that the answer can be named by the text of the pattern.
#[verifier::external_body]
fn regex_is_match(pattern: &str, haystack: &str) -> (found: Result<bool, regex::Error>)
    ensures
        found is Ok == regex_compiles(pattern@),
        found matches Ok(b) ==> b == regex_matches(pattern@, haystack@),
{
    match regex::Regex::new(pattern) {
        Ok(re) => Ok(re.is_match(haystack)),
        Err(e) => Err(e),
    }
}

/// What a search for `pattern` in `haystack` comes to: whether the pattern
/// matches anywhere in the haystack, or `PatternError` where the pattern
/// does not compile.
pub open spec fn spec_is_match(pattern: Seq<char>, haystack: Seq<char>) -> Result<
    bool,
    PatternError,
> {
    if regex_compiles(pattern) {
        Ok(regex_matches(pattern, haystack))
    } else {
        Err(PatternError)
    }
}

/// Whether `pattern` matches anywhere in `haystack`, or `PatternError` where
/// the pattern does not compile.
pub fn is_match(pattern: &str, haystack: &str) -> (outcome: Result<bool, PatternError>)
    ensures
        outcome == spec_is_match(pattern@, haystack@),
        outcome is Ok == regex_compiles(pattern@),
{
    match_outcome(regex_is_match(pattern, haystack))
}

/// What a search comes to, given what the regular expression engine handed
/// back: its answer where it had one, and `PatternError` where it refused
/// the pattern, whatever its reason.
pub fn match_outcome(found: Result<bool, regex::Error>) -> (outcome: Result<bool, PatternError>)
    ensures
        outcome == match found {
            Ok(b) => Ok::<bool, PatternError>(b),
            Err(_) => Err::<bool, PatternError>(PatternError),
        },
{
    match found {
        Ok(b) => Ok(b),
        Err(_) => Err(PatternError),
    }
}

} // verus!
