//! Whether a feedback form may be submitted, and why not.

use crate::pattern::is_match;
use crate::pattern::regex_compiles;
use crate::pattern::regex_matches;
use crate::pattern::spec_is_match;
use crate::pattern::PatternError;
use vstd::prelude::*;

verus! {

/// The regular expression that an email address has to match somewhere.
pub const EMAIL_REGEX: &'static str = r"\b[A-Za-z0-9._%+-]+@[A-Za-z0-9.-]+\.[A-Z|a-z]{2,}\b";

/// The fewest characters a feedback text may have.
pub const FEEDBACK_CHAR_LIMIT_START: i32 = 10;

/// The most characters a feedback text may have.
pub const FEEDBACK_CHAR_LIMIT_END: i32 = 5000;

/// One reason for which a form is not fit to be sent.
#[derive(Clone, Copy, Debug, PartialEq, Eq, Structural)]
pub enum InvalidStateIssue {
    EmailAddress,
    CharacterCount,
}

/// Why a form cannot be submitted at the moment.
#[derive(Debug, PartialEq, Eq)]
pub enum CannotSubmitReason {
    InvalidState { issues: Vec<InvalidStateIssue> },
    AwaitingSubmission,
}

/// Whether a form can be submitted.
#[derive(Debug, PartialEq, Eq)]
pub enum SubmissionState {
    CanSubmit,
    CannotSubmit { reason: CannotSubmitReason },
}

/// The model of `CannotSubmitReason`.
pub enum CannotSubmitReasonView {
    InvalidState { issues: Seq<InvalidStateIssue> },
    AwaitingSubmission,
}

/// The model of `SubmissionState`.
pub enum SubmissionStateView {
    CanSubmit,
    CannotSubmit { reason: CannotSubmitReasonView },
}

impl View for CannotSubmitReason {
    type V = CannotSubmitReasonView;

    open spec fn view(&self) -> CannotSubmitReasonView {
        match self {
            CannotSubmitReason::InvalidState { issues } => CannotSubmitReasonView::InvalidState {
                issues: issues@,
            },
            CannotSubmitReason::AwaitingSubmission => CannotSubmitReasonView::AwaitingSubmission,
        }
    }
}

impl View for SubmissionState {
    type V = SubmissionStateView;

    open spec fn view(&self) -> SubmissionStateView {
        match self {
            SubmissionState::CanSubmit => SubmissionStateView::CanSubmit,
            SubmissionState::CannotSubmit { reason } => SubmissionStateView::CannotSubmit {
                reason: reason@,
            },
        }
    }
}

impl Clone for CannotSubmitReason {
    fn clone(&self) -> (copy: Self)
        ensures
            copy@ == self@,
    {
        match self {
            CannotSubmitReason::InvalidState { issues } => CannotSubmitReason::InvalidState {
                issues: issues.clone(),
            },
            CannotSubmitReason::AwaitingSubmission => CannotSubmitReason::AwaitingSubmission,
        }
    }
}

impl Clone for SubmissionState {
    fn clone(&self) -> (copy: Self)
        ensures
            copy@ == self@,
    {
        match self {
            SubmissionState::CanSubmit => SubmissionState::CanSubmit,
            SubmissionState::CannotSubmit { reason } => SubmissionState::CannotSubmit {
                reason: reason.clone(),
            },
        }
    }
}

/// The model of a submission state that may not have been computed yet.
pub open spec fn state_view(state: Option<SubmissionState>) -> Option<SubmissionStateView> {
    match state {
        Some(s) => Some(s@),
        None => None,
    }
}

/// A count of characters that a feedback text may have.
pub open spec fn character_count_in_limit(count: int) -> bool {
    FEEDBACK_CHAR_LIMIT_START <= count <= FEEDBACK_CHAR_LIMIT_END
}

/// An email address is optional; one that is given has to match
/// `EMAIL_REGEX`.
pub open spec fn email_address_valid(email: Option<Seq<char>>) -> bool {
    match email {
        Some(address) => regex_matches(EMAIL_REGEX@, address),
        None => true,
    }
}

/// What is wrong with a form, the email address first.
pub open spec fn issues_of(email_valid: bool, character_count: int) -> Seq<InvalidStateIssue> {
    let email_issues = if email_valid {
        Seq::<InvalidStateIssue>::empty()
    } else {
        seq![InvalidStateIssue::EmailAddress]
    };
    if character_count_in_limit(character_count) {
        email_issues
    } else {
        email_issues.push(InvalidStateIssue::CharacterCount)
    }
}

/// The state of a form that is not being sent: it can be submitted exactly
/// when nothing is wrong with it.
pub open spec fn state_of(email_valid: bool, character_count: int) -> SubmissionStateView {
    let issues = issues_of(email_valid, character_count);
    if issues.len() == 0 {
        SubmissionStateView::CanSubmit
    } else {
        SubmissionStateView::CannotSubmit {
            reason: CannotSubmitReasonView::InvalidState { issues },
        }
    }
}

/// Whether a feedback text of `character_count` characters is neither too
/// short nor too long.
pub fn valid_character_count(character_count: i32) -> (valid: bool)
    ensures
        valid == character_count_in_limit(character_count as int),
        valid == (10 <= character_count <= 5000),
{
    FEEDBACK_CHAR_LIMIT_START <= character_count && character_count <= FEEDBACK_CHAR_LIMIT_END
}

/// What the check of an optional email address comes to. Without an address
/// the answer is yes; an address is checked against `EMAIL_REGEX`, which
/// fails where that pattern does not compile.
pub open spec fn spec_valid_email_address(email: Option<Seq<char>>) -> Result<
    bool,
    PatternError,
> {
    match email {
        Some(address) => spec_is_match(EMAIL_REGEX@, address),
        None => Ok(true),
    }
}

/// Whether the optional email address of a form is acceptable, or
/// `PatternError` where `EMAIL_REGEX` does not compile. Without an address
/// the answer is yes whether or not it does.
pub fn valid_email_address(email: Option<&str>) -> (valid: Result<bool, PatternError>)
    ensures
        valid == spec_valid_email_address(
            match email {
                Some(address) => Some(address@),
                None => None,
            },
        ),
        valid is Ok == (email is None || regex_compiles(EMAIL_REGEX@)),
        valid matches Ok(b) ==> b == email_address_valid(
            match email {
                Some(address) => Some(address@),
                None => None,
            },
        ),
{
    match email {
        Some(address) => is_match(EMAIL_REGEX, address),
        None => Ok(true),
    }
}

/// The state of a form that is not being sent, from whether its email
/// address is acceptable and from the length of its text.
pub fn submission_state_for(email_valid: bool, character_count: i32) -> (state: SubmissionState)
    ensures
        state@ == state_of(email_valid, character_count as int),
{
    let mut invalid_state_issues: Vec<InvalidStateIssue> = Vec::new();
    if !email_valid {
        invalid_state_issues.push(InvalidStateIssue::EmailAddress);
    }
    if !valid_character_count(character_count) {
        invalid_state_issues.push(InvalidStateIssue::CharacterCount);
    }
    if invalid_state_issues.is_empty() {
        SubmissionState::CanSubmit
    } else {
        SubmissionState::CannotSubmit {
            reason: CannotSubmitReason::InvalidState { issues: invalid_state_issues },
        }
    }
}

/// A form can be submitted exactly when its email address is acceptable and
/// its text has between 10 and 5000 characters.
pub proof fn lemma_can_submit_iff_valid(email_valid: bool, character_count: int)
    ensures
        state_of(email_valid, character_count) is CanSubmit <==> email_valid && 10
            <= character_count <= 5000,
{
}

} // verus!
