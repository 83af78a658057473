//! The feedback form as a state machine. The host shows the form, asks the
//! user and talks to the network; every decision in between is taken here.

use crate::feedback::request::SystemSpecs;
use crate::feedback::request::SystemSpecsView;
use crate::feedback::submission::email_address_valid;
use crate::feedback::submission::state_of;
use crate::feedback::submission::state_view;
use crate::feedback::submission::submission_state_for;
use crate::feedback::submission::valid_email_address;
use crate::feedback::submission::CannotSubmitReason;
use crate::feedback::submission::CannotSubmitReasonView;
use crate::feedback::submission::EMAIL_REGEX;
use crate::feedback::submission::FEEDBACK_CHAR_LIMIT_END;
use crate::feedback::submission::FEEDBACK_CHAR_LIMIT_START;
use crate::feedback::submission::InvalidStateIssue;
use crate::feedback::submission::SubmissionState;
use crate::feedback::submission::SubmissionStateView;
use crate::pattern::regex_compiles;
use crate::pattern::PatternError;
use crate::text::decimal::decimal;
use crate::text::decimal::signed_decimal;
use crate::text::list::option_view;
use crate::text::trim::spec_text_option;
use crate::text::trim::text_option;
use crate::text::trim::trim;
use crate::text::trim::trimmed;
use vstd::prelude::*;
use vstd::string::StrSliceExecFns;
use vstd::string::StringExecFns;

verus! {

/// The key under which the user's email address is remembered.
pub const DATABASE_KEY_NAME: &'static str = "email_address";

/// What the user is told when a submission failed.
pub const FEEDBACK_SUBMISSION_ERROR_TEXT: &'static str =
    "Feedback failed to submit, see error log for details.";

/// The question asked before a form that holds feedback is closed. The
/// first answer, "Yes", has the number 0.
pub const DISCARD_PROMPT: &'static str = "Discard feedback?";

/// The question asked before feedback is sent. The first answer,
/// "Yes, Submit!", has the number 0.
pub const SUBMIT_PROMPT: &'static str = "Ready to submit your feedback?";

/// The feedback form: what was typed into it and how far its submission has
/// come.
#[derive(Debug, PartialEq, Eq)]
pub struct FeedbackModal {
    pub system_specs: SystemSpecs,
    /// What the feedback input holds.
    pub feedback_text: String,
    /// What the email address input holds.
    pub email_address_text: String,
    pub submission_state: Option<SubmissionState>,
    pub dismiss_modal: bool,
    pub character_count: i32,
}

/// The model of `FeedbackModal`.
pub struct FeedbackModalState {
    pub system_specs: SystemSpecsView,
    pub feedback_text: Seq<char>,
    pub email_address_text: Seq<char>,
    pub submission_state: Option<SubmissionStateView>,
    pub dismiss_modal: bool,
    pub character_count: i32,
}

impl View for FeedbackModal {
    type V = FeedbackModalState;

    open spec fn view(&self) -> FeedbackModalState {
        FeedbackModalState {
            system_specs: self.system_specs@,
            feedback_text: self.feedback_text@,
            email_address_text: self.email_address_text@,
            submission_state: state_view(self.submission_state),
            dismiss_modal: self.dismiss_modal,
            character_count: self.character_count,
        }
    }
}

/// What the user asked to submit: the feedback without surrounding
/// whitespace and the email address, if one was typed.
#[derive(Debug, PartialEq, Eq)]
pub struct Submission {
    pub feedback_text: String,
    pub email: Option<String>,
}

/// What becomes of the remembered email address when feedback is sent.
#[derive(Debug, PartialEq, Eq)]
pub enum EmailPreference {
    /// The address is stored under `DATABASE_KEY_NAME`.
    Write { email: String },
    /// The entry under `DATABASE_KEY_NAME` is deleted.
    Delete,
}

/// The model of `EmailPreference`.
pub enum EmailPreferenceView {
    Write { email: Seq<char> },
    Delete,
}

impl View for EmailPreference {
    type V = EmailPreferenceView;

    open spec fn view(&self) -> EmailPreferenceView {
        match self {
            EmailPreference::Write { email } => EmailPreferenceView::Write { email: email@ },
            EmailPreference::Delete => EmailPreferenceView::Delete,
        }
    }
}

/// What the form shows.
#[derive(Debug, PartialEq, Eq)]
pub struct FeedbackModalLayout {
    /// The line above the feedback input.
    pub character_label: String,
    /// Whether that line is shown as fine or as an error.
    pub character_count_valid: bool,
    /// Whether the email address input is shown as fine or as an error.
    pub email_address_valid: bool,
    pub submit_button_text: &'static str,
    pub submit_disabled: bool,
}

/// The model of `FeedbackModalLayout`.
pub struct FeedbackModalLayoutView {
    pub character_label: Seq<char>,
    pub character_count_valid: bool,
    pub email_address_valid: bool,
    pub submit_button_text: Seq<char>,
    pub submit_disabled: bool,
}

impl View for FeedbackModalLayout {
    type V = FeedbackModalLayoutView;

    open spec fn view(&self) -> FeedbackModalLayoutView {
        FeedbackModalLayoutView {
            character_label: self.character_label@,
            character_count_valid: self.character_count_valid,
            email_address_valid: self.email_address_valid,
            submit_button_text: self.submit_button_text@,
            submit_disabled: self.submit_disabled,
        }
    }
}

/// The line above the feedback input: how many characters are still
/// missing a minimum, or how many are left up to the maximum (below zero
/// once the text is too long).
pub open spec fn character_label(character_count: i32) -> Seq<char> {
    if character_count < FEEDBACK_CHAR_LIMIT_START {
        "Feedback must be at least "@ + decimal(FEEDBACK_CHAR_LIMIT_START as int)
            + " characters."@
    } else {
        "Characters: "@ + decimal(FEEDBACK_CHAR_LIMIT_END - character_count)
    }
}

impl FeedbackModalState {
    /// The form as it is opened, with the remembered email address filled
    /// in.
    pub open spec fn initial(
        system_specs: SystemSpecsView,
        stored_email: Option<Seq<char>>,
    ) -> FeedbackModalState {
        FeedbackModalState {
            system_specs,
            feedback_text: Seq::<char>::empty(),
            email_address_text: match stored_email {
                Some(email) => email,
                None => Seq::<char>::empty(),
            },
            submission_state: None,
            dismiss_modal: false,
            character_count: 0,
        }
    }

    /// The email address that was typed, if any.
    pub open spec fn email(self) -> Option<Seq<char>> {
        spec_text_option(self.email_address_text)
    }

    /// Whether any feedback was typed.
    pub open spec fn has_feedback(self) -> bool {
        spec_text_option(self.feedback_text) is Some
    }

    /// Whether a submission is under way.
    pub open spec fn awaiting_submission(self) -> bool {
        self.submission_state == Some(
            SubmissionStateView::CannotSubmit { reason: CannotSubmitReasonView::AwaitingSubmission },
        )
    }

    /// Whether the form was found fit to be sent.
    pub open spec fn can_submit(self) -> bool {
        self.submission_state == Some(SubmissionStateView::CanSubmit)
    }

    /// Whether the form was found unfit to be sent for the reason `issue`.
    pub open spec fn in_invalid_state(self, issue: InvalidStateIssue) -> bool {
        self.submission_state matches Some(
            SubmissionStateView::CannotSubmit {
                reason: CannotSubmitReasonView::InvalidState { issues },
            },
        ) && issues.contains(issue)
    }

    /// The form after its feedback input changed to `text`.
    pub open spec fn feedback_edited(self, text: Seq<char>) -> FeedbackModalState {
        FeedbackModalState { feedback_text: text, character_count: text.len() as i32, ..self }
    }

    /// The form with its submission state brought up to date. While a
    /// submission is under way nothing changes.
    pub open spec fn update_submission_state(self) -> FeedbackModalState {
        if self.awaiting_submission() {
            self
        } else {
            FeedbackModalState {
                submission_state: Some(
                    state_of(email_address_valid(self.email()), self.character_count as int),
                ),
                ..self
            }
        }
    }

    /// Whether the form may close at once. One that holds feedback asks
    /// first, unless the user already agreed to close it.
    pub open spec fn on_before_dismiss(self) -> bool {
        self.dismiss_modal || !self.has_feedback()
    }

    /// The form after the user answered the question whether to discard the
    /// feedback: answer 0 lets it close.
    pub open spec fn discard_answered(self, answer: Option<usize>) -> FeedbackModalState {
        if answer == Some(0usize) {
            FeedbackModalState { dismiss_modal: true, ..self }
        } else {
            self
        }
    }

    /// Whether the inputs can be checked: always while a submission is
    /// under way or no email address is typed, otherwise where
    /// `EMAIL_REGEX` compiles.
    pub open spec fn can_be_checked(self) -> bool {
        self.awaiting_submission() || self.email() is None || regex_compiles(EMAIL_REGEX@)
    }

    /// The form after the user answered the question whether to submit:
    /// answer 0 starts the submission of a form that can be submitted. A
    /// form that cannot be submitted stays as it is, whatever the answer.
    pub open spec fn submit_answered(self, answer: Option<usize>) -> FeedbackModalState {
        if answer == Some(0usize) && self.can_submit() {
            FeedbackModalState {
                submission_state: Some(
                    SubmissionStateView::CannotSubmit {
                        reason: CannotSubmitReasonView::AwaitingSubmission,
                    },
                ),
                ..self
            }
        } else {
            self
        }
    }

    /// The form after a submission ended: a successful one closes it, a
    /// failed one makes it ready for another try.
    pub open spec fn submit_finished(self, succeeded: bool) -> FeedbackModalState {
        if succeeded {
            FeedbackModalState { dismiss_modal: true, ..self }
        } else {
            FeedbackModalState { submission_state: Some(SubmissionStateView::CanSubmit), ..self }
        }
    }

    /// What a form in this state shows.
    pub open spec fn layout(self) -> FeedbackModalLayoutView {
        FeedbackModalLayoutView {
            character_label: character_label(self.character_count),
            character_count_valid: !self.in_invalid_state(InvalidStateIssue::CharacterCount),
            email_address_valid: !self.in_invalid_state(InvalidStateIssue::EmailAddress),
            submit_button_text: if self.awaiting_submission() {
                "Submitting..."@
            } else {
                "Submit"@
            },
            submit_disabled: !self.can_submit(),
        }
    }
}

impl FeedbackModal {
    /// Opens the form. `stored_email` is the address remembered under
    /// `DATABASE_KEY_NAME`, if there is one.
    pub fn new(system_specs: SystemSpecs, stored_email: Option<String>) -> (modal: Self)
        ensures
            modal@ == FeedbackModalState::initial(system_specs@, option_view(stored_email)),
    {
        FeedbackModal {
            system_specs,
            feedback_text: String::new(),
            email_address_text: match stored_email {
                Some(email) => email,
                None => String::new(),
            },
            submission_state: None,
            dismiss_modal: false,
            character_count: 0,
        }
    }

    /// Takes note that the feedback input now holds `text`, and counts its
    /// characters.
    pub fn feedback_edited(&mut self, text: &str)
        ensures
            final(self)@ == old(self)@.feedback_edited(text@),
    {
        self.feedback_text = String::from_str(text);
        self.character_count = #[verifier::truncate]
        (text.unicode_len() as i32);
    }

    /// Whether the form may close at once. When it may not, the host asks
    /// `DISCARD_PROMPT` and reports the answer to `discard_answered`.
    pub fn on_before_dismiss(&self) -> (dismiss: bool)
        ensures
            dismiss == self@.on_before_dismiss(),
    {
        if self.dismiss_modal {
            return true;
        }
        let has_feedback = text_option(self.feedback_text.as_str()).is_some();
        if !has_feedback {
            return true;
        }
        false
    }

    /// Takes the answer to `DISCARD_PROMPT`. Returns whether the form is to
    /// be dismissed now.
    pub fn discard_answered(&mut self, answer: Option<usize>) -> (dismiss: bool)
        ensures
            final(self)@ == old(self)@.discard_answered(answer),
            dismiss == (answer == Some(0usize)),
    {
        match answer {
            Some(0) => {
                self.dismiss_modal = true;
                true
            },
            _ => false,
        }
    }

    /// Captures what is to be sent: the feedback without surrounding
    /// whitespace and the email address. The host then asks
    /// `SUBMIT_PROMPT` and reports the answer to `submit_answered`. There
    /// is nothing to send, and nothing to ask, while the form cannot be
    /// submitted: while an input was found wrong, while a submission is
    /// under way, or before the inputs were checked.
    pub fn submit(&self) -> (submission: Option<Submission>)
        ensures
            submission is Some == self@.can_submit(),
            submission matches Some(captured) ==> captured.feedback_text@ == trimmed(
                self@.feedback_text,
            ) && option_view(captured.email) == self@.email(),
    {
        if !self.can_submit() {
            return None;
        }
        Some(
            Submission {
                feedback_text: String::from_str(trim(self.feedback_text.as_str())),
                email: text_option(self.email_address_text.as_str()),
            },
        )
    }

    /// Takes the answer to `SUBMIT_PROMPT`. On answer 0 a form that can be
    /// submitted waits for the submission to end, and the result says what
    /// to do with the remembered email address before the feedback is sent:
    /// store the one that was typed, or forget the old one. On any other
    /// answer, and for a form that cannot be submitted, nothing happens and
    /// nothing is to be stored or sent.
    pub fn submit_answered(&mut self, answer: Option<usize>, submission: &Submission) -> (store:
        Option<EmailPreference>)
        ensures
            final(self)@ == old(self)@.submit_answered(answer),
            store is Some == (answer == Some(0usize) && old(self)@.can_submit()),
            !old(self)@.can_submit() ==> final(self)@ == old(self)@,
            store matches Some(preference) ==> preference@ == (match option_view(submission.email) {
                Some(email) => EmailPreferenceView::Write { email },
                None => EmailPreferenceView::Delete,
            }),
    {
        if !self.can_submit() {
            return None;
        }
        match answer {
            Some(0) => {
                let preference = match &submission.email {
                    Some(email) => EmailPreference::Write { email: email.clone() },
                    None => EmailPreference::Delete,
                };
                self.submission_state = Some(
                    SubmissionState::CannotSubmit { reason: CannotSubmitReason::AwaitingSubmission },
                );
                Some(preference)
            },
            _ => None,
        }
    }

    /// Takes the end of a submission. A successful one lets the form be
    /// dismissed; after a failed one the host shows
    /// `FEEDBACK_SUBMISSION_ERROR_TEXT`, and the form is ready for another
    /// try. Returns whether the form is to be dismissed now.
    pub fn submit_finished(&mut self, succeeded: bool) -> (dismiss: bool)
        ensures
            final(self)@ == old(self)@.submit_finished(succeeded),
            dismiss == succeeded,
    {
        if succeeded {
            self.dismiss_modal = true;
            true
        } else {
            self.submission_state = Some(SubmissionState::CanSubmit);
            false
        }
    }

    /// Brings the submission state up to date with what the inputs hold.
    /// Fails, and changes nothing, exactly where an email address is typed
    /// that cannot be checked because `EMAIL_REGEX` does not compile.
    pub fn update_submission_state(&mut self) -> (updated: Result<(), PatternError>)
        ensures
            updated is Ok == old(self)@.can_be_checked(),
            updated is Ok ==> final(self)@ == old(self)@.update_submission_state(),
            updated is Err ==> final(self)@ == old(self)@,
    {
        if self.awaiting_submission() {
            return Ok(());
        }
        let email = text_option(self.email_address_text.as_str());
        let valid = match &email {
            Some(address) => valid_email_address(Some(address.as_str())),
            None => valid_email_address(None),
        };
        match valid {
            Ok(valid_email_address) => {
                self.submission_state = Some(
                    submission_state_for(valid_email_address, self.character_count),
                );
                Ok(())
            },
            Err(error) => Err(error),
        }
    }

    /// Whether the email address was not found wrong at the latest update.
    pub fn valid_email_address(&self) -> (valid: bool)
        ensures
            valid == !self@.in_invalid_state(InvalidStateIssue::EmailAddress),
    {
        !self.in_invalid_state(InvalidStateIssue::EmailAddress)
    }

    /// Whether the length of the text was not found wrong at the latest
    /// update.
    pub fn valid_character_count(&self) -> (valid: bool)
        ensures
            valid == !self@.in_invalid_state(InvalidStateIssue::CharacterCount),
    {
        !self.in_invalid_state(InvalidStateIssue::CharacterCount)
    }

    /// Whether the form was found unfit to be sent for the reason `a`.
    #[verifier::loop_isolation(false)]
    pub fn in_invalid_state(&self, a: InvalidStateIssue) -> (found: bool)
        ensures
            found == self@.in_invalid_state(a),
    {
        match &self.submission_state {
            Some(
                SubmissionState::CannotSubmit { reason: CannotSubmitReason::InvalidState { issues } },
            ) => {
                let mut i: usize = 0;
                while i < issues.len()
                    invariant
                        i <= issues.len(),
                        forall|j: int| 0 <= j < i ==> issues@[j] != a,
                    decreases issues.len() - i,
                {
                    if issues[i] == a {
                        return true;
                    }
                    i += 1;
                }
                false
            },
            _ => false,
        }
    }

    /// Whether a submission is under way.
    pub fn awaiting_submission(&self) -> (awaiting: bool)
        ensures
            awaiting == self@.awaiting_submission(),
    {
        match &self.submission_state {
            Some(
                SubmissionState::CannotSubmit { reason: CannotSubmitReason::AwaitingSubmission },
            ) => true,
            _ => false,
        }
    }

    /// Whether the form was found fit to be sent at the latest update.
    pub fn can_submit(&self) -> (can: bool)
        ensures
            can == self@.can_submit(),
    {
        match &self.submission_state {
            Some(SubmissionState::CanSubmit) => true,
            _ => false,
        }
    }

    /// Brings the submission state up to date and says what the form
    /// shows. Fails, and changes nothing, exactly where
    /// `update_submission_state` does.
    pub fn render(&mut self) -> (layout: Result<FeedbackModalLayout, PatternError>)
        ensures
            layout is Ok == old(self)@.can_be_checked(),
            layout matches Ok(shown) ==> final(self)@ == old(self)@.update_submission_state()
                && shown@ == final(self)@.layout(),
            layout is Err ==> final(self)@ == old(self)@,
    {
        match self.update_submission_state() {
            Ok(_) => {},
            Err(error) => {
                return Err(error);
            },
        }
        let submit_button_text = if self.awaiting_submission() {
            "Submitting..."
        } else {
            "Submit"
        };
        let character_label = if self.character_count < FEEDBACK_CHAR_LIMIT_START {
            let minimum = signed_decimal(FEEDBACK_CHAR_LIMIT_START as i64);
            String::from_str("Feedback must be at least ").concat(minimum.as_str()).concat(
                " characters.",
            )
        } else {
            let left = signed_decimal(
                FEEDBACK_CHAR_LIMIT_END as i64 - self.character_count as i64,
            );
            String::from_str("Characters: ").concat(left.as_str())
        };
        Ok(
            FeedbackModalLayout {
                character_label,
                character_count_valid: self.valid_character_count(),
                email_address_valid: self.valid_email_address(),
                submit_button_text,
                submit_disabled: !self.can_submit(),
            },
        )
    }
}

/// Whenever the form is shown and no submission is under way, the submit
/// button is enabled exactly if the text has between 10 and 5000 characters
/// and the email address, where one is typed, matches `EMAIL_REGEX`; and
/// each input is marked as wrong exactly if it is.
pub proof fn lemma_submit_enabled_iff_valid(modal: FeedbackModalState)
    requires
        !modal.awaiting_submission(),
    ensures
        ({
            let shown = modal.update_submission_state();
            &&& !shown.layout().submit_disabled <==> email_address_valid(modal.email()) && 10
                <= modal.character_count <= 5000
            &&& shown.layout().email_address_valid == email_address_valid(modal.email())
            &&& shown.layout().character_count_valid == (10 <= modal.character_count <= 5000)
        }),
{
    let issues = crate::feedback::submission::issues_of(
        email_address_valid(modal.email()),
        modal.character_count as int,
    );
    if !email_address_valid(modal.email()) {
        assert(issues[0] == InvalidStateIssue::EmailAddress);
    }
    if !(10 <= modal.character_count <= 5000) {
        assert(issues.last() == InvalidStateIssue::CharacterCount);
    }
}

/// While a submission is under way the form stays as it is, its button is
/// disabled, and no input is marked as wrong, whatever the inputs hold.
pub proof fn lemma_awaiting_submission_is_stable(modal: FeedbackModalState)
    requires
        modal.awaiting_submission(),
    ensures
        modal.update_submission_state() == modal,
        modal.layout().submit_disabled,
        modal.layout().email_address_valid,
        modal.layout().character_count_valid,
        modal.layout().submit_button_text == "Submitting..."@,
{
}

/// A form that cannot be submitted is not submitted: whatever the user
/// answers, it stays as it is and does not come to wait for a submission.
pub proof fn lemma_blocked_form_is_not_submitted(modal: FeedbackModalState, answer: Option<usize>)
    requires
        !modal.can_submit(),
    ensures
        modal.submit_answered(answer) == modal,
        modal.submit_answered(answer).awaiting_submission() == modal.awaiting_submission(),
{
}

/// Once the inputs were checked, an input that is wrong holds a submission
/// back: with an email address that does not match `EMAIL_REGEX`, or with a
/// text of fewer than 10 or more than 5000 characters, the form cannot be
/// submitted, and the user's answer changes nothing.
pub proof fn lemma_wrong_input_blocks_submission(modal: FeedbackModalState, answer: Option<usize>)
    requires
        !modal.awaiting_submission(),
    ensures
        !email_address_valid(modal.email()) || !(10 <= modal.character_count <= 5000) ==> {
            &&& !modal.update_submission_state().can_submit()
            &&& modal.update_submission_state().submit_answered(answer)
                == modal.update_submission_state()
        },
{
    lemma_submit_enabled_iff_valid(modal);
}

/// A form that can be submitted is submitted on answer 0 and on no other:
/// after it, the form waits for the submission to end.
pub proof fn lemma_ready_form_is_submitted_on_yes(modal: FeedbackModalState, answer: Option<usize>)
    requires
        modal.can_submit(),
    ensures
        modal.submit_answered(answer).awaiting_submission() == (answer == Some(0usize)),
        answer != Some(0usize) ==> modal.submit_answered(answer) == modal,
{
}

} // verus!
