//! What is sent to the feedback endpoint, and how its answer is read.

use crate::text::list::clone_option;
use crate::text::list::option_view;
use vstd::prelude::*;
use vstd::string::StringExecFns;

verus! {

/// Whether a simulated submission succeeds.
pub const SEND_SUCCESS_IN_DEV_MODE: bool = true;

/// How many seconds a simulated submission takes.
pub const SEND_TIME_IN_DEV_MODE_SECS: u64 = 2;

/// The path of the feedback endpoint below the server's address.
pub const FEEDBACK_ENDPOINT_PATH: &'static str = "/api/feedback";

/// What the form knows about the machine and the build it runs on.
#[derive(Debug, PartialEq, Eq)]
pub struct SystemSpecs {
    pub app_version: Option<String>,
    pub release_channel: String,
    pub os_name: String,
    pub os_version: Option<String>,
    pub memory: u64,
    pub architecture: String,
}

/// The model of `SystemSpecs`.
pub struct SystemSpecsView {
    pub app_version: Option<Seq<char>>,
    pub release_channel: Seq<char>,
    pub os_name: Seq<char>,
    pub os_version: Option<Seq<char>>,
    pub memory: u64,
    pub architecture: Seq<char>,
}

impl View for SystemSpecs {
    type V = SystemSpecsView;

    open spec fn view(&self) -> SystemSpecsView {
        SystemSpecsView {
            app_version: option_view(self.app_version),
            release_channel: self.release_channel@,
            os_name: self.os_name@,
            os_version: option_view(self.os_version),
            memory: self.memory,
            architecture: self.architecture@,
        }
    }
}

impl Clone for SystemSpecs {
    fn clone(&self) -> (copy: Self)
        ensures
            copy@ == self@,
    {
        SystemSpecs {
            app_version: clone_option(&self.app_version),
            release_channel: self.release_channel.clone(),
            os_name: self.os_name.clone(),
            os_version: clone_option(&self.os_version),
            memory: self.memory,
            architecture: self.architecture.clone(),
        }
    }
}

/// The fields of the request that carries one piece of feedback.
#[derive(Debug, PartialEq, Eq)]
pub struct FeedbackRequestBody {
    pub feedback_text: String,
    pub email: Option<String>,
    pub metrics_id: Option<String>,
    pub installation_id: Option<String>,
    pub system_specs: SystemSpecs,
    pub is_staff: bool,
    pub token: String,
}

/// The model of `FeedbackRequestBody`.
pub struct FeedbackRequestBodyView {
    pub feedback_text: Seq<char>,
    pub email: Option<Seq<char>>,
    pub metrics_id: Option<Seq<char>>,
    pub installation_id: Option<Seq<char>>,
    pub system_specs: SystemSpecsView,
    pub is_staff: bool,
    pub token: Seq<char>,
}

impl View for FeedbackRequestBody {
    type V = FeedbackRequestBodyView;

    open spec fn view(&self) -> FeedbackRequestBodyView {
        FeedbackRequestBodyView {
            feedback_text: self.feedback_text@,
            email: option_view(self.email),
            metrics_id: option_view(self.metrics_id),
            installation_id: option_view(self.installation_id),
            system_specs: self.system_specs@,
            is_staff: self.is_staff,
            token: self.token@,
        }
    }
}

/// Why a submission failed.
#[derive(Clone, Copy, Debug, PartialEq, Eq, Structural)]
pub enum FeedbackError {
    /// A simulated submission was set to fail.
    Simulated,
    /// The endpoint answered with a status outside 200 to 299.
    ApiFailed { status: u16 },
}

/// How a confirmed submission is carried out.
#[derive(Clone, Copy, Debug, PartialEq, Eq)]
pub enum SubmissionPlan {
    /// Nothing is sent: after `wait_secs` seconds the submission ends with
    /// `outcome`.
    Simulate { wait_secs: u64, outcome: Result<(), FeedbackError> },
    /// The request is sent to the endpoint.
    Send,
}

impl FeedbackRequestBody {
    /// Puts a request together. Without word from telemetry on whether the
    /// user is staff, the request says that they are not.
    pub fn new(
        feedback_text: &str,
        email: Option<String>,
        metrics_id: Option<String>,
        installation_id: Option<String>,
        system_specs: SystemSpecs,
        is_staff: Option<bool>,
        token: &str,
    ) -> (body: Self)
        ensures
            body@ == (FeedbackRequestBodyView {
                feedback_text: feedback_text@,
                email: option_view(email),
                metrics_id: option_view(metrics_id),
                installation_id: option_view(installation_id),
                system_specs: system_specs@,
                is_staff: is_staff == Some(true),
                token: token@,
            }),
    {
        FeedbackRequestBody {
            feedback_text: String::from_str(feedback_text),
            email,
            metrics_id,
            installation_id,
            system_specs,
            is_staff: match is_staff {
                Some(staff) => staff,
                None => false,
            },
            token: String::from_str(token),
        }
    }
}

/// The address that feedback is posted to on the server at `server_url`.
pub fn feedback_endpoint(server_url: &str) -> (endpoint: String)
    ensures
        endpoint@ == server_url@ + FEEDBACK_ENDPOINT_PATH@,
{
    String::from_str(server_url).concat(FEEDBACK_ENDPOINT_PATH)
}

/// How a simulated submission ends.
pub fn simulated_outcome(succeeds: bool) -> (outcome: Result<(), FeedbackError>)
    ensures
        outcome == if succeeds {
            Ok::<(), FeedbackError>(())
        } else {
            Err::<(), FeedbackError>(FeedbackError::Simulated)
        },
{
    if succeeds {
        Ok(())
    } else {
        Err(FeedbackError::Simulated)
    }
}

/// In development mode a submission is simulated: it takes
/// `SEND_TIME_IN_DEV_MODE_SECS` seconds and ends as
/// `SEND_SUCCESS_IN_DEV_MODE` says. Everywhere else it is sent.
pub fn submission_plan(dev_mode: bool) -> (plan: SubmissionPlan)
    ensures
        plan == if dev_mode {
            SubmissionPlan::Simulate {
                wait_secs: 2,
                outcome: Ok::<(), FeedbackError>(()),
            }
        } else {
            SubmissionPlan::Send
        },
{
    if dev_mode {
        SubmissionPlan::Simulate {
            wait_secs: SEND_TIME_IN_DEV_MODE_SECS,
            outcome: simulated_outcome(SEND_SUCCESS_IN_DEV_MODE),
        }
    } else {
        SubmissionPlan::Send
    }
}

/// Reads the status of the endpoint's answer: 200 to 299 is success, every
/// other status is a failure that carries the status.
pub fn check_response_status(status: u16) -> (outcome: Result<(), FeedbackError>)
    ensures
        outcome == if 200 <= status < 300 {
            Ok::<(), FeedbackError>(())
        } else {
            Err::<(), FeedbackError>(FeedbackError::ApiFailed { status })
        },
{
    if 200 <= status && status < 300 {
        Ok(())
    } else {
        Err(FeedbackError::ApiFailed { status })
    }
}

} // verus!
