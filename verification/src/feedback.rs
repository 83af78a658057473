//! The feedback form: what the user typed, whether it may be sent, and what
//! happens once it is.

pub mod modal;
pub mod request;
pub mod submission;
