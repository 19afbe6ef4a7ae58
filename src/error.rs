//! Errors: a kind and a human-readable message.

use vstd::prelude::*;

verus! {

/// The kind of a failure.
#[derive(Clone, Copy, Debug, PartialEq, Eq, Structural)]
pub enum ErrorCode {
    /// No handler is registered for the command.
    UnknownCommand,
    /// A payload does not have the shape of the type it was decoded as.
    DecodeError,
    /// A handler was registered twice for one command.
    DuplicateRegistration,
    /// A workflow step did not find what an earlier response promised.
    WorkflowAssumptionViolated,
    /// Publishable content could not be gathered.
    GatherFailed,
    /// A text id is not a valid identifier.
    InvalidId,
    /// The record asked for does not exist.
    NotFound,
    /// The caller may not do this.
    PermissionDenied,
    /// The change conflicts with the current state.
    Conflict,
    /// Any other failure of a handler.
    Internal,
}

/// A failure: its kind and a message.
#[derive(Debug)]
pub struct FlowyError {
    pub code: ErrorCode,
    pub msg: String,
}

/// The mathematical value of an error.
pub type ErrorModel = (ErrorCode, Seq<char>);

impl FlowyError {
    pub open spec fn model(&self) -> ErrorModel {
        (self.code, self.msg@)
    }

    pub fn new(code: ErrorCode, msg: &str) -> (r: FlowyError)
        ensures
            r.code == code,
            r.msg@ == msg@,
    {
        FlowyError { code, msg: msg.to_owned() }
    }

    /// A copy of the error.
    pub fn duplicate(&self) -> (r: FlowyError)
        ensures
            r.model() == self.model(),
    {
        FlowyError { code: self.code, msg: self.msg.clone() }
    }
}

} // verus!
