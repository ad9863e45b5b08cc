//! Failures of the core, and the status codes the token interface reports
//! for them.

use vstd::prelude::*;
use crate::login::UserMode;
use crate::mechanism::{MechMode, Mechanism};
use crate::object::ObjectKind;

verus! {

/// Why an operation of the core failed.
#[derive(Clone, Debug, PartialEq)]
pub enum Error {
    /// A required argument is missing or inconsistent.
    ArgumentsBad,
    /// No session has this handle.
    SessionInvalid,
    /// No object has this handle.
    ObjectHandleInvalid,
    /// The operation needs a role that the session does not hold.
    NotLoggedIn(UserMode),
    /// The mechanism cannot serve the requested operation.
    InvalidMechanismForMode(MechMode, Mechanism),
    /// The key, named by identifier and kind, does not allow the mechanism.
    InvalidMechanismForKey(String, ObjectKind, Mechanism),
    /// The token never performs this action.
    ActionProhibited,
    /// A signature returned by the HSM is malformed.
    InvalidData,
    /// The HSM or the way to it failed; the cause is kept for the log.
    BackendError(String),
    /// Anything else.
    GeneralError,
}

/// Status reported to the caller of the token interface.
#[derive(Clone, Copy, Debug, PartialEq, Eq, Structural, Hash)]
pub enum Status {
    Success,
    GeneralError,
    ArgumentsBad,
    ActionProhibited,
    MechanismInvalid,
    ObjectHandleInvalid,
    SessionHandleInvalid,
    UserNotLoggedIn,
}

pub const CKR_OK: u64 = 0;

pub const CKR_GENERAL_ERROR: u64 = 5;

pub const CKR_ARGUMENTS_BAD: u64 = 7;

pub const CKR_ACTION_PROHIBITED: u64 = 27;

pub const CKR_MECHANISM_INVALID: u64 = 112;

pub const CKR_OBJECT_HANDLE_INVALID: u64 = 130;

pub const CKR_SESSION_HANDLE_INVALID: u64 = 179;

pub const CKR_USER_NOT_LOGGED_IN: u64 = 257;

impl Status {
    /// The numeric value of this status in the token interface.
    pub open spec fn code_of(self) -> u64 {
        match self {
            Status::Success => CKR_OK,
            Status::GeneralError => CKR_GENERAL_ERROR,
            Status::ArgumentsBad => CKR_ARGUMENTS_BAD,
            Status::ActionProhibited => CKR_ACTION_PROHIBITED,
            Status::MechanismInvalid => CKR_MECHANISM_INVALID,
            Status::ObjectHandleInvalid => CKR_OBJECT_HANDLE_INVALID,
            Status::SessionHandleInvalid => CKR_SESSION_HANDLE_INVALID,
            Status::UserNotLoggedIn => CKR_USER_NOT_LOGGED_IN,
        }
    }

    pub fn code(&self) -> (out: u64)
        ensures
            out == self.code_of(),
    {
        match self {
            Status::Success => CKR_OK,
            Status::GeneralError => CKR_GENERAL_ERROR,
            Status::ArgumentsBad => CKR_ARGUMENTS_BAD,
            Status::ActionProhibited => CKR_ACTION_PROHIBITED,
            Status::MechanismInvalid => CKR_MECHANISM_INVALID,
            Status::ObjectHandleInvalid => CKR_OBJECT_HANDLE_INVALID,
            Status::SessionHandleInvalid => CKR_SESSION_HANDLE_INVALID,
            Status::UserNotLoggedIn => CKR_USER_NOT_LOGGED_IN,
        }
    }
}

impl Error {
    /// The status that stands for this failure at the token interface. This
    /// is the one place where a failure becomes a status code.
    pub open spec fn status_of(self) -> Status {
        match self {
            Error::ArgumentsBad => Status::ArgumentsBad,
            Error::SessionInvalid => Status::SessionHandleInvalid,
            Error::ObjectHandleInvalid => Status::ObjectHandleInvalid,
            Error::NotLoggedIn(_) => Status::UserNotLoggedIn,
            Error::InvalidMechanismForMode(_, _) => Status::MechanismInvalid,
            Error::InvalidMechanismForKey(_, _, _) => Status::MechanismInvalid,
            Error::ActionProhibited => Status::ActionProhibited,
            Error::InvalidData => Status::GeneralError,
            Error::BackendError(_) => Status::GeneralError,
            Error::GeneralError => Status::GeneralError,
        }
    }

    pub fn status(&self) -> (out: Status)
        ensures
            out == self.status_of(),
            out != Status::Success,
    {
        match self {
            Error::ArgumentsBad => Status::ArgumentsBad,
            Error::SessionInvalid => Status::SessionHandleInvalid,
            Error::ObjectHandleInvalid => Status::ObjectHandleInvalid,
            Error::NotLoggedIn(_) => Status::UserNotLoggedIn,
            Error::InvalidMechanismForMode(_, _) => Status::MechanismInvalid,
            Error::InvalidMechanismForKey(_, _, _) => Status::MechanismInvalid,
            Error::ActionProhibited => Status::ActionProhibited,
            Error::InvalidData => Status::GeneralError,
            Error::BackendError(_) => Status::GeneralError,
            Error::GeneralError => Status::GeneralError,
        }
    }
}

} // verus!
