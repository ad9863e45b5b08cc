//! Roles that a caller can hold against the HSM, and the policy for running
//! a backend call under one of them.

use vstd::prelude::*;

verus! {

/// A role on the HSM.
#[derive(Clone, Copy, Debug, PartialEq, Eq, Structural, Hash)]
pub enum UserMode {
    Operator,
    Administrator,
}

/// The roles a session is authenticated for. Cloning is cheap and opens no
/// second session with the HSM: the value only records which roles hold.
#[derive(Clone, Copy, Debug, PartialEq, Eq, Structural)]
pub struct LoginCtx {
    pub operator: bool,
    pub administrator: bool,
}

/// What the backend answered to one call.
#[derive(Clone, Copy, Debug, PartialEq, Eq, Structural)]
pub enum CallOutcome {
    /// The call went through.
    Success,
    /// The HSM no longer accepts the credentials it was shown.
    AuthenticationExpired,
    /// Any other failure.
    Failure,
}

/// What to do after a backend call has been answered.
#[derive(Clone, Copy, Debug, PartialEq, Eq, Structural)]
pub enum NextStep {
    /// Hand the payload to the caller.
    Deliver,
    /// Authenticate again, then issue the call once more.
    Reauthenticate,
    /// Hand the failure to the caller unchanged.
    Fail,
}

impl LoginCtx {
    /// Whether `mode` is among the authenticated roles.
    pub open spec fn holds(self, mode: UserMode) -> bool {
        match mode {
            UserMode::Operator => self.operator,
            UserMode::Administrator => self.administrator,
        }
    }

    /// The context that holds no role.
    pub open spec fn anonymous_spec() -> LoginCtx {
        LoginCtx { operator: false, administrator: false }
    }

    /// The context of a fresh session: no role at all.
    pub fn anonymous() -> (out: LoginCtx)
        ensures
            out == Self::anonymous_spec(),
            forall|mode: UserMode| !out.holds(mode),
    {
        LoginCtx { operator: false, administrator: false }
    }

    /// The context after a successful login as `mode`; other roles stay.
    pub fn with_role(self, mode: UserMode) -> (out: LoginCtx)
        ensures
            out.holds(mode),
            forall|other: UserMode| other != mode ==> out.holds(other) == self.holds(other),
    {
        match mode {
            UserMode::Operator => LoginCtx { operator: true, administrator: self.administrator },
            UserMode::Administrator => LoginCtx { operator: self.operator, administrator: true },
        }
    }

    /// The context after a logout: every role is dropped.
    pub fn logout(self) -> (out: LoginCtx)
        ensures
            out == Self::anonymous_spec(),
    {
        LoginCtx { operator: false, administrator: false }
    }

    /// Capability check: may a call that needs `mode` be issued?
    pub fn can_run_mode(&self, mode: UserMode) -> (out: bool)
        ensures
            out == self.holds(mode),
    {
        match mode {
            UserMode::Operator => self.operator,
            UserMode::Administrator => self.administrator,
        }
    }

    /// The step that follows the `attempt`-th answer (counted from 0) to a
    /// call issued under a role.
    pub open spec fn step_after(attempt: nat, outcome: CallOutcome) -> NextStep {
        match outcome {
            CallOutcome::Success => NextStep::Deliver,
            CallOutcome::AuthenticationExpired => if attempt == 0 {
                NextStep::Reauthenticate
            } else {
                NextStep::Fail
            },
            CallOutcome::Failure => NextStep::Fail,
        }
    }

    /// Decides what follows a backend answer. An expired authentication is
    /// answered by exactly one new login and one repetition of the call; every
    /// other failure, and a second expiry, goes to the caller as it is.
    pub fn next_step(attempt: usize, outcome: CallOutcome) -> (out: NextStep)
        ensures
            out == Self::step_after(attempt as nat, outcome),
    {
        match outcome {
            CallOutcome::Success => NextStep::Deliver,
            CallOutcome::AuthenticationExpired => {
                if attempt == 0 {
                    NextStep::Reauthenticate
                } else {
                    NextStep::Fail
                }
            },
            CallOutcome::Failure => NextStep::Fail,
        }
    }
}

/// A call is issued at most twice: whatever the backend answers, the second
/// answer never asks for another login.
pub proof fn at_most_one_retry(attempt: nat, outcome: CallOutcome)
    requires
        attempt >= 1,
    ensures
        LoginCtx::step_after(attempt, outcome) != NextStep::Reauthenticate,
{
}

} // verus!
