//! The lifecycle of an action (a deposit, a withdrawal, an order).
use vstd::prelude::*;

use crate::core_error::CoreError;

verus! {

/// Action State.
#[derive(Debug, Clone, Copy, PartialEq, Eq, Structural)]
#[non_exhaustive]
pub enum ActionState {
    /// Pending.
    Pending,
    /// Completed.
    Completed,
}

/// The state after completing, or the error.
pub open spec fn complete_spec(s: ActionState) -> Result<ActionState, CoreError> {
    if s == ActionState::Pending {
        Ok(ActionState::Completed)
    } else {
        Err(CoreError::PreconditionsAreNotMet)
    }
}

impl ActionState {
    /// Transition to Completed State: only a pending action can complete.
    pub fn completed(self) -> (r: Result<Self, CoreError>)
        ensures
            r == complete_spec(self),
    {
        match self {
            ActionState::Pending => Ok(ActionState::Completed),
            _ => Err(CoreError::PreconditionsAreNotMet),
        }
    }

    /// The name of the state.
    pub fn as_str(&self) -> (r: &'static str)
        ensures
            *self == ActionState::Pending ==> r@ == "pending"@,
            *self == ActionState::Completed ==> r@ == "completed"@,
    {
        match self {
            ActionState::Pending => "pending",
            ActionState::Completed => "completed",
        }
    }

    /// The number of the state.
    pub fn to_u8(self) -> (r: u8)
        ensures
            self == ActionState::Pending ==> r == 0,
            self == ActionState::Completed ==> r == 1,
    {
        match self {
            ActionState::Pending => 0,
            ActionState::Completed => 1,
        }
    }

    /// The state with the given number, if any.
    pub fn try_from_u8(v: u8) -> (r: Result<Self, CoreError>)
        ensures
            v == 0 ==> r == Ok::<ActionState, CoreError>(ActionState::Pending),
            v == 1 ==> r == Ok::<ActionState, CoreError>(ActionState::Completed),
            v > 1 ==> r == Err::<ActionState, CoreError>(CoreError::InvalidArgument),
    {
        if v == 0 {
            Ok(ActionState::Pending)
        } else if v == 1 {
            Ok(ActionState::Completed)
        } else {
            Err(CoreError::InvalidArgument)
        }
    }
}

/// An action completes at most once: completing the completed state fails.
pub proof fn lemma_complete_once(s: ActionState)
    ensures
        complete_spec(s) matches Ok(t) ==> complete_spec(t) == Err::<ActionState, CoreError>(
            CoreError::PreconditionsAreNotMet,
        ),
{
}

} // verus!
