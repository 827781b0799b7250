//! The three ways a click request can end, and the status code that each one
//! reports to the caller.

use vstd::prelude::*;

verus! {

/// Status reported to the caller when the click was carried out.
pub const STATUS_OK: u16 = 200;

/// Status reported to the caller when either step of the request failed.
pub const STATUS_INTERNAL_ERROR: u16 = 500;

/// How one click request ended. A failure carries the underlying error's
/// description, which is meant for the diagnostic log; the caller only ever
/// sees the status code.
pub enum ClickOutcome {
    /// Engine acquisition and the click action both succeeded.
    Completed,
    /// The input-simulation engine could not be initialized; no click was
    /// attempted.
    EngineInitFailed(String),
    /// The engine was acquired, but the click action itself failed.
    ActionFailed(String),
}

/// The status code that a given outcome reports to the caller.
pub open spec fn status_of(outcome: ClickOutcome) -> u16 {
    match outcome {
        ClickOutcome::Completed => STATUS_OK,
        ClickOutcome::EngineInitFailed(_) => STATUS_INTERNAL_ERROR,
        ClickOutcome::ActionFailed(_) => STATUS_INTERNAL_ERROR,
    }
}

impl ClickOutcome {
    /// The status code for this outcome: success exactly when the click
    /// completed, server error on either failure.
    pub fn status_code(&self) -> (code: u16)
        ensures
            code == status_of(*self),
    {
        match self {
            ClickOutcome::Completed => STATUS_OK,
            ClickOutcome::EngineInitFailed(_) => STATUS_INTERNAL_ERROR,
            ClickOutcome::ActionFailed(_) => STATUS_INTERNAL_ERROR,
        }
    }
}

/// Law: every outcome maps to a defined status, success or server error;
/// no path through the request leaves it unanswered.
pub proof fn lemma_status_total(outcome: ClickOutcome)
    ensures
        status_of(outcome) == STATUS_OK || status_of(outcome) == STATUS_INTERNAL_ERROR,
{
}

/// Law: the status is success exactly when both steps of the request
/// succeeded, and server error exactly when engine acquisition or the click
/// action failed.
pub proof fn lemma_status_mapping(outcome: ClickOutcome)
    ensures
        status_of(outcome) == STATUS_OK <==> outcome is Completed,
        status_of(outcome) == STATUS_INTERNAL_ERROR <==> (outcome is EngineInitFailed
            || outcome is ActionFailed),
{
}

} // verus!
