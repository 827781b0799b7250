//! One click request, end to end: acquire a fresh engine handle, attempt one
//! left-button click, and decide the outcome after each step.

use vstd::prelude::*;

use crate::outcome::ClickOutcome;
use crate::outcome::status_of;
use crate::outcome::STATUS_INTERNAL_ERROR;
use crate::outcome::STATUS_OK;

verus! {

/// Connection handle to the OS input-simulation subsystem, acquired anew for
/// each request and dropped when the request ends.
#[verifier::external_type_specification]
#[verifier::external_body]
pub struct ExEnigo(enigo::Enigo);

/// Relies on `enigo::Enigo::new`, called with `enigo::Settings::default()`:
/// it connects to the OS input-simulation subsystem and returns a fresh
/// engine handle, or an error when no connection can be made. Which of the
/// two happens depends on the platform and session, so nothing more is
/// promised of the result; the error is handed on as its description.
#[verifier::external_body]
fn acquire_engine() -> Result<enigo::Enigo, String> {
    match enigo::Enigo::new(&enigo::Settings::default()) {
        Ok(engine) => Ok(engine),
        Err(e) => Err(format!("{}", e)),
    }
}

/// Relies on `enigo::Mouse::button` for `enigo::Enigo`, called with
/// `Button::Left` and `Direction::Click`: it sends one left-button
/// press-and-release at the current cursor position and reports whether the
/// OS accepted it. Acceptance depends on the session, so nothing more is
/// promised of the result; the error is handed on as its description.
#[verifier::external_body]
fn click_left(engine: &mut enigo::Enigo) -> Result<(), String> {
    match enigo::Mouse::button(engine, enigo::Button::Left, enigo::Direction::Click) {
        Ok(()) => Ok(()),
        Err(e) => Err(format!("{}", e)),
    }
}

/// Decision after the engine-acquisition step. The click action is due
/// exactly when acquisition succeeded: the engine is handed on unchanged.
/// A failed acquisition ends the request at once — zero clicks are attempted
/// — with the engine-initialization outcome carrying the error's description.
pub fn acquisition_step_outcome<T>(acquisition: Result<T, String>) -> (decision: Result<
    T,
    ClickOutcome,
>)
    ensures
        acquisition matches Ok(engine) ==> decision == Ok::<T, ClickOutcome>(engine),
        acquisition matches Err(detail) ==> decision == Err::<T, ClickOutcome>(
            ClickOutcome::EngineInitFailed(detail),
        ),
{
    match acquisition {
        Ok(engine) => Ok(engine),
        Err(detail) => Err(ClickOutcome::EngineInitFailed(detail)),
    }
}

/// Final outcome of a request whose engine was acquired, decided by how the
/// click action ended: completed on success, otherwise the action failure
/// carrying the error's description.
pub fn click_step_outcome(click: Result<(), String>) -> (outcome: ClickOutcome)
    ensures
        click is Ok ==> outcome == ClickOutcome::Completed,
        click matches Err(detail) ==> outcome == ClickOutcome::ActionFailed(detail),
{
    match click {
        Ok(()) => ClickOutcome::Completed,
        Err(detail) => ClickOutcome::ActionFailed(detail),
    }
}

/// Handle one click request: acquire a fresh engine handle with default
/// settings and, exactly when that succeeds, attempt one left-button click at
/// the OS cursor's current position. Every path ends in a defined outcome,
/// whatever the two OS calls returned.
pub fn perform_click() -> (outcome: ClickOutcome)
    ensures
        status_of(outcome) == STATUS_OK || status_of(outcome) == STATUS_INTERNAL_ERROR,
{
    match acquisition_step_outcome(acquire_engine()) {
        Ok(mut engine) => click_step_outcome(click_left(&mut engine)),
        Err(outcome) => outcome,
    }
}

} // verus!
