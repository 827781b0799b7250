//! Status mapping and outcome tests on concrete values.

use click_endpoint::outcome::ClickOutcome;
use click_endpoint::outcome::STATUS_INTERNAL_ERROR;
use click_endpoint::outcome::STATUS_OK;

#[test]
fn completed_maps_to_ok_status() {
    assert_eq!(ClickOutcome::Completed.status_code(), 200);
    assert_eq!(STATUS_OK, 200);
}

#[test]
fn engine_init_failure_maps_to_server_error_status() {
    let outcome = ClickOutcome::EngineInitFailed(String::from("no display"));
    assert_eq!(outcome.status_code(), 500);
    assert_eq!(STATUS_INTERNAL_ERROR, 500);
}

#[test]
fn action_failure_maps_to_server_error_status() {
    let outcome = ClickOutcome::ActionFailed(String::from("simulating input failed"));
    assert_eq!(outcome.status_code(), 500);
}

#[test]
fn failure_outcomes_keep_the_error_description() {
    let init = ClickOutcome::EngineInitFailed(String::from("injected init failure"));
    match init {
        ClickOutcome::EngineInitFailed(detail) => {
            assert_eq!(detail, "injected init failure");
        }
        _ => panic!("expected an engine-initialization failure"),
    }
    let action = ClickOutcome::ActionFailed(String::from("injected click failure"));
    match action {
        ClickOutcome::ActionFailed(detail) => {
            assert_eq!(detail, "injected click failure");
        }
        _ => panic!("expected an action failure"),
    }
}
