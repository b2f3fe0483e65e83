//! Behaviour of the adapter around the forwarding primitive: outcome
//! translation and the placeholder state.
use ztg_runtime_lib::adapter::{adapt_runtime_outcome, Error, HostOutcome, ZtgRuntimeExample};
use ztg_runtime_lib::primitives::OutcomeReport;

#[test]
fn it_works() {
    // assert_ok!(true);
    assert!(true);
}

#[test]
fn a_failed_forward_is_reported_as_the_error_kind() {
    assert_eq!(
        adapt_runtime_outcome(HostOutcome::CallFailed),
        Err(Error::CallRuntimeFailed)
    );
}

#[test]
fn a_successful_forward_passes_through_as_success() {
    assert_eq!(adapt_runtime_outcome(HostOutcome::Succeeded), Ok(()));
}

#[test]
fn the_placeholder_outcome_is_what_the_constructor_was_given() {
    let a = ZtgRuntimeExample::new(OutcomeReport::Categorical(3));
    assert_eq!(a.outcome_report, OutcomeReport::Categorical(3));
    let d = ZtgRuntimeExample::default();
    assert_eq!(d.outcome_report, OutcomeReport::Scalar(0));
}

#[test]
fn building_a_call_does_not_touch_adapter_state() {
    let a = ZtgRuntimeExample::new(OutcomeReport::Scalar(77));
    let _ = a.cross();
    let _ = a.join_court(5);
    assert_eq!(a.outcome_report, OutcomeReport::Scalar(77));
}
