use legion_cli::cli::{resolve_list, CliError, CliOutput, OutputType};
use legion_cli::custom_effect::CustomEffect;
use legion_cli::dispatch::{
    action_for, apply_exit_code, decide, decision_exit_code, needs_manager, no_manager_exit_code,
    AcquireOutcome, Decision, Gate, GateEvent, GateState, ManagerAction,
};
use legion_cli::effects::{Brightness, Effects};
use legion_cli::profile::resolve_set;

fn profile_outcome() -> OutputType {
    let p = resolve_set(Effects::Wave, None, Brightness::Low, 1, None).unwrap();
    OutputType::Profile(p)
}

fn custom_outcome() -> OutputType {
    OutputType::Custom(CustomEffect::from_bytes(vec![1, 2, 3]))
}

#[test]
fn manager_needed_only_for_hardware_outcomes() {
    assert!(needs_manager(&profile_outcome()));
    assert!(needs_manager(&custom_outcome()));
    assert!(!needs_manager(&OutputType::Exit));
}

#[test]
fn list_resolves_to_exit_and_succeeds_without_manager() {
    let o = resolve_list();
    assert!(matches!(o, OutputType::Exit));
    assert!(!needs_manager(&o));
    assert_eq!(no_manager_exit_code(&o), 0);
}

#[test]
fn decisions_follow_acquisition_report() {
    let o = profile_outcome();
    assert_eq!(decide(&o, AcquireOutcome::Acquired), Decision::Proceed);
    assert_eq!(decide(&o, AcquireOutcome::Busy), Decision::SoftBusy);
    assert_eq!(decide(&o, AcquireOutcome::Failed), Decision::HardFail);
}

#[test]
fn busy_is_a_soft_success_for_profile_and_custom() {
    for o in [profile_outcome(), custom_outcome()] {
        let d = decide(&o, AcquireOutcome::Busy);
        assert_eq!(d, Decision::SoftBusy);
        assert_eq!(decision_exit_code(&d), 0);
    }
}

#[test]
fn hard_failure_exits_nonzero() {
    let d = decide(&profile_outcome(), AcquireOutcome::Failed);
    assert_eq!(decision_exit_code(&d), 1);
}

#[test]
fn actions_match_outcomes() {
    assert_eq!(action_for(&profile_outcome()), ManagerAction::ApplyProfile);
    assert_eq!(action_for(&custom_outcome()), ManagerAction::ApplyCustom);
}

#[test]
fn apply_result_sets_exit_code() {
    assert_eq!(apply_exit_code(true), 0);
    assert_eq!(apply_exit_code(false), 1);
}

#[test]
fn gate_releases_exactly_once_after_success() {
    let mut g = Gate::new();
    assert_eq!(g.current(), GateState::NotAttempted);
    assert!(g.step(GateEvent::AcquireOk));
    assert_eq!(g.current(), GateState::Acquired);
    assert!(g.step(GateEvent::ApplyOk));
    assert!(g.step(GateEvent::Release));
    assert_eq!(g.current(), GateState::Released);
    // a second release is refused
    assert!(!g.step(GateEvent::Release));
    assert_eq!(g.current(), GateState::Released);
}

#[test]
fn gate_releases_even_when_apply_fails() {
    let mut g = Gate::new();
    assert!(g.step(GateEvent::AcquireOk));
    assert!(g.step(GateEvent::ApplyFailed));
    assert!(g.step(GateEvent::Release));
    assert_eq!(g.current(), GateState::Released);
}

#[test]
fn gate_allows_release_without_apply() {
    let mut g = Gate::new();
    assert!(g.step(GateEvent::AcquireOk));
    assert!(g.step(GateEvent::Release));
    assert_eq!(g.current(), GateState::Released);
}

#[test]
fn busy_gate_refuses_every_manager_action() {
    let mut g = Gate::new();
    assert!(g.step(GateEvent::AcquireBusy));
    assert_eq!(g.current(), GateState::Busy);
    assert!(!g.step(GateEvent::ApplyOk));
    assert!(!g.step(GateEvent::ApplyFailed));
    assert!(!g.step(GateEvent::Release));
    assert_eq!(g.current(), GateState::Busy);
}

#[test]
fn gate_refuses_out_of_protocol_moves() {
    let mut g = Gate::new();
    // nothing acquired yet: no use, no release
    assert!(!g.step(GateEvent::ApplyOk));
    assert!(!g.step(GateEvent::Release));
    assert!(g.step(GateEvent::AcquireFailed));
    assert_eq!(g.current(), GateState::Failed);
    // a failed acquisition is terminal
    assert!(!g.step(GateEvent::AcquireOk));
    assert!(!g.step(GateEvent::Release));
}

#[test]
fn acquisition_happens_at_most_once() {
    let mut g = Gate::new();
    assert!(g.step(GateEvent::AcquireOk));
    assert!(!g.step(GateEvent::AcquireOk));
    assert!(!g.step(GateEvent::AcquireBusy));
}

#[test]
fn cli_output_wraps_an_outcome() {
    let out = CliOutput::Cli(resolve_list());
    let CliOutput::Cli(inner) = out;
    assert!(matches!(inner, OutputType::Exit));
}

#[test]
fn cli_error_message() {
    assert_eq!(CliError.message(), "There was an error while executing the CLI");
}
