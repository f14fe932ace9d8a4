//! Observer dispatch gating, killswitch tie-breaking, and the cause
//! mappings.

use trellis::{
    error_of_cause, first_fired_cause, should_fire, Cause, ErrorCause, Frequency, Holder,
    KillFlag, Killswitch, Stage, Status,
};

#[test]
fn gating_at_iteration_stage() {
    for iter in 0usize..10 {
        assert!(should_fire(Frequency::Always, Stage::Iteration, iter));
        assert!(!should_fire(Frequency::Never, Stage::Iteration, iter));
        assert!(!should_fire(Frequency::OnExit, Stage::Iteration, iter));
        assert_eq!(should_fire(Frequency::Every(3), Stage::Iteration, iter), iter % 3 == 0);
    }
    assert!(should_fire(Frequency::Every(1), Stage::Iteration, 7));
    assert!(!should_fire(Frequency::Every(0), Stage::Iteration, 7));
}

#[test]
fn gating_at_initialisation_stage() {
    assert!(should_fire(Frequency::Always, Stage::Initialisation, 0));
    assert!(should_fire(Frequency::Every(5), Stage::Initialisation, 0));
    assert!(!should_fire(Frequency::OnExit, Stage::Initialisation, 0));
    assert!(!should_fire(Frequency::Never, Stage::Initialisation, 0));
}

#[test]
fn gating_at_wrap_up_stage() {
    assert!(should_fire(Frequency::Always, Stage::WrapUp, 4));
    assert!(should_fire(Frequency::OnExit, Stage::WrapUp, 4));
    assert!(!should_fire(Frequency::Every(2), Stage::WrapUp, 4));
    assert!(!should_fire(Frequency::Never, Stage::WrapUp, 4));
}

#[test]
fn kill_flag_starts_lowered_and_stays_raised() {
    let flag = KillFlag::new();
    assert!(!flag.is_set());
    flag.set();
    assert!(flag.is_set());
    flag.set();
    assert!(flag.is_set());
    // Clones share the flag.
    let other = flag.clone();
    assert!(other.is_set());
}

#[test]
fn killswitch_reports_holder_and_flag() {
    let flag = KillFlag::new();
    let switch = Killswitch::new(Holder::Parent, flag.clone());
    assert!(matches!(switch.held_by(), Holder::Parent));
    assert!(!switch.is_dead());
    flag.set();
    assert!(switch.is_dead());
}

#[test]
fn first_fired_tie_break_prefers_attachment_order() {
    let switches = vec![
        Killswitch::new(Holder::CtrlC, KillFlag::new()),
        Killswitch::new(Holder::Parent, KillFlag::new()),
    ];
    // Both fired at the first poll: the first attached wins.
    assert_eq!(first_fired_cause(&switches, &vec![true, true]), Some(Cause::ControlC));
    // Only the second fired.
    assert_eq!(first_fired_cause(&switches, &vec![false, true]), Some(Cause::Parent));
    // None fired.
    assert_eq!(first_fired_cause(&switches, &vec![false, false]), None);
}

#[test]
fn holder_maps_to_cause() {
    assert_eq!(Cause::from(Holder::CtrlC), Cause::ControlC);
    assert_eq!(Cause::from(Holder::Parent), Cause::Parent);
}

#[test]
fn termination_cause_maps_to_error() {
    assert!(error_of_cause::<()>(Cause::Converged).is_none());
    assert!(matches!(error_of_cause::<()>(Cause::ControlC), Some(ErrorCause::ControlC)));
    assert!(matches!(
        error_of_cause::<()>(Cause::Parent),
        Some(ErrorCause::CancellationToken)
    ));
    assert!(matches!(
        error_of_cause::<()>(Cause::ExceededMaxIterations),
        Some(ErrorCause::MaxIterExceeded)
    ));
}

#[test]
fn defaults_of_status_and_frequency() {
    assert_eq!(Status::default(), Status::NotTerminated);
    assert_eq!(Frequency::default(), Frequency::Never);
}
