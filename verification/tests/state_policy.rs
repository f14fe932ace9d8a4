//! The state wrapper's convergence and termination policy, driven by a
//! scripted user state.

use trellis::{Cause, ErrorEstimate, FloatBits, State, TrellisFloat, UserState};

struct ScriptState {
    next_bits: u64,
    best_calls: usize,
}

impl UserState for ScriptState {
    type Float = FloatBits;
    type Param = Vec<f64>;

    fn new() -> Self {
        ScriptState { next_bits: f64::INFINITY.to_bits(), best_calls: 0 }
    }

    fn update(&mut self) -> ErrorEstimate<FloatBits> {
        ErrorEstimate(FloatBits::from_bits(self.next_bits))
    }

    fn get_param(&self) -> Option<&Vec<f64>> {
        None
    }

    fn last_was_best(&mut self) {
        self.best_calls += 1;
    }
}

fn with_next(mut state: State<ScriptState>, x: f64) -> State<ScriptState> {
    let mut user = state.take_specific();
    user.next_bits = x.to_bits();
    state.set_specific(user)
}

fn best_calls(state: State<ScriptState>) -> usize {
    let mut state = state;
    state.take_specific().best_calls
}

#[test]
fn fresh_state_defaults() {
    let state: State<ScriptState> = State::new();
    assert_eq!(state.current_iteration(), 0);
    assert_eq!(state.iterations_since_best(), 0);
    assert!(!state.is_terminated());
    assert!(state.termination_cause().is_none());
    assert!(state.duration().is_none());
    assert_eq!(state.measure().bits(), f64::INFINITY.to_bits());
    assert_eq!(state.best_measure().bits(), f64::INFINITY.to_bits());
    assert!(state.is_initialised());
}

#[test]
fn first_update_counts_as_best_event() {
    // Both the fresh estimate and the initial best are positive infinity:
    // the matching-infinities clause makes this a best event.
    let state: State<ScriptState> = State::new();
    let state = state.update();
    assert_eq!(state.measure().bits(), f64::INFINITY.to_bits());
    assert_eq!(state.best_measure().bits(), f64::INFINITY.to_bits());
    assert!(!state.is_terminated());
    assert_eq!(best_calls(state), 1);
}

#[test]
fn update_tracks_best_and_previous_errors() {
    let state: State<ScriptState> = State::new().relative_tolerance(FloatBits::from_bits(0.0f64.to_bits()));
    let state = with_next(state, 4.0).update();
    assert_eq!(state.measure().bits(), 4.0f64.to_bits());
    assert_eq!(state.best_measure().bits(), 4.0f64.to_bits());

    // A worse estimate replaces the current error but not the best one.
    let state = with_next(state, 9.0).update();
    assert_eq!(state.measure().bits(), 9.0f64.to_bits());
    assert_eq!(state.best_measure().bits(), 4.0f64.to_bits());

    // A better estimate replaces both.
    let state = with_next(state, 1.0).update();
    assert_eq!(state.measure().bits(), 1.0f64.to_bits());
    assert_eq!(state.best_measure().bits(), 1.0f64.to_bits());

    // Best events: 4.0 and 1.0, but not 9.0.
    assert_eq!(best_calls(state), 2);
}

#[test]
fn equal_estimate_is_no_best_event() {
    let state: State<ScriptState> = State::new().relative_tolerance(FloatBits::from_bits(0.0f64.to_bits()));
    let state = with_next(state, 2.0).update();
    let state = with_next(state, 2.0).update();
    assert_eq!(state.best_measure().bits(), 2.0f64.to_bits());
    assert_eq!(best_calls(state), 1);
}

#[test]
fn update_converges_below_tolerance() {
    let state: State<ScriptState> = State::new().relative_tolerance(FloatBits::from_bits(1.0e-3f64.to_bits()));
    let state = with_next(state, 0.5).update();
    assert!(!state.is_terminated());
    let state = with_next(state, 0.5e-3).update();
    assert!(state.is_terminated());
    assert_eq!(state.termination_cause(), Some(Cause::Converged));
}

#[test]
fn update_at_cap_boundary_does_not_terminate() {
    // The cap check is strict: an update at an iteration count equal to
    // the cap leaves the run alive.  Exceeding the cap is driven by the
    // runner and exercised in its scenarios.
    let state: State<ScriptState> = State::new().max_iters(0).relative_tolerance(FloatBits::from_bits(0.0f64.to_bits()));
    let state = with_next(state, 1.0).update();
    assert!(!state.is_terminated());
}

#[test]
fn terminated_update_keeps_its_cause() {
    // Converge once, then keep updating: the cause must not change even
    // though later estimates are below the tolerance again.
    let state: State<ScriptState> = State::new().relative_tolerance(FloatBits::from_bits(1.0f64.to_bits()));
    let state = with_next(state, 0.25).update();
    assert_eq!(state.termination_cause(), Some(Cause::Converged));
    let state = with_next(state, 0.125).update();
    assert_eq!(state.termination_cause(), Some(Cause::Converged));

    // The same holds for a cancellation cause.
    let state = state.terminate_due_to(Cause::ControlC);
    let state = with_next(state, 0.0625).update();
    assert_eq!(state.termination_cause(), Some(Cause::ControlC));
}

#[test]
fn nan_estimate_never_improves_or_converges() {
    let state: State<ScriptState> = State::new().relative_tolerance(FloatBits::from_bits(1.0f64.to_bits()));
    let state = with_next(state, 2.0).update();
    let state = with_next(state, f64::NAN).update();
    assert_eq!(state.best_measure().bits(), 2.0f64.to_bits());
    assert!(!state.is_terminated());
}
