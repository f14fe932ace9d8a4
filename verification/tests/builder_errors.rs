//! The failures a builder surfaces while wiring a runner.

use trellis::{
    BuilderError, Calculation, Control, ErrorEstimate, FloatBits, GenerateBuilder, KillFlag,
    Problem, UserState,
};

struct IdleState;

impl UserState for IdleState {
    type Float = FloatBits;
    type Param = Vec<f64>;

    fn new() -> Self {
        IdleState
    }

    fn update(&mut self) -> ErrorEstimate<FloatBits> {
        ErrorEstimate(FloatBits::from_bits(0.0f64.to_bits()))
    }

    fn get_param(&self) -> Option<&Vec<f64>> {
        None
    }

    fn last_was_best(&mut self) {}
}

struct IdleCalc;

impl Calculation<(), IdleState> for IdleCalc {
    type Error = ();
    type Output = ();

    const NAME: &'static str = "idle calculation";

    fn next(&mut self, _problem: &mut Problem<()>, state: IdleState) -> Result<IdleState, ()> {
        Ok(state)
    }

    fn finalise(&mut self, _problem: &mut Problem<()>, _state: IdleState) -> Result<(), ()> {
        Ok(())
    }
}

struct BrokenControl;

impl Control for BrokenControl {
    type Value = ();
    type Error = ();

    fn blocking_recv_kill_signal(self) -> Result<(), ()> {
        Ok(())
    }

    fn set_handler(self, _flag: KillFlag) -> bool {
        false
    }
}

#[test]
fn failed_kill_signal_handler_surfaces_as_builder_error() {
    let result = IdleCalc
        .build_for(())
        .control_c(false)
        .with_cancellation_token(BrokenControl)
        .finalise();
    match result {
        Err(BuilderError::KillSignalHandler) => {}
        _ => panic!("expected the kill-signal handler failure"),
    }
}

#[test]
fn repeated_ctrl_c_installation_surfaces_as_builder_error() {
    // The ctrl-C hook is process-wide: the first runner installs it, a
    // second installation is refused.
    let first = IdleCalc.build_for(()).finalise();
    assert!(first.is_ok());
    let second = IdleCalc.build_for(()).finalise();
    match second {
        Err(BuilderError::CtrlCHandler) => {}
        _ => panic!("expected the ctrl-c handler failure"),
    }
}
