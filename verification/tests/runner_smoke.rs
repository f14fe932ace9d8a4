//! A whole problem wired through the builder and driven to its cap.

use trellis::prelude::{Calculation, GenerateBuilder, Problem, UserState};
use trellis::{Control, ErrorCause, ErrorEstimate, FloatBits, KillFlag};

struct DummyCalculation {}

struct DummyProblem {}

struct DummyState {
    param: Option<Vec<f64>>,
    cost: f64,
    is_initialised: bool,
    iter: usize,
}

impl UserState for DummyState {
    type Float = FloatBits;
    type Param = Vec<f64>;

    fn new() -> Self {
        Self { param: None, cost: f64::MAX, is_initialised: true, iter: 0 }
    }

    fn is_initialised(&self) -> bool {
        self.is_initialised
    }

    fn get_param(&self) -> Option<&Self::Param> {
        self.param.as_ref()
    }

    fn update(&mut self) -> ErrorEstimate<Self::Float> {
        self.iter += 1;
        ErrorEstimate(FloatBits::from_bits(self.cost.to_bits()))
    }

    fn last_was_best(&mut self) {}
}

#[derive(Debug)]
#[allow(dead_code)]
enum DummyError {
    TypeA,
}

struct DummyToken;

impl Control for DummyToken {
    type Value = ();
    type Error = ();

    fn blocking_recv_kill_signal(self) -> Result<(), ()> {
        Ok(())
    }

    fn set_handler(self, _flag: KillFlag) -> bool {
        true
    }
}

impl Calculation<DummyProblem, DummyState> for DummyCalculation {
    type Error = DummyError;
    type Output = bool;

    const NAME: &'static str = "My dumb calculation";

    fn initialise(
        &mut self,
        _problem: &mut Problem<DummyProblem>,
        state: DummyState,
    ) -> Result<DummyState, Self::Error> {
        Ok(state)
    }

    fn next(
        &mut self,
        _problem: &mut Problem<DummyProblem>,
        mut state: DummyState,
    ) -> Result<DummyState, Self::Error> {
        state.cost = (-((state.iter as f64) / 100.0)).exp();
        Ok(state)
    }

    fn finalise(
        &mut self,
        problem: &mut Problem<DummyProblem>,
        _state: DummyState,
    ) -> Result<Self::Output, Self::Error> {
        let _inner: &DummyProblem = problem.as_ref();
        Ok(true)
    }
}

#[test]
fn problems_run_successfully() {
    let calculation = DummyCalculation {};
    let problem = DummyProblem {};

    let cancellation_token = DummyToken;

    let runner = calculation
        .build_for(problem)
        .with_cancellation_token(cancellation_token)
        .control_c(false)
        .configure(|state| state.max_iters(100))
        .finalise()
        .expect("failed to build problem");

    let result = runner.run();
    // The cost never reaches the default tolerance within the cap, so the
    // run stops for exceeding its hundred iterations, output in hand.
    let error = result.err().expect("the run should stop at its cap");
    assert!(matches!(error.cause, ErrorCause::MaxIterExceeded));
    assert_eq!(error.result, Some(true));
}
