//! The contract of a user calculation: its algorithm split into three
//! phases driven by the runner.

use vstd::prelude::*;

use crate::problem::Problem;
use crate::state::UserState;

verus! {

/// Trait implemented by all problems solvable by trellis.
///
/// A calculation defines the core loop of the solver.  Typically one would
/// write a for loop, consisting of an initialisation step where the
/// calculation is arranged, a procedure carried out on each loop iteration,
/// and a finalisation step prior to return.  This trait separates these
/// methods so they can be called by the runner; the user code must not
/// itself drive termination other than through the state wrapper's
/// tolerance and iteration-cap mechanisms.
pub trait Calculation<P, S> where S: UserState {
    /// The error associated with the problem.
    type Error;

    /// The type returned to the caller from the finalisation step.
    type Output;

    /// An identifier for the calculation, handed to observers.
    const NAME: &'static str;

    /// Initialisation: prepares the state object for the main loop.
    /// Called once, and only if the wrapped state reports itself not yet
    /// initialised.
    fn initialise(&mut self, problem: &mut Problem<P>, state: S) -> Result<S, Self::Error> {
        Ok(state)
    }

    /// One iteration of the core algorithm.
    fn next(&mut self, problem: &mut Problem<P>, state: S) -> Result<S, Self::Error>;

    /// Converts the internal state to the user-facing return datatype.
    /// Called once, after termination.
    fn finalise(&mut self, problem: &mut Problem<P>, state: S) -> Result<Self::Output, Self::Error>;
}

} // verus!
