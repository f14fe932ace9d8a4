//! The termination status of a solver, and the reasons why a solver may
//! have terminated.

use vstd::prelude::*;

verus! {

/// The status of the solver.
#[derive(Clone, Copy, Debug, PartialEq, Eq, Structural)]
pub enum Status {
    /// The solver has not terminated.
    NotTerminated,
    /// The solver has terminated for [`Cause`].
    Terminated(Cause),
}

impl Default for Status {
    /// A fresh solver has not terminated.
    fn default() -> (r: Self)
        ensures
            r == Status::NotTerminated,
    {
        Status::NotTerminated
    }
}

/// Causes for termination of a solver.
#[derive(Clone, Copy, Debug, PartialEq, Eq, Structural)]
pub enum Cause {
    /// The caller has manually terminated the process with ctrl-C.
    ControlC,
    /// A parent thread has terminated the process through a cancellation
    /// token.
    Parent,
    /// The solver has converged to the requested tolerance.
    Converged,
    /// The solver has exceeded the maximum allowable iterations.
    ExceededMaxIterations,
}

} // verus!
