//! The default output type for a trellis calculation, and the error
//! envelope handed to the caller when a run stops for anything but
//! convergence.

use vstd::prelude::*;

use crate::state::{State, UserState};
use crate::status::Cause;

verus! {

/// The output of a calculation.
///
/// The calculation output is user defined in the finalise step of the
/// [`crate::Calculation`] trait; beside it the caller receives the entire
/// final state object, for granular information about the run.
pub struct Output<R, S> where S: UserState {
    /// The result the calculation's finalisation produced.
    pub result: R,
    /// Solver state after the last iteration.
    pub state: State<S>,
}

impl<R, S> Output<R, S> where S: UserState {
    /// Pair a finalised result with the state it was produced from.
    pub(crate) fn new(result: R, state: State<S>) -> (r: Self)
        ensures
            r.result == result,
            r.state == state,
    {
        Output { result, state }
    }
}

/// An error wrapper for trellis calculations.
///
/// The wrapper carries the cause of the failure and, where the run still
/// completed its wrap-up (running out of iterations, or cancellation),
/// the output computed despite the termination.
#[derive(Debug)]
pub struct TrellisError<O, E> {
    /// The underlying error cause.
    pub cause: ErrorCause<E>,
    /// An optional result which can be extracted by the caller.
    pub result: Option<O>,
}

impl<O, E> From<E> for TrellisError<O, E> {
    /// A failure of a calculation phase: propagated immediately, with no
    /// partial output.
    fn from(cause: E) -> (r: Self) {
        TrellisError { cause: ErrorCause::User(cause), result: None }
    }
}

impl<O, E> vstd::std_specs::convert::FromSpecImpl<E> for TrellisError<O, E> {
    open spec fn obeys_from_spec() -> bool {
        true
    }

    open spec fn from_spec(cause: E) -> Self {
        TrellisError { cause: ErrorCause::User(cause), result: None }
    }
}

/// The reasons a run may fail.
#[derive(Debug)]
pub enum ErrorCause<E> {
    /// Error in the user defined calculation.
    User(E),
    /// Exceeded the maximum number of iterations.
    MaxIterExceeded,
    /// Calculation cancelled due to ctrl-C.
    ControlC,
    /// Calculation cancelled due to a cancelled token.
    CancellationToken,
}

/// The error reported for a termination cause: convergence is no error,
/// ctrl-C and parent cancellation surface as cancellations, and running
/// past the iteration cap surfaces as an exceeded-iterations error.
pub open spec fn spec_error_of_cause<E>(cause: Cause) -> Option<ErrorCause<E>> {
    match cause {
        Cause::Converged => None,
        Cause::ControlC => Some(ErrorCause::ControlC),
        Cause::Parent => Some(ErrorCause::CancellationToken),
        Cause::ExceededMaxIterations => Some(ErrorCause::MaxIterExceeded),
    }
}

/// Maps a termination cause to the error handed to the caller, exactly as
/// [`spec_error_of_cause`] states it.
pub fn error_of_cause<E>(cause: Cause) -> (r: Option<ErrorCause<E>>)
    ensures
        r == spec_error_of_cause::<E>(cause),
{
    match cause {
        Cause::Converged => None,
        Cause::ControlC => Some(ErrorCause::ControlC),
        Cause::Parent => Some(ErrorCause::CancellationToken),
        Cause::ExceededMaxIterations => Some(ErrorCause::MaxIterExceeded),
    }
}

} // verus!
