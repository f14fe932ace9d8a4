//! The generic state wrapper of a solver and the contract a user-defined
//! state must satisfy.
//!
//! [`State`] owns a user state together with the fields common to every
//! solver: iteration counters, an elapsed-time record, the running error
//! estimates, the relative tolerance, and the termination status.  Its
//! [`State::update`] method implements the convergence and termination
//! policy.

use vstd::prelude::*;

use crate::float::{
    is_infinite_bits, is_nan_bits, is_zero_bits, lt_bits, sign_positive_bits, lemma_lt_bits_asymmetric,
    lemma_lt_bits_irreflexive, lemma_matching_infinities_equal, TrellisFloat, INFINITY_BITS,
};
use crate::status::{Cause, Status};

verus! {

/// Wrapper for error estimates produced by a user state's update.
pub struct ErrorEstimate<F>(pub F);

/// An elapsed duration since the start of a run, in nanoseconds.
#[derive(Clone, Copy, Debug, PartialEq, Eq, Structural)]
pub struct Elapsed {
    /// Whole nanoseconds of the duration.
    pub nanos: u128,
}

/// The contract a user-defined state must satisfy to ride in the trellis
/// calculation loop.
///
/// The library places no contract on these methods: they are the user's
/// code, and the state wrapper is verified for every value they may
/// produce.
pub trait UserState: Sized {
    /// The measure of progress reported by `update`.
    type Float: TrellisFloat + Copy;

    /// The parameter value optionally exposed to observers.
    type Param;

    /// Create a new instance of the user-defined state object.
    fn new() -> Self;

    /// True when the state object is ready for the iteration loop.
    fn is_initialised(&self) -> bool {
        true
    }

    /// Update the state object at the end of an iteration, reporting a fresh
    /// error estimate: smaller is better, and positive infinity stands for
    /// "no progress yet".
    fn update(&mut self) -> ErrorEstimate<Self::Float>;

    /// The current parameter value, if one is assigned.
    fn get_param(&self) -> Option<&Self::Param>;

    /// Called by the wrapper when the update just observed a new best error.
    fn last_was_best(&mut self);
}

/// The mathematical model of a [`State`]: its user state, counters, status,
/// and the bit patterns of its measure fields.
pub struct StateView<S> {
    /// The user state, absent while a calculation phase holds it.
    pub specific: Option<S>,
    /// The current iteration number.
    pub iter: usize,
    /// The iteration at which the best error last improved.
    pub last_best_iter: usize,
    /// The iteration cap.
    pub max_iter: usize,
    /// The elapsed time recorded most recently, if timing is enabled.
    pub time: Option<Elapsed>,
    /// The termination status.
    pub status: Status,
    /// The error estimate of the most recent update.
    pub error: u64,
    /// The error estimate of the update before that.
    pub prev_error: u64,
    /// The best error estimate observed so far.
    pub best_error: u64,
    /// The best error estimate before the current best was observed.
    pub prev_best_error: u64,
    /// The relative tolerance against which convergence is judged.
    pub tolerance: u64,
}

/// The condition under which a fresh estimate `e` counts as a new best
/// against the current `best`: strictly below it, or both infinite with
/// matching sign.  The second clause makes the very first update, where both
/// sides are positive infinity, count as a best event.
pub open spec fn is_best(e: u64, best: u64) -> bool {
    lt_bits(e, best) || (is_infinite_bits(e) && is_infinite_bits(best) && (sign_positive_bits(e)
        == sign_positive_bits(best)))
}

/// The termination status after an update that observed the estimate `e`:
/// a terminated status is never changed; otherwise convergence is checked
/// first, then the iteration cap.
pub open spec fn status_after_update<S>(pre: StateView<S>, e: u64) -> Status {
    if !(pre.status is NotTerminated) {
        pre.status
    } else if lt_bits(e, pre.tolerance) {
        Status::Terminated(Cause::Converged)
    } else if pre.iter > pre.max_iter {
        Status::Terminated(Cause::ExceededMaxIterations)
    } else {
        Status::NotTerminated
    }
}

/// The best error never increases across an update: whatever estimate `e`
/// an update observes, the new best error is either strictly below the old
/// one or equal to it, and never above it.
pub proof fn lemma_best_error_non_increasing(e: u64, best: u64)
    ensures
        is_best(e, best) ==> lt_bits(e, best) || e == best,
        !lt_bits(best, if is_best(e, best) { e } else { best }),
{
    lemma_lt_bits_irreflexive(best);
    if is_best(e, best) {
        if !lt_bits(e, best) {
            lemma_matching_infinities_equal(e, best);
        }
        lemma_lt_bits_asymmetric(e, best);
    }
}

/// Termination is idempotent under updates: once the status carries a
/// cause, no later update changes that cause.
pub proof fn lemma_update_keeps_termination_cause<S>(pre: StateView<S>, e: u64)
    ensures
        pre.status matches Status::Terminated(c) ==> status_after_update(pre, e) == pre.status,
{
}

/// Convergence detection: an update of a live run whose estimate lies
/// strictly below the tolerance terminates the run with the converged
/// cause, whatever the iteration count.
pub proof fn lemma_update_converges<S>(pre: StateView<S>, e: u64)
    ensures
        pre.status is NotTerminated && lt_bits(e, pre.tolerance) ==> status_after_update(pre, e)
            == Status::Terminated(Cause::Converged),
{
}

/// Cap detection: an update of a live run that neither converges nor
/// observes an iteration count within the cap terminates the run for
/// exceeding its iterations.
pub proof fn lemma_update_exceeds_cap<S>(pre: StateView<S>, e: u64)
    ensures
        pre.status is NotTerminated && !lt_bits(e, pre.tolerance) && pre.iter > pre.max_iter
            ==> status_after_update(pre, e) == Status::Terminated(Cause::ExceededMaxIterations),
{
}

/// The state of the trellis solver.
///
/// This contains generic fields common to all solvers, as well as a
/// user-defined state `S` which contains application-specific fields.
pub struct State<S: UserState> {
    /// The specific component of the state implements the application
    /// specific code.
    specific: Option<S>,
    /// The current iteration number.
    iter: usize,
    /// The last iteration number where the smallest error estimate was
    /// found.
    last_best_iter: usize,
    /// The maximum number of permitted iterations.
    max_iter: usize,
    /// The time since the solver was instantiated.
    time: Option<Elapsed>,
    /// The termination status of the solver.
    termination_status: Status,
    /// The current estimate of the error, that observed in the previous
    /// iteration.
    error: S::Float,
    /// The estimate of the error observed in the one before last iteration.
    prev_error: S::Float,
    /// The best value of the error observed during the entire calculation.
    best_error: S::Float,
    /// The second best value of the error observed during the entire
    /// calculation.
    prev_best_error: S::Float,
    /// The target relative tolerance.
    relative_tolerance: S::Float,
}

impl<S: UserState> View for State<S> {
    type V = StateView<S>;

    closed spec fn view(&self) -> StateView<S> {
        StateView {
            specific: self.specific,
            iter: self.iter,
            last_best_iter: self.last_best_iter,
            max_iter: self.max_iter,
            time: self.time,
            status: self.termination_status,
            error: self.error@,
            prev_error: self.prev_error@,
            best_error: self.best_error@,
            prev_best_error: self.prev_best_error@,
            tolerance: self.relative_tolerance@,
        }
    }
}

impl<S: UserState> State<S> {
    /// The basic well-formedness of a state: the best iteration never lies
    /// ahead of the current one.
    pub open spec fn wf(&self) -> bool {
        self@.last_best_iter <= self@.iter
    }

    /// Create a new instance of the iteration state: iteration zero, no cap,
    /// every error estimate at positive infinity, and the tolerance at the
    /// measure's epsilon.
    pub fn new() -> (r: Self)
        ensures
            r.wf(),
            r@.specific is Some,
            r@.iter == 0,
            r@.last_best_iter == 0,
            r@.max_iter == usize::MAX,
            r@.time is None,
            r@.status == Status::NotTerminated,
            r@.error == INFINITY_BITS,
            r@.prev_error == INFINITY_BITS,
            r@.best_error == INFINITY_BITS,
            r@.prev_best_error == INFINITY_BITS,
            !is_nan_bits(r@.tolerance),
            !is_infinite_bits(r@.tolerance),
            !is_zero_bits(r@.tolerance),
            sign_positive_bits(r@.tolerance),
    {
        State {
            specific: Some(S::new()),
            iter: 0,
            last_best_iter: 0,
            max_iter: usize::MAX,
            termination_status: Status::NotTerminated,
            time: None,
            relative_tolerance: <S::Float as TrellisFloat>::epsilon(),
            error: <S::Float as TrellisFloat>::infinity(),
            prev_error: <S::Float as TrellisFloat>::infinity(),
            best_error: <S::Float as TrellisFloat>::infinity(),
            prev_best_error: <S::Float as TrellisFloat>::infinity(),
        }
    }

    /// Record the time since the solver began.
    pub fn record_time(&mut self, duration: Elapsed)
        ensures
            final(self)@ == (StateView { time: Some(duration), ..old(self)@ }),
    {
        self.time = Some(duration);
    }

    /// The elapsed time recorded most recently, if timing is enabled.
    pub fn duration(&self) -> (r: Option<Elapsed>)
        ensures
            r == self@.time,
    {
        self.time
    }

    /// Increment the iteration count, saturating at the largest
    /// representable count.
    pub(crate) fn increment_iteration(&mut self)
        ensures
            final(self)@ == (StateView {
                iter: if old(self)@.iter < usize::MAX {
                    (old(self)@.iter + 1) as usize
                } else {
                    usize::MAX
                },
                ..old(self)@
            }),
    {
        if self.iter < usize::MAX {
            self.iter = self.iter + 1;
        }
    }

    /// The current iteration number.
    pub fn current_iteration(&self) -> (r: usize)
        ensures
            r == self@.iter,
    {
        self.iter
    }

    /// The iteration at which the best error last improved.
    pub fn last_best_iteration(&self) -> (r: usize)
        ensures
            r == self@.last_best_iter,
    {
        self.last_best_iter
    }

    /// The number of iterations since the best result was observed.
    pub fn iterations_since_best(&self) -> (r: usize)
        requires
            self.wf(),
        ensures
            r == self@.iter - self@.last_best_iter,
    {
        self.iter - self.last_best_iter
    }

    /// True when the state is ready for the iteration loop: a user state is
    /// attached and reports itself initialised.
    pub fn is_initialised(&self) -> (r: bool)
        ensures
            self@.specific is None ==> r == false,
    {
        match &self.specific {
            Some(specific) => specific.is_initialised(),
            None => false,
        }
    }

    /// True when the termination status carries a cause.
    pub fn is_terminated(&self) -> (r: bool)
        ensures
            r == !(self@.status is NotTerminated),
    {
        !(matches!(self.termination_status, Status::NotTerminated))
    }

    /// Terminate the solver for the given cause.
    pub fn terminate_due_to(self, reason: Cause) -> (r: Self)
        ensures
            r@ == (StateView { status: Status::Terminated(reason), ..self@ }),
    {
        let mut s = self;
        s.termination_status = Status::Terminated(reason);
        s
    }

    /// The cause of termination, or none while the solver still runs.
    pub fn termination_cause(&self) -> (r: Option<Cause>)
        ensures
            match self@.status {
                Status::Terminated(c) => r == Some(c),
                Status::NotTerminated => r is None,
            },
    {
        match self.termination_status {
            Status::NotTerminated => None,
            Status::Terminated(cause) => Some(cause),
        }
    }

    /// Update the state at the end of an iteration.
    ///
    /// The user state reports a fresh error estimate, which becomes the
    /// current error while the old one is remembered.  If the estimate is a
    /// new best, the best-tracking fields advance and the user state is
    /// told.  Convergence against the tolerance is checked first, then the
    /// iteration cap; a status that already carries a cause is left alone.
    #[must_use]
    pub fn update(self) -> (r: Self)
        requires
            self@.specific is Some,
            self.wf(),
        ensures
            r.wf(),
            r@.specific is Some,
            r@.iter == self@.iter,
            r@.max_iter == self@.max_iter,
            r@.time == self@.time,
            r@.tolerance == self@.tolerance,
            r@.prev_error == self@.error,
            is_best(r@.error, self@.best_error) ==> r@.best_error == r@.error
                && r@.prev_best_error == self@.best_error && r@.last_best_iter == self@.iter,
            !is_best(r@.error, self@.best_error) ==> r@.best_error == self@.best_error
                && r@.prev_best_error == self@.prev_best_error && r@.last_best_iter == self@.last_best_iter,
            lt_bits(r@.best_error, self@.best_error) || r@.best_error == self@.best_error,
            !lt_bits(self@.best_error, r@.best_error),
            r@.status == status_after_update(self@, r@.error),
    {
        let mut s = self;
        let mut specific = s.take_specific();
        let error_estimate = specific.update();
        s.prev_error = s.error;
        s.error = error_estimate.0;
        proof {
            lemma_best_error_non_increasing(s.error@, s.best_error@);
        }
        if s.error.lt(&s.best_error) || (s.error.is_infinite() && s.best_error.is_infinite() && (
        s.error.is_sign_positive() == s.best_error.is_sign_positive())) {
            s.prev_best_error = s.best_error;
            s.best_error = s.error;
            s.last_best_iter = s.iter;

            specific.last_was_best();
        }
        s.specific = Some(specific);

        if s.is_terminated() {
            return s;
        }
        if s.error.lt(&s.relative_tolerance) {
            return s.terminate_due_to(Cause::Converged);
        }
        if s.current_iteration() > s.max_iter {
            return s.terminate_due_to(Cause::ExceededMaxIterations);
        }

        s
    }

    /// The parameter vector from the inner state variable, if any.
    pub fn get_param(&self) -> (r: Option<&S::Param>)
        ensures
            self@.specific is None ==> r is None,
    {
        match &self.specific {
            Some(specific) => specific.get_param(),
            None => None,
        }
    }

    /// The current measure of progress.
    pub fn measure(&self) -> (r: S::Float)
        ensures
            r@ == self@.error,
    {
        self.error
    }

    /// The best measure of progress observed so far.
    pub fn best_measure(&self) -> (r: S::Float)
        ensures
            r@ == self@.best_error,
    {
        self.best_error
    }

    /// Removes the specific state from the state and returns it.
    pub fn take_specific(&mut self) -> (r: S)
        requires
            old(self)@.specific is Some,
        ensures
            final(self)@ == (StateView { specific: None, ..old(self)@ }),
            old(self)@.specific == Some(r),
    {
        match self.specific.take() {
            Some(specific) => specific,
            None => vstd::pervasive::unreached(),
        }
    }

    /// Set the relative tolerance target.
    #[must_use]
    pub fn relative_tolerance(self, relative_tolerance: S::Float) -> (r: Self)
        ensures
            r@ == (StateView { tolerance: relative_tolerance@, ..self@ }),
    {
        let mut s = self;
        s.relative_tolerance = relative_tolerance;
        s
    }

    /// Set the maximum allowable iteration count.
    #[must_use]
    pub fn max_iters(self, max_iter: usize) -> (r: Self)
        ensures
            r@ == (StateView { max_iter: max_iter, ..self@ }),
    {
        let mut s = self;
        s.max_iter = max_iter;
        s
    }

    /// Set the internal state object.
    #[must_use]
    pub fn set_specific(self, specific: S) -> (r: Self)
        ensures
            r@ == (StateView { specific: Some(specific), ..self@ }),
    {
        let mut s = self;
        s.specific = Some(specific);
        s
    }
}

} // verus!
