//! The general purpose calculation runner: the three-phase loop that
//! drives a calculation to termination.

use web_time::Instant;

use vstd::prelude::*;
use vstd::pervasive::unreached;

use crate::builder::BuilderError;
use crate::calculation::Calculation;
use crate::controller::Control;
use crate::killswitch::{first_fired_cause, holders_of, Holder, KillFlag, Killswitch};
use crate::problem::Problem;
use crate::result::{error_of_cause, ErrorCause, Output, TrellisError};
use crate::float::lt_bits;
use crate::state::{is_best, status_after_update, Elapsed, State, StateView, UserState};
use crate::status::{Cause, Status};
use crate::watchers::{Frequency, Observable, ObserverSlice, ObserverVec, Stage};

verus! {

/// Declares `web_time::Instant`, an opaque reading of the monotonic
/// clock, so it can be held and passed by reference.
#[verifier::external_type_specification]
#[verifier::external_body]
pub struct ExInstant(Instant);

/// A reading of the monotonic clock.
///
/// Relies on `web_time::Instant::now`; nothing is promised of a clock
/// reading.
#[verifier::external_body]
fn instant_now() -> Instant {
    Instant::now()
}

/// The nanoseconds of monotonic time passed since the given reading.
///
/// Relies on `web_time::Instant::elapsed`; nothing is promised of a clock
/// reading.
#[verifier::external_body]
fn elapsed_nanos(since: &Instant) -> u128 {
    since.elapsed().as_nanos()
}

/// General purpose calculation runner.
#[verifier::reject_recursive_types(S)]
pub struct Runner<C, P, S, T> where C: Calculation<P, S>, S: UserState {
    /// Calculation to be run.
    pub(crate) calculation: C,
    /// The problem to solve.
    pub(crate) problem: Problem<P>,
    /// Current state of the run.
    pub(crate) state: Option<State<S>>,
    /// Should execution be timed.
    pub(crate) time: bool,
    /// Should a process-wide ctrl-C handler terminate the calculation.
    pub(crate) control_c: bool,
    /// When a signal is received from this controller the calculation is
    /// terminated.
    pub(crate) cancellation_token: Option<T>,
    /// Signals to terminate the calculation.
    pub(crate) signals: Vec<Killswitch>,
    /// The sinks observing the run.
    pub(crate) observers: ObserverVec<State<S>>,
}

impl<C, P, S, T> Runner<C, P, S, T> where C: Calculation<P, S>, S: UserState {
    /// A runner is well formed while it holds a well-formed state with its
    /// user state attached, and its iteration count is within the cap
    /// whenever the run has not terminated.
    pub closed spec fn wf(&self) -> bool {
        &&& self.state matches Some(s)
        &&& self.state->Some_0.wf()
        &&& self.state->Some_0@.specific is Some
        &&& self.state->Some_0@.iter <= self.state->Some_0@.max_iter + 1
        &&& self.state->Some_0@.status is NotTerminated ==> self.state->Some_0@.iter
            <= self.state->Some_0@.max_iter
    }

    /// Wire a runner from the pieces a builder assembled.
    pub(crate) fn assemble(
        calculation: C,
        problem: Problem<P>,
        state: State<S>,
        time: bool,
        control_c: bool,
        cancellation_token: Option<T>,
        observers: ObserverVec<State<S>>,
    ) -> (r: Self)
        requires
            state.wf(),
            state@.specific is Some,
            state@.iter <= state@.max_iter + 1,
            state@.status is NotTerminated ==> state@.iter <= state@.max_iter,
        ensures
            r.wf(),
            r.spec_has_token() == (cancellation_token is Some),
            r.spec_state() == Some(state),
            r.spec_time() == time,
            r.spec_control_c() == control_c,
            r.spec_calculation() == calculation,
            r.spec_problem() == problem,
            r.spec_frequencies() == observers.spec_frequencies(),
            r.spec_holders() == Seq::<Holder>::empty(),
    {
        proof {
            assert(holders_of(Seq::<Killswitch>::empty()) =~= Seq::<Holder>::empty());
        }
        Runner {
            calculation,
            problem,
            state: Some(state),
            time,
            control_c,
            cancellation_token,
            signals: Vec::new(),
            observers,
        }
    }

    /// Whether a cancellation token is still attached, for specifications.
    pub closed spec fn spec_has_token(&self) -> bool {
        self.cancellation_token is Some
    }

    /// The held state, for specifications.
    pub closed spec fn spec_state(&self) -> Option<State<S>> {
        self.state
    }

    /// Whether execution is timed, for specifications.
    pub closed spec fn spec_time(&self) -> bool {
        self.time
    }

    /// The firing frequencies of the attached observers, in attachment
    /// order, for specifications.
    pub closed spec fn spec_frequencies(&self) -> Seq<Frequency> {
        self.observers.spec_frequencies()
    }

    /// Whether the process-wide ctrl-C handler is enabled, for
    /// specifications.
    pub closed spec fn spec_control_c(&self) -> bool {
        self.control_c
    }

    /// The held calculation, for specifications.
    pub closed spec fn spec_calculation(&self) -> C {
        self.calculation
    }

    /// The held problem, for specifications.
    pub closed spec fn spec_problem(&self) -> Problem<P> {
        self.problem
    }

    /// The holders of the wired killswitches, in attachment order, for
    /// specifications.
    pub closed spec fn spec_holders(&self) -> Seq<Holder> {
        holders_of(self.signals@)
    }

    /// The current reading of the monotonic clock, when timing is enabled.
    fn now(&self) -> (r: Option<Instant>)
        ensures
            r is Some <==> self.time,
    {
        if self.time {
            Some(instant_now())
        } else {
            None
        }
    }

    /// The attached observers, in attachment order.
    pub fn observers(&self) -> (r: ObserverSlice<'_, State<S>>)
        ensures
            r.spec_len() == self.spec_frequencies().len(),
    {
        self.observers.as_slice()
    }

    /// One round of killswitch polling: the observed flag value of each
    /// attached killswitch, in attachment order.
    fn poll_signals(&self) -> (fired: Vec<bool>)
        ensures
            fired@.len() == self.signals@.len(),
    {
        let mut fired: Vec<bool> = Vec::new();
        let mut idx: usize = 0;
        while idx < self.signals.len()
            invariant
                0 <= idx <= self.signals@.len(),
                fired@.len() == idx,
            decreases self.signals@.len() - idx,
        {
            fired.push(self.signals[idx].is_dead());
            idx = idx + 1;
        }
        fired
    }

    /// The cause to terminate for, if any killswitch has fired: the first
    /// fired killswitch in attachment order wins the tie-break.
    fn kill_cause(&self) -> Option<Cause> {
        let fired = self.poll_signals();
        first_fired_cause(&self.signals, &fired)
    }
}

impl<C, P, S, R> Runner<C, P, S, R> where C: Calculation<P, S>, S: UserState {
    /// The initialisation phase: hand the user state to the calculation's
    /// initialise step, apply the wrapper update, and notify observers.
    /// The result relates to the handed-in state exactly as one wrapper
    /// update does, with `s@.error` the estimate the user state reported.
    fn initialise(&mut self, state: State<S>) -> (r: Result<State<S>, C::Error>)
        requires
            state.wf(),
            state@.specific is Some,
        ensures
            r matches Ok(s) ==> s.wf() && s@.specific is Some && s@.iter == state@.iter
                && s@.max_iter == state@.max_iter && s@.tolerance == state@.tolerance && s@.time
                == state@.time && s@.prev_error == state@.error && (is_best(
                s@.error,
                state@.best_error,
            ) ==> s@.best_error == s@.error && s@.prev_best_error == state@.best_error
                && s@.last_best_iter == state@.iter) && (!is_best(s@.error, state@.best_error)
                ==> s@.best_error == state@.best_error && s@.prev_best_error
                == state@.prev_best_error && s@.last_best_iter == state@.last_best_iter) && (
            lt_bits(s@.best_error, state@.best_error) || s@.best_error == state@.best_error)
                && s@.status == status_after_update(state@, s@.error) && (
            s@.status is NotTerminated ==> s@.iter <= s@.max_iter),
    {
        let mut st = state;
        let specific = st.take_specific();
        let specific = match self.calculation.initialise(&mut self.problem, specific) {
            Ok(specific) => specific,
            Err(e) => {
                return Err(e);
            },
        };

        let st = st.set_specific(specific).update();

        self.observers.update(C::NAME, &st, Stage::Initialisation, st.current_iteration());

        Ok(st)
    }

    /// The iteration count after one advance, saturating at the largest
    /// representable count.
    pub open spec fn stepped_iter(iter: usize) -> usize {
        if iter < usize::MAX {
            (iter + 1) as usize
        } else {
            usize::MAX
        }
    }

    /// One iteration: hand the user state to the calculation's next step,
    /// record the elapsed time, advance the iteration count, apply the
    /// wrapper update, and notify observers.  Never entered on a
    /// terminated state.  The result relates to the handed-in state
    /// exactly as an iteration advance followed by one wrapper update,
    /// with `s@.error` the estimate the user state reported.
    fn once(&mut self, state: State<S>, maybe_start_time: Option<&Instant>) -> (r: Result<
        State<S>,
        C::Error,
    >)
        requires
            state.wf(),
            state@.specific is Some,
            state@.status is NotTerminated,
            state@.iter <= state@.max_iter,
        ensures
            r matches Ok(s) ==> s.wf() && s@.specific is Some && s@.max_iter == state@.max_iter
                && s@.tolerance == state@.tolerance && s@.iter == Self::stepped_iter(state@.iter)
                && (maybe_start_time is None ==> s@.time == state@.time) && s@.prev_error
                == state@.error && (is_best(s@.error, state@.best_error) ==> s@.best_error
                == s@.error && s@.prev_best_error == state@.best_error && s@.last_best_iter
                == Self::stepped_iter(state@.iter)) && (!is_best(s@.error, state@.best_error)
                ==> s@.best_error == state@.best_error && s@.prev_best_error
                == state@.prev_best_error && s@.last_best_iter == state@.last_best_iter) && (
            lt_bits(s@.best_error, state@.best_error) || s@.best_error == state@.best_error)
                && s@.status == status_after_update(
                (StateView { iter: Self::stepped_iter(state@.iter), ..state@ }),
                s@.error,
            ) && (s@.status is NotTerminated ==> s@.iter <= s@.max_iter),
    {
        let mut st = state;
        let specific = st.take_specific();
        let specific = match self.calculation.next(&mut self.problem, specific) {
            Ok(specific) => specific,
            Err(e) => {
                return Err(e);
            },
        };
        st = st.set_specific(specific);

        if let Some(start_time) = maybe_start_time {
            let nanos = elapsed_nanos(start_time);
            st.record_time(Elapsed { nanos });
        }
        st.increment_iteration();
        let st = st.update();

        self.observers.update(C::NAME, &st, Stage::Iteration, st.current_iteration());

        Ok(st)
    }

    /// The wrap-up phase: hand the user state to the calculation's
    /// finalise step, notify observers, and pair the produced result with
    /// the final state.
    fn wrap_up(&mut self, state: State<S>) -> (r: Result<Output<C::Output, S>, C::Error>)
        requires
            state.wf(),
            state@.specific is Some,
        ensures
            r matches Ok(o) ==> o.state.wf() && o.state@.specific is None && o.state@.status
                == state@.status && o.state@.iter == state@.iter && o.state@.last_best_iter
                == state@.last_best_iter && o.state@.max_iter == state@.max_iter
                && o.state@.tolerance == state@.tolerance && o.state@.time == state@.time
                && o.state@.error == state@.error && o.state@.best_error == state@.best_error,
    {
        let mut st = state;
        let specific = st.take_specific();
        let result = match self.calculation.finalise(&mut self.problem, specific) {
            Ok(result) => result,
            Err(e) => {
                return Err(e);
            },
        };

        self.observers.update(C::NAME, &st, Stage::WrapUp, st.current_iteration());

        Ok(Output::new(result, st))
    }

    /// Execute the runner.
    ///
    /// The state is initialised if it does not yet report itself so; then
    /// iterations run until the state terminates, polling the killswitches
    /// at each loop head.  A converged run wraps up and returns its output;
    /// a run stopped by cancellation or the iteration cap wraps up and
    /// returns the error cause together with the output it still computed;
    /// a failure in a calculation phase is returned at once, with no
    /// output.
    pub fn run(self) -> (r: Result<Output<C::Output, S>, TrellisError<C::Output, C::Error>>)
        requires
            self.wf(),
        ensures
            r matches Ok(out) ==> out.state@.status == Status::Terminated(Cause::Converged)
                && out.state.wf() && out.state@.iter <= out.state@.max_iter + 1
                && out.state@.max_iter == self.spec_state()->Some_0@.max_iter
                && out.state@.tolerance == self.spec_state()->Some_0@.tolerance && (
            !self.spec_time() ==> out.state@.time == self.spec_state()->Some_0@.time) && (lt_bits(
                out.state@.best_error,
                self.spec_state()->Some_0@.best_error,
            ) || out.state@.best_error == self.spec_state()->Some_0@.best_error),
            r matches Err(e) ==> ((e.cause is User) <==> (e.result is None)),
    {
        let ghost configured = self.spec_state()->Some_0@;
        let mut runner = self;
        let start_time = runner.now();

        let mut state = match runner.state.take() {
            Some(state) => state,
            None => unreached(),
        };

        if !state.is_initialised() {
            state = match runner.initialise(state) {
                Ok(state) => state,
                Err(e) => {
                    return Err(TrellisError::from(e));
                },
            };
        }

        loop
            invariant
                state.wf(),
                state@.specific is Some,
                state@.max_iter == configured.max_iter,
                state@.tolerance == configured.tolerance,
                start_time is None ==> state@.time == configured.time,
                start_time is Some <==> self.spec_time(),
                lt_bits(state@.best_error, configured.best_error) || state@.best_error
                    == configured.best_error,
                state@.iter <= state@.max_iter + 1,
                state@.status is NotTerminated ==> state@.iter <= state@.max_iter,
            ensures
                state.wf(),
                state@.specific is Some,
                state@.max_iter == configured.max_iter,
                state@.tolerance == configured.tolerance,
                start_time is None ==> state@.time == configured.time,
                lt_bits(state@.best_error, configured.best_error) || state@.best_error
                    == configured.best_error,
                !(state@.status is NotTerminated),
                state@.iter <= state@.max_iter + 1,
            decreases usize::MAX - state@.iter,
        {
            match runner.kill_cause() {
                Some(cause) => {
                    state = state.terminate_due_to(cause);
                },
                None => {},
            }

            if state.is_terminated() {
                break;
            }
            if state.current_iteration() == usize::MAX {
                // The iteration counter is exhausted: no further iteration
                // can be counted, so the run stops at its cap.
                state = state.terminate_due_to(Cause::ExceededMaxIterations);
                break;
            }
            let ghost prev_best = state@.best_error;
            state = match runner.once(state, start_time.as_ref()) {
                Ok(state) => state,
                Err(e) => {
                    return Err(TrellisError::from(e));
                },
            };
            proof {
                crate::float::lemma_lt_bits_transitive(
                    state@.best_error,
                    prev_best,
                    configured.best_error,
                );
            }
        }

        // The loop only exits on a terminated state, so a cause is present.
        let cause: Option<ErrorCause<C::Error>> = match state.termination_cause() {
            Some(cause) => error_of_cause::<C::Error>(cause),
            None => unreached(),
        };

        let result = match runner.wrap_up(state) {
            Ok(result) => result,
            Err(e) => {
                return Err(TrellisError::from(e));
            },
        };

        match cause {
            Some(cause) => Err(TrellisError { cause, result: Some(result.result) }),
            None => Ok(result),
        }
    }
}

impl<C, P, S> Runner<C, P, S, ()> where C: Calculation<P, S>, S: UserState {
    /// Install the cancellation handlers of a runner without a token: the
    /// process-wide ctrl-C handler, when enabled.  With the handler
    /// disabled no outside call is made, so installation cannot fail.
    pub(crate) fn initialise_controllers(&mut self) -> (r: Result<(), BuilderError>)
        ensures
            old(self).wf() ==> final(self).wf(),
            final(self).spec_state() == old(self).spec_state(),
            final(self).spec_time() == old(self).spec_time(),
            final(self).spec_control_c() == old(self).spec_control_c(),
            final(self).spec_calculation() == old(self).spec_calculation(),
            final(self).spec_problem() == old(self).spec_problem(),
            final(self).spec_frequencies() == old(self).spec_frequencies(),
            r is Ok ==> final(self).spec_holders() == old(self).spec_holders() + (
            if old(self).spec_control_c() {
                seq![Holder::CtrlC]
            } else {
                Seq::<Holder>::empty()
            }),
            !old(self).spec_control_c() ==> r is Ok,
            r matches Err(e) ==> e == BuilderError::CtrlCHandler,
    {
        if self.control_c {
            let flag = KillFlag::new();
            match crate::builder::install_ctrl_c_handler(&flag) {
                Ok(()) => {},
                Err(_) => {
                    return Err(BuilderError::CtrlCHandler);
                },
            }
            let switch = Killswitch::new(Holder::CtrlC, flag);
            self.signals.push(switch);
            proof {
                assert(holders_of(self.signals@) =~= holders_of(old(self).signals@) + seq![
                    Holder::CtrlC,
                ]);
            }
        } else {
            proof {
                assert(holders_of(self.signals@) =~= holders_of(self.signals@)
                    + Seq::<Holder>::empty());
            }
        }
        Ok(())
    }
}

impl<C, P, S, R> Runner<C, P, S, R> where
    C: Calculation<P, S>,
    S: UserState,
    R: Control + 'static,
 {
    /// Install the cancellation handlers of a runner with a token: the
    /// process-wide ctrl-C handler when enabled, then the token's waiter,
    /// in that attachment order.  With ctrl-C disabled, only the token's
    /// handler can refuse installation.
    pub(crate) fn initialise_controllers_with_token(&mut self) -> (r: Result<(), BuilderError>)
        requires
            old(self).spec_has_token(),
        ensures
            old(self).wf() ==> final(self).wf(),
            final(self).spec_state() == old(self).spec_state(),
            final(self).spec_time() == old(self).spec_time(),
            final(self).spec_control_c() == old(self).spec_control_c(),
            final(self).spec_calculation() == old(self).spec_calculation(),
            final(self).spec_problem() == old(self).spec_problem(),
            final(self).spec_frequencies() == old(self).spec_frequencies(),
            r is Ok ==> final(self).spec_holders() == old(self).spec_holders() + (
            if old(self).spec_control_c() {
                seq![Holder::CtrlC]
            } else {
                Seq::<Holder>::empty()
            }) + seq![Holder::Parent],
            !old(self).spec_control_c() ==> (r matches Err(e) ==> e
                == BuilderError::KillSignalHandler),
    {
        let ghost holders_before = self.spec_holders();
        if self.control_c {
            let flag = KillFlag::new();
            match crate::builder::install_ctrl_c_handler(&flag) {
                Ok(()) => {},
                Err(_) => {
                    return Err(BuilderError::CtrlCHandler);
                },
            }
            let switch = Killswitch::new(Holder::CtrlC, flag);
            self.signals.push(switch);
            proof {
                assert(holders_of(self.signals@) =~= holders_before + seq![Holder::CtrlC]);
            }
        }

        let token = match self.cancellation_token.take() {
            Some(token) => token,
            None => unreached(),
        };
        let flag = KillFlag::new();
        if !token.set_handler(flag.clone()) {
            return Err(BuilderError::KillSignalHandler);
        }
        let switch = Killswitch::new(Holder::Parent, flag);
        self.signals.push(switch);
        proof {
            if old(self).spec_control_c() {
                assert(holders_of(self.signals@) =~= (holders_before + seq![Holder::CtrlC]) + seq![
                    Holder::Parent,
                ]);
            } else {
                assert(holders_of(self.signals@) =~= (holders_before + Seq::<Holder>::empty())
                    + seq![Holder::Parent]);
            }
        }
        Ok(())
    }
}

} // verus!
