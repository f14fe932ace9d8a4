//! The staged builder that assembles a runner from the user's pieces.
//!
//! A builder is first created without a cancellation token; attaching one
//! changes its type, so that only a builder that holds a token wires the
//! token's waiter into the runner.

use vstd::prelude::*;

use crate::calculation::Calculation;
use crate::controller::Control;
use crate::killswitch::{Holder, KillFlag};
use crate::problem::Problem;
use crate::runner::Runner;
use crate::state::{State, StateView, UserState};
use crate::watchers::{Frequency, Observable, Observer, ObserverHandle, ObserverVec};

verus! {

/// Declares `ctrlc::Error`, the opaque error with which the ctrl-C crate
/// refuses to install a handler.
#[verifier::external_type_specification]
#[verifier::external_body]
pub struct ExCtrlcError(ctrlc::Error);

/// Register a process-wide ctrl-C handler that raises the given flag.
///
/// Relies on `ctrlc::set_handler`: the handler it installs stores into the
/// shared flag whenever a ctrl-C signal arrives, and installation fails
/// with the crate's error when a handler already exists or the system
/// refuses one.
#[verifier::external_body]
pub(crate) fn install_ctrl_c_handler(flag: &KillFlag) -> Result<(), ctrlc::Error> {
    let flag = flag.clone();
    ctrlc::set_handler(move || flag.set())
}

/// The failures surfaced while wiring a runner.
#[derive(Clone, Copy, Debug, PartialEq, Eq, Structural)]
pub enum BuilderError {
    /// The process-wide ctrl-C handler could not be installed.
    CtrlCHandler,
    /// The cancellation token's kill-signal handler could not be
    /// installed.
    KillSignalHandler,
}

/// The mathematical model of a [`Builder`]: its pieces and configuration.
pub struct BuilderView<C, P, S, T> where S: UserState {
    /// The calculation to run.
    pub calculation: C,
    /// The problem to solve.
    pub problem: P,
    /// The state wrapper the runner will start from.
    pub state: State<S>,
    /// Whether execution is timed.
    pub time: bool,
    /// Whether a process-wide ctrl-C handler terminates the run.
    pub control_c: bool,
    /// The cancellation token, where one is attached.
    pub token: T,
    /// The firing frequencies of the attached observers, in attachment
    /// order.
    pub frequencies: Seq<Frequency>,
}

/// The entry point to building a runner for a calculation.
pub trait GenerateBuilder<P, S>: Sized + Calculation<P, S> where S: UserState {
    /// Begin building a runner of this calculation over the given problem:
    /// a fresh state wrapper, timing and ctrl-C handling enabled, no
    /// observers, and no cancellation token.
    fn build_for(self, problem: P) -> (r: Builder<Self, P, S, ()>)
        ensures
            r@.calculation == self,
            r@.problem == problem,
            r@.time == true,
            r@.control_c == true,
            r@.frequencies == Seq::<Frequency>::empty(),
            r@.state.wf(),
            r@.state@.specific is Some,
            r@.state@.iter == 0,
            r@.state@.last_best_iter == 0,
            r@.state@.max_iter == usize::MAX,
            r@.state@.status is NotTerminated,
            r@.state@.time is None,
            r@.state@.error == crate::float::INFINITY_BITS,
            r@.state@.prev_error == crate::float::INFINITY_BITS,
            r@.state@.best_error == crate::float::INFINITY_BITS,
            r@.state@.prev_best_error == crate::float::INFINITY_BITS,
            !crate::float::is_nan_bits(r@.state@.tolerance),
            !crate::float::is_infinite_bits(r@.state@.tolerance),
            !crate::float::is_zero_bits(r@.state@.tolerance),
            crate::float::sign_positive_bits(r@.state@.tolerance),
    ;
}

impl<C, P, S> GenerateBuilder<P, S> for C where C: Calculation<P, S>, S: UserState {
    fn build_for(self, problem: P) -> (r: Builder<Self, P, S, ()>) {
        let r = Builder {
            problem,
            calculation: self,
            state: State::new(),
            time: true,
            control_c: true,
            cancellation_token: (),
            observers: ObserverVec::default(),
        };
        proof {
            assert(r@.frequencies =~= Seq::<Frequency>::empty());
        }
        r
    }
}

/// A staged constructor for a runner: holds the user's pieces and the
/// configuration applied so far.
#[verifier::reject_recursive_types(S)]
pub struct Builder<C, P, S, T> where C: Calculation<P, S>, S: UserState {
    calculation: C,
    problem: P,
    state: State<S>,
    time: bool,
    control_c: bool,
    cancellation_token: T,
    observers: ObserverVec<State<S>>,
}

impl<C, P, S, T> View for Builder<C, P, S, T> where C: Calculation<P, S>, S: UserState {
    type V = BuilderView<C, P, S, T>;

    closed spec fn view(&self) -> BuilderView<C, P, S, T> {
        BuilderView {
            calculation: self.calculation,
            problem: self.problem,
            state: self.state,
            time: self.time,
            control_c: self.control_c,
            token: self.cancellation_token,
            frequencies: self.observers.spec_frequencies(),
        }
    }
}

impl<C, P, S, R> Builder<C, P, S, R> where C: Calculation<P, S>, S: UserState {
    /// Choose whether a process-wide ctrl-C handler terminates the run.
    #[must_use]
    pub fn control_c(self, control_c: bool) -> (r: Self)
        ensures
            r@ == (BuilderView { control_c, ..self@ }),
    {
        let mut b = self;
        b.control_c = control_c;
        b
    }

    /// Choose whether execution is timed.
    #[must_use]
    pub fn time(self, time: bool) -> (r: Self)
        ensures
            r@ == (BuilderView { time, ..self@ }),
    {
        let mut b = self;
        b.time = time;
        b
    }

    /// Configure the attached state.
    ///
    /// Apply any runtime configuration option to the attached state, such
    /// as its iteration cap or its relative tolerance.
    #[must_use]
    pub fn configure<F: FnOnce(State<S>) -> State<S>>(self, configure: F) -> (r: Self)
        requires
            configure.requires((self@.state,)),
        ensures
            configure.ensures((self@.state,), r@.state),
            r@ == (BuilderView { state: r@.state, ..self@ }),
    {
        let mut b = self;
        let state = configure(b.state);
        b.state = state;
        b
    }

    /// Attach an observer with a firing frequency, at the end of the
    /// attachment order.
    #[must_use]
    pub fn attach_observer<OBS: Observer<State<S>> + 'static>(
        self,
        observer: OBS,
        frequency: Frequency,
    ) -> (r: Self)
        ensures
            r@ == (BuilderView { frequencies: self@.frequencies.push(frequency), ..self@ }),
    {
        let mut b = self;
        b.observers.attach(ObserverHandle::new(observer), frequency);
        b
    }
}

impl<C, P, S> Builder<C, P, S, ()> where C: Calculation<P, S>, S: UserState {
    /// Attach a cancellation token: the builder's type records its
    /// presence, and finalisation will wire the token's waiter.
    #[must_use]
    pub fn with_cancellation_token<T>(self, cancellation_token: T) -> (r: Builder<C, P, S, T>)
        ensures
            r@ == (BuilderView {
                calculation: self@.calculation,
                problem: self@.problem,
                state: self@.state,
                time: self@.time,
                control_c: self@.control_c,
                token: cancellation_token,
                frequencies: self@.frequencies,
            }),
    {
        Builder {
            calculation: self.calculation,
            problem: self.problem,
            state: self.state,
            time: self.time,
            control_c: self.control_c,
            cancellation_token,
            observers: self.observers,
        }
    }

    /// Produce a fully wired runner without a cancellation token,
    /// installing the ctrl-C handler where enabled: its killswitch is the
    /// runner's only one, and installing it is the only thing that can
    /// fail.
    pub fn finalise(self) -> (r: Result<Runner<C, P, S, ()>, BuilderError>)
        requires
            self@.state.wf(),
            self@.state@.specific is Some,
            self@.state@.iter <= self@.state@.max_iter + 1,
            self@.state@.status is NotTerminated ==> self@.state@.iter <= self@.state@.max_iter,
        ensures
            r matches Ok(runner) ==> runner.wf() && runner.spec_state() == Some(self@.state)
                && runner.spec_time() == self@.time && runner.spec_control_c()
                == self@.control_c && runner.spec_calculation() == self@.calculation
                && runner.spec_problem().spec_inner() == self@.problem
                && runner.spec_frequencies() == self@.frequencies && runner.spec_holders() == (
            if self@.control_c {
                seq![Holder::CtrlC]
            } else {
                Seq::<Holder>::empty()
            }),
            !self@.control_c ==> r is Ok,
            r matches Err(e) ==> e == BuilderError::CtrlCHandler,
    {
        let mut runner = Runner::assemble(
            self.calculation,
            Problem::new(self.problem),
            self.state,
            self.time,
            self.control_c,
            None,
            self.observers,
        );
        match runner.initialise_controllers() {
            Ok(()) => Ok(runner),
            Err(e) => Err(e),
        }
    }
}

impl<C, P, S, T> Builder<C, P, S, T> where
    T: Control + 'static,
    C: Calculation<P, S>,
    S: UserState,
 {
    /// Produce a fully wired runner, installing the ctrl-C handler where
    /// enabled and then the cancellation token's waiter, in that
    /// attachment order, so a ctrl-C always wins the reported-cause
    /// tie-break over the token.
    pub fn finalise(self) -> (r: Result<Runner<C, P, S, T>, BuilderError>)
        requires
            self@.state.wf(),
            self@.state@.specific is Some,
            self@.state@.iter <= self@.state@.max_iter + 1,
            self@.state@.status is NotTerminated ==> self@.state@.iter <= self@.state@.max_iter,
        ensures
            r matches Ok(runner) ==> runner.wf() && runner.spec_state() == Some(self@.state)
                && runner.spec_time() == self@.time && runner.spec_control_c()
                == self@.control_c && runner.spec_calculation() == self@.calculation
                && runner.spec_problem().spec_inner() == self@.problem
                && runner.spec_frequencies() == self@.frequencies && runner.spec_holders() == (
            if self@.control_c {
                seq![Holder::CtrlC, Holder::Parent]
            } else {
                seq![Holder::Parent]
            }),
            !self@.control_c ==> (r matches Err(e) ==> e == BuilderError::KillSignalHandler),
    {
        let mut runner = Runner::assemble(
            self.calculation,
            Problem::new(self.problem),
            self.state,
            self.time,
            self.control_c,
            Some(self.cancellation_token),
            self.observers,
        );
        match runner.initialise_controllers_with_token() {
            Ok(()) => Ok(runner),
            Err(e) => Err(e),
        }
    }
}

} // verus!
