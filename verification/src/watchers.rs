//! Observers of a running solver and the dispatch rules that drive them.
//!
//! An observer is attached together with a [`Frequency`]; on each lifecycle
//! event the set decides, per observer and in attachment order, whether to
//! fire it.  The decision is the pure function [`should_fire`]; only the
//! shared handle that stores an observer behind reference counting and a
//! lock is opaque to the verifier.

use std::sync::Arc;
use std::sync::Mutex;

use vstd::prelude::*;

verus! {

/// What a sink should record of the observed state.
#[derive(Clone, Copy, Debug, PartialEq, Eq, Structural)]
pub enum Target {
    /// The current parameter vector.
    Param,
    /// The current measure of progress.
    Measure,
}

/// The lifecycle stage an observation belongs to.
#[derive(Clone, Copy, Debug, PartialEq, Eq, Structural)]
pub enum Stage {
    /// The run finished its initialisation phase.
    Initialisation,
    /// The run finished its wrap-up phase.
    WrapUp,
    /// The run finished one iteration.
    Iteration,
}

/// How often the observations should take place.
#[derive(Clone, Copy, Debug, PartialEq, Eq, Structural)]
pub enum Frequency {
    /// An observer that never observes.
    Never,
    /// Observations occur on every iteration.
    Always,
    /// Observations occur on every nth iteration.
    Every(usize),
    /// The observer runs during the wrap-up stage only.
    OnExit,
}

impl Default for Frequency {
    /// By default an observer never observes.
    fn default() -> (r: Self)
        ensures
            r == Frequency::Never,
    {
        Frequency::Never
    }
}

/// An error an observer may meet while recording; the runner swallows
/// these by design.
#[derive(Clone, Copy, Debug, PartialEq, Eq, Structural)]
pub enum ObservationError {
    /// The sink behind the observer failed to write.
    Writer,
}

/// A sink receiving lifecycle events, implemented by the caller.
///
/// Observers receive the subject by shared reference and must not mutate
/// it; they are called synchronously on the runner's thread.
pub trait Observer<S>: Send + Sync {
    /// Record one lifecycle event of the named calculation.
    fn observe(&self, ident: &'static str, subject: &S, stage: Stage);
}

/// Whether an observer of the given frequency fires at the given stage,
/// with `iter` the current iteration number of the observed state.
///
/// At an iteration: always-observers fire, every-n observers fire on the
/// iterations divisible by n, and the rest stay silent.  At
/// initialisation: always- and every-n observers fire.  At wrap-up:
/// always- and on-exit observers fire.
pub open spec fn fires(frequency: Frequency, stage: Stage, iter: usize) -> bool {
    match stage {
        Stage::Iteration => match frequency {
            Frequency::Never => false,
            Frequency::Always => true,
            Frequency::Every(n) => n > 0 && iter as int % n as int == 0,
            Frequency::OnExit => false,
        },
        Stage::Initialisation => frequency is Always || frequency matches Frequency::Every(_),
        Stage::WrapUp => frequency is Always || frequency is OnExit,
    }
}

/// The firing decision of the dispatch rule, as a callable function.
pub fn should_fire(frequency: Frequency, stage: Stage, iter: usize) -> (r: bool)
    ensures
        r == fires(frequency, stage, iter),
{
    match stage {
        Stage::Iteration => match frequency {
            Frequency::Never => false,
            Frequency::Always => true,
            Frequency::Every(n) => n > 0 && iter % n == 0,
            Frequency::OnExit => false,
        },
        Stage::Initialisation => matches!(
            frequency,
            Frequency::Always | Frequency::Every(_)
        ),
        Stage::WrapUp => matches!(frequency, Frequency::Always | Frequency::OnExit),
    }
}

/// A shared, thread-safe handle to an attached observer.
///
/// Relies on `std::sync::Arc` and `std::sync::Mutex` to share the observer
/// between the attaching caller and the runner; the verifier sees the
/// handle as an opaque value.
#[verifier::external_body]
#[verifier::reject_recursive_types(S)]
pub struct ObserverHandle<S> {
    inner: Arc<Mutex<dyn Observer<S>>>,
}

impl<S> ObserverHandle<S> {
    /// Wrap an observer in a shared handle.
    ///
    /// Relies on `Arc::new` and `Mutex::new` of std: the handle stores
    /// exactly the given observer.
    #[verifier::external_body]
    pub fn new<OBS: Observer<S> + 'static>(observer: OBS) -> Self {
        ObserverHandle { inner: Arc::new(Mutex::new(observer)) }
    }

    /// Deliver one event to the held observer.
    ///
    /// Relies on `Mutex::lock` of std; a poisoned lock is skipped, as
    /// observer failures are swallowed by design.
    #[verifier::external_body]
    fn notify(&self, ident: &'static str, subject: &S, stage: Stage) {
        if let Ok(guard) = self.inner.lock() {
            guard.observe(ident, subject, stage);
        }
    }

    /// Whether two handles refer to the same attached observer.
    ///
    /// Relies on `Arc::ptr_eq` of std.
    #[verifier::external_body]
    fn same(&self, other: &Self) -> bool {
        Arc::ptr_eq(&self.inner, &other.inner)
    }

    /// A second handle to the same attached observer.
    ///
    /// Relies on `Arc::clone` of std.
    #[verifier::external_body]
    pub fn share(&self) -> Self {
        ObserverHandle { inner: Arc::clone(&self.inner) }
    }
}

/// Whether `xs` occurs inside `ys` in order: the front-greedy reading of
/// "xs is a subsequence of ys".
pub open spec fn subsequence_of<A>(xs: Seq<A>, ys: Seq<A>) -> bool
    decreases xs.len() + ys.len(),
{
    if xs.len() == 0 {
        true
    } else if ys.len() == 0 {
        false
    } else if xs[0] == ys[0] {
        subsequence_of(xs.skip(1), ys.skip(1))
    } else {
        subsequence_of(xs, ys.skip(1))
    }
}

/// A one-element sequence is a subsequence of anything ending in that
/// element.
proof fn lemma_subsequence_of_last<A>(ys: Seq<A>, a: A)
    ensures
        subsequence_of(Seq::<A>::empty().push(a), ys.push(a)),
    decreases ys.len(),
{
    let xs = Seq::<A>::empty().push(a);
    assert(xs.len() == 1);
    assert(xs[0] == a);
    assert(xs.skip(1) =~= Seq::<A>::empty());
    if ys.len() == 0 {
        assert(ys.push(a)[0] == a);
        assert(subsequence_of(xs.skip(1), ys.push(a).skip(1)));
    } else {
        if xs[0] == ys.push(a)[0] {
            assert(subsequence_of(xs.skip(1), ys.push(a).skip(1)));
        } else {
            assert(ys.push(a).skip(1) =~= ys.skip(1).push(a));
            lemma_subsequence_of_last(ys.skip(1), a);
            assert(subsequence_of(xs, ys.push(a).skip(1)));
        }
    }
}

/// A subsequence stays one when the right side grows at its end.
proof fn lemma_subsequence_push_right<A>(xs: Seq<A>, ys: Seq<A>, a: A)
    requires
        subsequence_of(xs, ys),
    ensures
        subsequence_of(xs, ys.push(a)),
    decreases xs.len() + ys.len(),
{
    if xs.len() == 0 {
    } else {
        assert(ys.len() > 0);
        assert(ys.push(a)[0] == ys[0]);
        assert(ys.push(a).skip(1) =~= ys.skip(1).push(a));
        if xs[0] == ys[0] {
            lemma_subsequence_push_right(xs.skip(1), ys.skip(1), a);
        } else {
            lemma_subsequence_push_right(xs, ys.skip(1), a);
        }
    }
}

/// A subsequence stays one when both sides grow by the same element at
/// their ends.
proof fn lemma_subsequence_push_both<A>(xs: Seq<A>, ys: Seq<A>, a: A)
    requires
        subsequence_of(xs, ys),
    ensures
        subsequence_of(xs.push(a), ys.push(a)),
    decreases xs.len() + ys.len(),
{
    if xs.len() == 0 {
        assert(xs.push(a) =~= Seq::<A>::empty().push(a));
        lemma_subsequence_of_last(ys, a);
    } else {
        assert(ys.len() > 0);
        assert(xs.push(a)[0] == xs[0]);
        assert(ys.push(a)[0] == ys[0]);
        assert(xs.push(a).skip(1) =~= xs.skip(1).push(a));
        assert(ys.push(a).skip(1) =~= ys.skip(1).push(a));
        if xs[0] == ys[0] {
            lemma_subsequence_push_both(xs.skip(1), ys.skip(1), a);
        } else {
            lemma_subsequence_push_both(xs, ys.skip(1), a);
        }
    }
}

/// One attachment record: an observer handle paired with its firing
/// frequency.
#[verifier::reject_recursive_types(S)]
pub struct AttachedObserver<S> {
    handle: ObserverHandle<S>,
    /// The firing frequency the observer was attached with.
    pub frequency: Frequency,
}

/// The firing frequencies of a sequence of attachment records, in order.
pub closed spec fn frequencies_of<S>(items: Seq<AttachedObserver<S>>) -> Seq<Frequency> {
    items.map(|i: int, a: AttachedObserver<S>| a.frequency)
}

/// The ordered set of attached observers.
#[verifier::reject_recursive_types(S)]
pub struct ObserverVec<S> {
    items: Vec<AttachedObserver<S>>,
}

/// A borrowed view of the attached observers, in attachment order.
#[verifier::reject_recursive_types(S)]
pub struct ObserverSlice<'a, S> {
    items: &'a [AttachedObserver<S>],
}

impl<'a, S> ObserverSlice<'a, S> {
    /// The number of observers in the borrowed view, for specifications.
    pub closed spec fn spec_len(&self) -> nat {
        self.items@.len()
    }

    /// The number of observers in the borrowed view.
    pub fn len(&self) -> (r: usize)
        ensures
            r == self.spec_len(),
    {
        self.items.len()
    }
}

/// The interface of an ordered observer set.
pub trait Observable<S> {
    /// The handle under which an observer is attached.
    type Observer;

    /// The frequencies of the attached observers, in attachment order.
    spec fn spec_frequencies(&self) -> Seq<Frequency>;

    /// Dispatch one lifecycle event: each attached observer, in attachment
    /// order, fires exactly when [`fires`] says so for its frequency, the
    /// stage, and the subject's iteration number `iter`.
    fn update(&self, ident: &'static str, subject: &S, stage: Stage, iter: usize);

    /// Attach an observer with a firing frequency, at the end of the order.
    fn attach(&mut self, observer: Self::Observer, frequency: Frequency)
        ensures
            final(self).spec_frequencies() == old(self).spec_frequencies().push(frequency),
    ;

    /// Detach every attachment of the given observer: the surviving
    /// frequencies are a subsequence of the old ones, which is all that
    /// can be said while the handles themselves stay opaque.
    fn detach(&mut self, observer: Self::Observer)
        ensures
            final(self).spec_frequencies().len() <= old(self).spec_frequencies().len(),
            subsequence_of(final(self).spec_frequencies(), old(self).spec_frequencies()),
    ;
}

impl<S> ObserverVec<S> {
    /// An empty observer set.
    pub fn new() -> (r: Self)
        ensures
            r.spec_frequencies() =~= Seq::<Frequency>::empty(),
    {
        ObserverVec { items: Vec::new() }
    }

    /// The number of attached observers.
    pub fn len(&self) -> (r: usize)
        ensures
            r == self.spec_frequencies().len(),
    {
        self.items.len()
    }

    /// The attached observers as a borrowed slice, in attachment order.
    pub fn as_slice(&self) -> (r: ObserverSlice<'_, S>)
        ensures
            r.spec_len() == self.spec_frequencies().len(),
    {
        ObserverSlice { items: self.items.as_slice() }
    }
}

impl<S> Default for ObserverVec<S> {
    /// By default no observer is attached.
    fn default() -> (r: Self)
        ensures
            r.spec_frequencies() =~= Seq::<Frequency>::empty(),
    {
        ObserverVec { items: Vec::new() }
    }
}

impl<S> Observable<S> for ObserverVec<S> {
    type Observer = ObserverHandle<S>;

    closed spec fn spec_frequencies(&self) -> Seq<Frequency> {
        frequencies_of(self.items@)
    }

    fn update(&self, ident: &'static str, subject: &S, stage: Stage, iter: usize) {
        let mut idx: usize = 0;
        while idx < self.items.len()
            invariant
                0 <= idx <= self.items@.len(),
            decreases self.items@.len() - idx,
        {
            let attached = &self.items[idx];
            if should_fire(attached.frequency, stage, iter) {
                attached.handle.notify(ident, subject, stage);
            }
            idx = idx + 1;
        }
    }

    fn attach(&mut self, observer: ObserverHandle<S>, frequency: Frequency) {
        self.items.push(AttachedObserver { handle: observer, frequency });
        proof {
            assert(self.spec_frequencies() =~= old(self).spec_frequencies().push(frequency));
        }
    }

    fn detach(&mut self, observer: ObserverHandle<S>) {
        let ghost orig = frequencies_of(self.items@);
        let ghost mut done: Seq<Frequency> = Seq::empty();
        let mut kept: Vec<AttachedObserver<S>> = Vec::new();
        proof {
            assert(done + frequencies_of(self.items@) =~= orig);
        }
        while self.items.len() > 0
            invariant
                done + frequencies_of(self.items@) == orig,
                subsequence_of(frequencies_of(kept@), done),
                frequencies_of(kept@).len() + self.items@.len() <= orig.len(),
            decreases self.items@.len(),
        {
            let ghost pre_items = self.items@;
            let ghost pre_done = done;
            let ghost pre_kept = kept@;
            let attached = self.items.remove(0);
            let ghost moved = attached.frequency;
            proof {
                done = pre_done.push(moved);
                assert(frequencies_of(pre_items)[0] == moved);
                assert(frequencies_of(self.items@) =~= frequencies_of(pre_items).skip(1));
                assert(pre_done.push(moved) + frequencies_of(self.items@) =~= pre_done
                    + frequencies_of(pre_items));
            }
            if !attached.handle.same(&observer) {
                kept.push(attached);
                proof {
                    assert(frequencies_of(kept@) =~= frequencies_of(pre_kept).push(moved));
                    lemma_subsequence_push_both(frequencies_of(pre_kept), pre_done, moved);
                }
            } else {
                proof {
                    lemma_subsequence_push_right(frequencies_of(pre_kept), pre_done, moved);
                }
            }
        }
        proof {
            assert(frequencies_of(self.items@) =~= Seq::<Frequency>::empty());
            assert(done + frequencies_of(self.items@) =~= done);
        }
        self.items = kept;
    }
}

} // verus!
