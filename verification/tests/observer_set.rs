//! The observer set: attachment order, direct dispatch, and detachment.

use std::sync::{Arc, Mutex};

use trellis::{
    ErrorEstimate, FloatBits, Frequency, Observable, Observer, ObserverHandle, ObserverVec, Stage,
    State, UserState,
};

struct PlainState;

impl UserState for PlainState {
    type Float = FloatBits;
    type Param = Vec<f64>;

    fn new() -> Self {
        PlainState
    }

    fn update(&mut self) -> ErrorEstimate<FloatBits> {
        ErrorEstimate(FloatBits::from_bits(f64::INFINITY.to_bits()))
    }

    fn get_param(&self) -> Option<&Vec<f64>> {
        None
    }

    fn last_was_best(&mut self) {}
}

struct Recorder {
    seen: Arc<Mutex<Vec<(String, usize)>>>,
    tag: usize,
}

impl Observer<State<PlainState>> for Recorder {
    fn observe(&self, ident: &'static str, _subject: &State<PlainState>, _stage: Stage) {
        self.seen.lock().unwrap().push((ident.to_string(), self.tag));
    }
}

#[test]
fn observers_fire_in_attachment_order() {
    let seen = Arc::new(Mutex::new(Vec::new()));
    let mut set: ObserverVec<State<PlainState>> = ObserverVec::new();
    assert_eq!(set.len(), 0);
    set.attach(ObserverHandle::new(Recorder { seen: seen.clone(), tag: 1 }), Frequency::Always);
    set.attach(ObserverHandle::new(Recorder { seen: seen.clone(), tag: 2 }), Frequency::OnExit);
    assert_eq!(set.len(), 2);
    assert_eq!(set.as_slice().len(), 2);

    let state: State<PlainState> = State::new();
    set.update("ordered", &state, Stage::Iteration, 4);
    // Only the always-observer fires at an iteration.
    assert_eq!(seen.lock().unwrap().clone(), vec![("ordered".to_string(), 1)]);

    seen.lock().unwrap().clear();
    set.update("ordered", &state, Stage::WrapUp, 4);
    // Both fire at wrap-up, in attachment order.
    assert_eq!(
        seen.lock().unwrap().clone(),
        vec![("ordered".to_string(), 1), ("ordered".to_string(), 2)]
    );
}

#[test]
fn detach_removes_only_the_given_observer() {
    let seen = Arc::new(Mutex::new(Vec::new()));
    let mut set: ObserverVec<State<PlainState>> = ObserverVec::new();
    let first = ObserverHandle::new(Recorder { seen: seen.clone(), tag: 1 });
    let second = ObserverHandle::new(Recorder { seen: seen.clone(), tag: 2 });
    set.attach(first.share(), Frequency::Always);
    set.attach(second, Frequency::Always);
    assert_eq!(set.len(), 2);

    // Detaching a handle that was never attached removes nothing.
    let stranger = ObserverHandle::new(Recorder { seen: seen.clone(), tag: 3 });
    set.detach(stranger);
    assert_eq!(set.len(), 2);

    set.detach(first);
    assert_eq!(set.len(), 1);

    let state: State<PlainState> = State::new();
    set.update("left", &state, Stage::Iteration, 1);
    assert_eq!(seen.lock().unwrap().clone(), vec![("left".to_string(), 2)]);
}
