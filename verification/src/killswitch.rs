//! Killswitches: tagged shared flags used to request cooperative
//! termination.
//!
//! Each killswitch pairs a holder tag with a shared atomic flag.  The flag
//! is stored to (once, from false to true) by a cancellation source on some
//! other thread and polled by the runner, so nothing can be promised of the
//! value a poll observes; what the library does promise is how the causes
//! of the observed flags combine, through [`first_fired_cause`].

use std::sync::Arc;
use core::sync::atomic::{AtomicBool, Ordering};

use vstd::prelude::*;

use crate::status::Cause;

verus! {

/// Holder of a killswitch.
#[derive(Clone, Copy, Debug, PartialEq, Eq, Structural)]
pub enum Holder {
    /// A killswitch which can be activated using ctrl-C in the terminal.
    CtrlC,
    /// A controlling parent process.
    Parent,
}

/// The termination cause reported for a killswitch held by `holder`.
pub open spec fn cause_of_holder(holder: Holder) -> Cause {
    match holder {
        Holder::CtrlC => Cause::ControlC,
        Holder::Parent => Cause::Parent,
    }
}

impl From<Holder> for Cause {
    /// The cause a fired killswitch of this holder reports.
    fn from(val: Holder) -> (r: Cause) {
        match val {
            Holder::CtrlC => Cause::ControlC,
            Holder::Parent => Cause::Parent,
        }
    }
}

impl vstd::std_specs::convert::FromSpecImpl<Holder> for Cause {
    open spec fn obeys_from_spec() -> bool {
        true
    }

    open spec fn from_spec(t: Holder) -> Cause {
        cause_of_holder(t)
    }
}

/// A shared boolean flag that a cancellation source raises, once, from
/// another thread.
///
/// Clones share the underlying flag.  Because other threads may store to it
/// at any moment, nothing is promised of the value [`KillFlag::is_set`]
/// observes.
#[derive(Clone)]
pub struct KillFlag {
    inner: Arc<AtomicBool>,
}

impl KillFlag {
    /// A fresh flag, initially lowered.
    pub fn new() -> (r: KillFlag) {
        KillFlag { inner: Arc::new(AtomicBool::new(false)) }
    }

    /// Raise the flag.  Called by cancellation sources when they wish the
    /// run to stop.
    pub fn set(&self) {
        (&*self.inner).store(true, Ordering::SeqCst);
    }

    /// Poll the flag.  The result reflects whatever the producing thread
    /// has done so far.
    pub fn is_set(&self) -> bool {
        (&*self.inner).load(Ordering::SeqCst)
    }
}

/// A killswitch is able to terminate a running calculation.
///
/// Killswitches are checked during each iteration, and if any is activated
/// the runner is terminated.
pub struct Killswitch {
    /// The type of holder which holds the killswitch.
    holder: Holder,
    /// Holds the status of the killswitch: when the flag is raised the
    /// killswitch has been activated.
    flag: KillFlag,
}

impl Killswitch {
    /// Pair a holder tag with the shared flag its cancellation source
    /// raises.
    pub fn new(holder: Holder, flag: KillFlag) -> (r: Self)
        ensures
            r.spec_holder() == holder,
    {
        Killswitch { holder, flag }
    }

    /// Returns true if the killswitch has been activated.
    pub fn is_dead(&self) -> bool {
        self.flag.is_set()
    }

    /// The holder of this killswitch.
    pub fn held_by(&self) -> (r: Holder)
        ensures
            r == self.spec_holder(),
    {
        self.holder
    }

    /// The holder tag, for specifications.
    pub closed spec fn spec_holder(&self) -> Holder {
        self.holder
    }
}

/// The holder tags of a sequence of killswitches, in attachment order.
pub open spec fn holders_of(switches: Seq<Killswitch>) -> Seq<Holder> {
    switches.map(|i: int, s: Killswitch| s.spec_holder())
}

/// The cause reported for a sequence of polled killswitches: that of the
/// first one, in attachment order, observed fired; none when none fired.
pub open spec fn spec_first_fired(holders: Seq<Holder>, fired: Seq<bool>) -> Option<Cause>
    decreases holders.len(),
{
    if holders.len() == 0 || fired.len() == 0 {
        None
    } else if fired[0] {
        Some(cause_of_holder(holders[0]))
    } else {
        spec_first_fired(holders.skip(1), fired.skip(1))
    }
}

/// The deterministic tie-break over one round of polled killswitch states:
/// given the flag value observed for each killswitch, the first fired one
/// in attachment order determines the reported cause.
pub fn first_fired_cause(switches: &Vec<Killswitch>, fired: &Vec<bool>) -> (r: Option<Cause>)
    requires
        fired@.len() == switches@.len(),
    ensures
        r == spec_first_fired(holders_of(switches@), fired@),
{
    let ghost holders = holders_of(switches@);
    proof {
        assert(holders.skip(0) =~= holders);
        assert(fired@.skip(0) =~= fired@);
    }
    let mut idx: usize = 0;
    while idx < switches.len()
        invariant
            fired@.len() == switches@.len(),
            0 <= idx <= switches@.len(),
            holders == holders_of(switches@),
            spec_first_fired(holders, fired@) == spec_first_fired(
                holders.skip(idx as int),
                fired@.skip(idx as int),
            ),
            forall|j: int| 0 <= j < idx ==> !fired@[j],
        decreases switches@.len() - idx,
    {
        if fired[idx] {
            let holder = switches[idx].held_by();
            proof {
                assert(holders.skip(idx as int)[0] == holders[idx as int]);
                assert(fired@.skip(idx as int)[0] == fired@[idx as int]);
            }
            return Some(Cause::from(holder));
        }
        proof {
            assert(holders.skip(idx as int).skip(1) =~= holders.skip(idx as int + 1));
            assert(fired@.skip(idx as int).skip(1) =~= fired@.skip(idx as int + 1));
            assert(fired@.skip(idx as int)[0] == fired@[idx as int]);
        }
        idx = idx + 1;
    }
    None
}

} // verus!
