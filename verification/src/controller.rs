//! Controllers are external processes which can kill the main loop.

use vstd::prelude::*;

use crate::killswitch::KillFlag;

verus! {

/// A controller has to implement the `Control` trait.
///
/// The contract is deliberately synchronous: the waiter blocks until the
/// source wishes the run to stop, and any return, successful or not,
/// counts as a kill signal.  Both methods consume the controller so that it
/// can be owned by the waiter thread.
///
/// The library itself cannot host threads, so installing the waiter is part
/// of the contract: the runner hands the controller a fresh [`KillFlag`]
/// and polls that flag at each loop head, whatever the installed waiter
/// does with it.
pub trait Control: Sized {
    /// Value emitted by the controller when the kill signal is received.
    type Value;

    /// Error emitted when waiting fails; a failure also counts as a kill
    /// signal.
    type Error;

    /// Block until a kill signal is received.
    fn blocking_recv_kill_signal(self) -> Result<Self::Value, Self::Error>;

    /// Install a handler for the kill signal.
    ///
    /// An implementation arranges for `flag` to be raised once
    /// [`Control::blocking_recv_kill_signal`] returns, typically by hosting
    /// the blocking wait on an auxiliary thread, and returns false if that
    /// arrangement could not be made.
    fn set_handler(self, flag: KillFlag) -> bool;
}

} // verus!
