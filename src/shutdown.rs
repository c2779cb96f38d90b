//! The signal that stops a peer's dispatch task, fired at most once by the
//! peer: on `close`, or on drop if `close` never fired it.
use vstd::prelude::*;

use tokio::sync::mpsc::error::SendError;
use tokio::sync::mpsc::UnboundedSender;

use crate::error::PeerError;

verus! {

#[verifier::external_type_specification]
#[verifier::external_body]
#[verifier::reject_recursive_types(T)]
pub struct ExUnboundedSender<T>(UnboundedSender<T>);

#[verifier::external_type_specification]
#[verifier::external_body]
#[verifier::reject_recursive_types(T)]
pub struct ExSendError<T>(SendError<T>);

/// Relies on `tokio::sync::mpsc::UnboundedSender::send`: it never blocks, and
/// fails only when the receiving side is gone, which the sender cannot know
/// beforehand.
#[verifier::external_body]
fn send_unit(sender: &UnboundedSender<()>) -> (r: Result<(), SendError<()>>) {
    sender.send(())
}

/// How a firing went, given how the send went.
pub fn fire_outcome(sent: Result<(), SendError<()>>) -> (r: Result<(), PeerError>)
    ensures
        sent is Ok ==> r is Ok,
        sent is Err ==> r == Err::<(), PeerError>(PeerError::ShutdownFailed),
{
    match sent {
        Ok(()) => Ok(()),
        Err(_) => Err(PeerError::ShutdownFailed),
    }
}

/// The peer's side of the shutdown signal.
pub struct ShutdownSignal {
    sender: UnboundedSender<()>,
    fired: bool,
}

/// What `fire` does: a first firing marks the signal fired and succeeds or
/// fails as the send did; any later one fails with `ShutdownFailed` and
/// changes nothing.
pub open spec fn fire_post(
    before: ShutdownSignal,
    after: ShutdownSignal,
    r: Result<(), PeerError>,
) -> bool {
    if before.fired() {
        after == before && r == Err::<(), PeerError>(PeerError::ShutdownFailed)
    } else {
        after.fired() && (r is Ok || r == Err::<(), PeerError>(PeerError::ShutdownFailed))
    }
}

/// What dropping the peer does with the signal: nothing if it already fired;
/// otherwise it fires it and reports how the firing went.
pub open spec fn release_post(
    before: ShutdownSignal,
    after: ShutdownSignal,
    r: Option<Result<(), PeerError>>,
) -> bool {
    if before.fired() {
        after == before && r is None
    } else {
        r matches Some(fired) && fire_post(before, after, fired)
    }
}

impl ShutdownSignal {
    pub closed spec fn fired(&self) -> bool {
        self.fired
    }

    /// A signal that has not fired yet.
    pub fn new(sender: UnboundedSender<()>) -> (r: ShutdownSignal)
        ensures
            !r.fired(),
    {
        ShutdownSignal { sender, fired: false }
    }

    pub fn is_fired(&self) -> (r: bool)
        ensures
            r == self.fired(),
    {
        self.fired
    }

    /// Fires the signal, as `close` does.
    pub fn fire(&mut self) -> (r: Result<(), PeerError>)
        ensures
            fire_post(*old(self), *final(self), r),
    {
        if self.fired {
            return Err(PeerError::ShutdownFailed);
        }
        self.fired = true;
        fire_outcome(send_unit(&self.sender))
    }

    /// Fires the signal unless it already fired, as dropping the peer does.
    pub fn release(&mut self) -> (r: Option<Result<(), PeerError>>)
        ensures
            release_post(*old(self), *final(self), r),
    {
        if self.fired {
            None
        } else {
            Some(self.fire())
        }
    }
}

/// Closing twice: once a first close has run, a second one fails with
/// `ShutdownFailed` and leaves the signal as it was, and a drop after that
/// does nothing.
pub proof fn lemma_close_twice(
    fresh: ShutdownSignal,
    once: ShutdownSignal,
    first: Result<(), PeerError>,
    twice: ShutdownSignal,
    second: Result<(), PeerError>,
    dropped: ShutdownSignal,
    on_drop: Option<Result<(), PeerError>>,
)
    requires
        fire_post(fresh, once, first),
        fire_post(once, twice, second),
        release_post(twice, dropped, on_drop),
    ensures
        second == Err::<(), PeerError>(PeerError::ShutdownFailed),
        twice == once,
        on_drop is None,
        dropped == twice,
{
}

} // verus!
