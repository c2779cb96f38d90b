//! What a peer holds besides its connection: an identifier fixed at
//! construction, and its side of the shutdown signal.
use vstd::prelude::*;

use tokio::sync::mpsc::UnboundedSender;

use crate::dispatch::{lemma_delivered_events_are_tagged, DispatchInput, Dispatcher};
use crate::error::PeerError;
use crate::event::EventBridge;
use crate::shutdown::{fire_post, release_post, ShutdownSignal};

verus! {

/// Relies on `rand::random`: a value drawn from the thread-local generator;
/// nothing is assumed of it.
pub assume_specification<T>[ rand::random::<T> ]() -> T
    where
        rand::distributions::Standard: rand::distributions::Distribution<T>,
;

/// A fresh random 128-bit peer identifier.
pub fn random_peer_id() -> u128 {
    rand::random::<u128>()
}

/// The verified state of a peer.
pub struct PeerCore {
    peer_id: u128,
    shutdown: ShutdownSignal,
}

impl PeerCore {
    /// The identifier that tags every event of this peer.
    pub closed spec fn id(&self) -> u128 {
        self.peer_id
    }

    pub closed spec fn signal(&self) -> ShutdownSignal {
        self.shutdown
    }

    /// A peer with a fresh random identifier whose shutdown signal has not fired.
    pub fn new(shutdown: UnboundedSender<()>) -> (r: PeerCore)
        ensures
            !r.signal().fired(),
    {
        PeerCore { peer_id: random_peer_id(), shutdown: ShutdownSignal::new(shutdown) }
    }

    pub fn peer_id(&self) -> (r: u128)
        ensures
            r == self.id(),
    {
        self.peer_id
    }

    /// The bridge for the engine's callbacks, tagging with this peer's identifier.
    pub fn bridge(&self) -> (r: EventBridge)
        ensures
            r.peer_id == self.id(),
    {
        EventBridge::new(self.peer_id)
    }

    /// The state of a dispatch task for this peer, before any input.
    pub fn dispatcher(&self) -> (r: Dispatcher)
        ensures
            r.id() == self.id(),
            r.running(),
            r.history() == Seq::<DispatchInput>::empty(),
    {
        Dispatcher::new(self.peer_id)
    }

    pub fn is_shut_down(&self) -> (r: bool)
        ensures
            r == self.signal().fired(),
    {
        self.shutdown.is_fired()
    }

    /// Fires the shutdown signal, as `close` does before closing the connection.
    pub fn close(&mut self) -> (r: Result<(), PeerError>)
        ensures
            final(self).id() == old(self).id(),
            fire_post(old(self).signal(), final(self).signal(), r),
    {
        self.shutdown.fire()
    }

    /// Fires the shutdown signal unless it already fired, as dropping the peer does.
    pub fn release(&mut self) -> (r: Option<Result<(), PeerError>>)
        ensures
            final(self).id() == old(self).id(),
            release_post(old(self).signal(), final(self).signal(), r),
    {
        self.shutdown.release()
    }
}

/// Every event that a dispatch task of a peer hands to the callback carries
/// that peer's identifier, whatever the task received.
pub proof fn lemma_events_carry_peer_id(core: PeerCore, task: Dispatcher)
    requires
        task.id() == core.id(),
    ensures
        forall|k: int|
            0 <= k < task.delivered().len() ==> (#[trigger] task.delivered()[k]).0 == core.id(),
{
    lemma_delivered_events_are_tagged(task.id(), task.history());
}

} // verus!
