//! The decisions of a peer's dispatch task: which inputs reach the user
//! callback, and when the task ends.
use vstd::prelude::*;

use crate::event::{is_failure, ConnectionState, PeerEvent};

verus! {

/// What the dispatch task has just received.
pub enum DispatchInput {
    /// An event came off the peer's queue.
    Event(u128, PeerEvent),
    /// The shutdown signal fired.
    Shutdown,
    /// Every sender of the queue is gone, so no event can come any more.
    SourcesClosed,
}

/// What the dispatch task does with an input.
pub enum DispatchStep {
    /// Await the user callback on this event before taking the next input.
    Deliver(u128, PeerEvent),
    /// Drop the input and wait for the next one.
    Skip,
    /// Leave the loop; whatever is still queued is discarded.
    Stop,
}

/// The step taken on `input` by the task of peer `peer_id`.
pub open spec fn step_of(peer_id: u128, running: bool, input: DispatchInput) -> DispatchStep {
    if !running {
        DispatchStep::Stop
    } else {
        match input {
            DispatchInput::Event(id, event) => if id == peer_id {
                DispatchStep::Deliver(id, event)
            } else {
                DispatchStep::Skip
            },
            _ => DispatchStep::Stop,
        }
    }
}

/// Whether the task still runs after `input`: a shutdown, closed sources and
/// the delivery of a failure all end it.
pub open spec fn running_after(peer_id: u128, running: bool, input: DispatchInput) -> bool {
    running && match input {
        DispatchInput::Event(id, event) => !(id == peer_id && is_failure(event)),
        _ => false,
    }
}

/// Whether the task of `peer_id` still runs after the inputs.
pub open spec fn replay_running(peer_id: u128, inputs: Seq<DispatchInput>) -> bool
    decreases inputs.len(),
{
    if inputs.len() == 0 {
        true
    } else {
        running_after(peer_id, replay_running(peer_id, inputs.drop_last()), inputs.last())
    }
}

/// The events that the task of `peer_id` has handed to the callback, in order.
pub open spec fn replay_delivered(peer_id: u128, inputs: Seq<DispatchInput>) -> Seq<(u128, PeerEvent)>
    decreases inputs.len(),
{
    if inputs.len() == 0 {
        seq![]
    } else {
        let before = inputs.drop_last();
        match step_of(peer_id, replay_running(peer_id, before), inputs.last()) {
            DispatchStep::Deliver(id, event) => replay_delivered(peer_id, before).push((id, event)),
            _ => replay_delivered(peer_id, before),
        }
    }
}

/// The events among the inputs that are tagged with `peer_id`, in the order
/// they were produced.
pub open spec fn own_events(peer_id: u128, inputs: Seq<DispatchInput>) -> Seq<(u128, PeerEvent)>
    decreases inputs.len(),
{
    if inputs.len() == 0 {
        seq![]
    } else {
        let before = own_events(peer_id, inputs.drop_last());
        match inputs.last() {
            DispatchInput::Event(id, event) => if id == peer_id {
                before.push((id, event))
            } else {
                before
            },
            _ => before,
        }
    }
}

/// Every event the task of `peer_id` hands to the callback carries `peer_id`.
pub proof fn lemma_delivered_events_are_tagged(peer_id: u128, inputs: Seq<DispatchInput>)
    ensures
        forall|k: int|
            0 <= k < replay_delivered(peer_id, inputs).len() ==> (#[trigger] replay_delivered(
                peer_id,
                inputs,
            )[k]).0 == peer_id,
    decreases inputs.len(),
{
    if inputs.len() > 0 {
        let before = inputs.drop_last();
        lemma_delivered_events_are_tagged(peer_id, before);
        let d0 = replay_delivered(peer_id, before);
        let d = replay_delivered(peer_id, inputs);
        assert forall|k: int| 0 <= k < d.len() implies (#[trigger] d[k]).0 == peer_id by {
            if k < d0.len() {
                assert(d[k] == d0[k]);
            }
        }
    }
}

/// Events reach the callback in the order they were produced, with none left
/// out before the task stops: what was delivered is a prefix of the peer's
/// own events, and all of them while the task runs.
pub proof fn lemma_delivery_is_fifo(peer_id: u128, inputs: Seq<DispatchInput>)
    ensures
        replay_delivered(peer_id, inputs).is_prefix_of(own_events(peer_id, inputs)),
        replay_running(peer_id, inputs) ==> replay_delivered(peer_id, inputs) == own_events(
            peer_id,
            inputs,
        ),
    decreases inputs.len(),
{
    if inputs.len() > 0 {
        let before = inputs.drop_last();
        lemma_delivery_is_fifo(peer_id, before);
        let d0 = replay_delivered(peer_id, before);
        let o0 = own_events(peer_id, before);
        let d = replay_delivered(peer_id, inputs);
        let o = own_events(peer_id, inputs);
        assert(o0.is_prefix_of(o));
        if replay_running(peer_id, before) {
            assert(d =~= o);
        } else {
            assert(d == d0);
            assert(d.is_prefix_of(o));
        }
    }
}

proof fn lemma_stopped_task_delivers_nothing(
    peer_id: u128,
    inputs: Seq<DispatchInput>,
    more: Seq<DispatchInput>,
)
    requires
        !replay_running(peer_id, inputs),
    ensures
        !replay_running(peer_id, inputs + more),
        replay_delivered(peer_id, inputs + more) == replay_delivered(peer_id, inputs),
    decreases more.len(),
{
    if more.len() == 0 {
        assert(inputs + more =~= inputs);
    } else {
        lemma_stopped_task_delivers_nothing(peer_id, inputs, more.drop_last());
        assert((inputs + more).drop_last() =~= inputs + more.drop_last());
    }
}

proof fn lemma_delivered_failure_stops_task(peer_id: u128, inputs: Seq<DispatchInput>, k: int)
    requires
        0 <= k < replay_delivered(peer_id, inputs).len(),
        is_failure(replay_delivered(peer_id, inputs)[k].1),
    ensures
        !replay_running(peer_id, inputs),
        k == replay_delivered(peer_id, inputs).len() - 1,
    decreases inputs.len(),
{
    let before = inputs.drop_last();
    let d0 = replay_delivered(peer_id, before);
    if k < d0.len() {
        lemma_delivered_failure_stops_task(peer_id, before, k);
    }
}

/// Once a failure has been handed to the callback, nothing more is: whatever
/// inputs follow, the delivered events stay as they are and the task has
/// stopped. The failure is the last event delivered.
pub proof fn lemma_failure_ends_dispatch(
    peer_id: u128,
    inputs: Seq<DispatchInput>,
    more: Seq<DispatchInput>,
    k: int,
)
    requires
        0 <= k < replay_delivered(peer_id, inputs).len(),
        is_failure(replay_delivered(peer_id, inputs)[k].1),
    ensures
        k == replay_delivered(peer_id, inputs).len() - 1,
        !replay_running(peer_id, inputs + more),
        replay_delivered(peer_id, inputs + more) == replay_delivered(peer_id, inputs),
{
    lemma_delivered_failure_stops_task(peer_id, inputs, k);
    lemma_stopped_task_delivers_nothing(peer_id, inputs, more);
}

/// A shutdown ends the task: after it, whatever inputs follow, nothing more
/// is handed to the callback.
pub proof fn lemma_shutdown_ends_dispatch(
    peer_id: u128,
    inputs: Seq<DispatchInput>,
    more: Seq<DispatchInput>,
)
    ensures
        !replay_running(peer_id, inputs.push(DispatchInput::Shutdown) + more),
        replay_delivered(peer_id, inputs.push(DispatchInput::Shutdown) + more) == replay_delivered(
            peer_id,
            inputs,
        ),
{
    let stopped = inputs.push(DispatchInput::Shutdown);
    assert(stopped.drop_last() =~= inputs);
    lemma_stopped_task_delivers_nothing(peer_id, stopped, more);
}

/// Two peers sharing one callback do not mix: an event tagged with another
/// peer that reaches this peer's dispatcher, at any point, changes neither
/// what it delivers nor whether it runs.
pub proof fn lemma_foreign_event_changes_nothing(
    peer_id: u128,
    inputs: Seq<DispatchInput>,
    other: u128,
    event: PeerEvent,
    at: int,
)
    requires
        other != peer_id,
        0 <= at <= inputs.len(),
    ensures
        replay_running(peer_id, inputs.insert(at, DispatchInput::Event(other, event)))
            == replay_running(peer_id, inputs),
        replay_delivered(peer_id, inputs.insert(at, DispatchInput::Event(other, event)))
            == replay_delivered(peer_id, inputs),
    decreases inputs.len(),
{
    let foreign = DispatchInput::Event(other, event);
    let mixed = inputs.insert(at, foreign);
    if at == inputs.len() {
        assert(mixed.drop_last() =~= inputs);
        assert(mixed.last() == foreign);
    } else {
        let before = inputs.drop_last();
        lemma_foreign_event_changes_nothing(peer_id, before, other, event, at);
        assert(mixed.drop_last() =~= before.insert(at, foreign));
        assert(mixed.last() == inputs.last());
    }
}

/// The state of one peer's dispatch task.
pub struct Dispatcher {
    peer_id: u128,
    running: bool,
    inputs: Ghost<Seq<DispatchInput>>,
}

impl Dispatcher {
    /// The peer whose events the dispatcher delivers; it never changes.
    pub closed spec fn id(&self) -> u128 {
        self.peer_id
    }

    /// Whether the dispatcher still takes inputs.
    pub closed spec fn running(&self) -> bool {
        self.running
    }

    /// Every input the dispatcher has received, in order.
    pub closed spec fn history(&self) -> Seq<DispatchInput> {
        self.inputs@
    }

    /// The events handed to the callback so far, in order.
    pub open spec fn delivered(&self) -> Seq<(u128, PeerEvent)> {
        replay_delivered(self.id(), self.history())
    }

    #[verifier::type_invariant]
    spec fn wf(&self) -> bool {
        self.running == replay_running(self.peer_id, self.inputs@)
    }

    /// A dispatcher that has received nothing yet.
    pub fn new(peer_id: u128) -> (r: Dispatcher)
        ensures
            r.id() == peer_id,
            r.running(),
            r.history() == Seq::<DispatchInput>::empty(),
    {
        Dispatcher { peer_id, running: true, inputs: Ghost(Seq::empty()) }
    }

    pub fn peer_id(&self) -> (r: u128)
        ensures
            r == self.id(),
    {
        self.peer_id
    }

    pub fn is_running(&self) -> (r: bool)
        ensures
            r == self.running(),
    {
        self.running
    }

    /// Decides what to do with the next input.
    pub fn step(&mut self, input: DispatchInput) -> (r: DispatchStep)
        ensures
            final(self).id() == old(self).id(),
            final(self).history() == old(self).history().push(input),
            final(self).running() == running_after(old(self).id(), old(self).running(), input),
            r == step_of(old(self).id(), old(self).running(), input),
    {
        proof {
            use_type_invariant(&*self);
        }
        let ghost inputs = self.inputs@.push(input);
        let (running, r) = if !self.running {
            (false, DispatchStep::Stop)
        } else {
            match input {
                DispatchInput::Event(id, event) => {
                    if id == self.peer_id {
                        let failed = match &event {
                            PeerEvent::PeerConnectionStateChange(ConnectionState::Failed) => true,
                            _ => false,
                        };
                        (!failed, DispatchStep::Deliver(id, event))
                    } else {
                        (true, DispatchStep::Skip)
                    }
                },
                _ => (false, DispatchStep::Stop),
            }
        };
        proof {
            assert(inputs.drop_last() =~= self.inputs@);
        }
        *self = Dispatcher { peer_id: self.peer_id, running, inputs: Ghost(inputs) };
        r
    }
}

} // verus!
