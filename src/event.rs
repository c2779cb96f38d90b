//! The events a peer hands to its callback, and the bridge that turns the
//! engine's callbacks into them.
use vstd::prelude::*;

use std::sync::Arc;
use webrtc::data_channel::data_channel_message::DataChannelMessage;
use webrtc::data_channel::RTCDataChannel;

verus! {

#[verifier::external_type_specification]
#[verifier::external_body]
pub struct ExRTCDataChannel(RTCDataChannel);

#[verifier::external_type_specification]
#[verifier::external_body]
pub struct ExDataChannelMessage(DataChannelMessage);

/// A data channel, shared with the engine.
pub type DataChannel = Arc<RTCDataChannel>;

/// The state of a peer connection, as the engine reports it.
#[derive(Clone, Copy, Debug, PartialEq, Eq, Structural)]
pub enum ConnectionState {
    Unspecified,
    New,
    Connecting,
    Connected,
    Disconnected,
    Failed,
    Closed,
}

/// What a peer reports to its callback.
pub enum PeerEvent {
    /// The peer connection moved to a new state.
    PeerConnectionStateChange(ConnectionState),
    /// A data channel opened by the remote side opened or closed; its ready
    /// state tells which.
    DataChannelStateChange(DataChannel),
    /// A message arrived on a data channel.
    DataChannelMessage(DataChannel, DataChannelMessage),
}

/// Whether the event reports that the connection failed.
pub open spec fn is_failure(event: PeerEvent) -> bool {
    event matches PeerEvent::PeerConnectionStateChange(ConnectionState::Failed)
}

/// What the bridge makes of a connection state change: the event to queue,
/// and whether the dispatch task must be told to shut down.
pub struct StateChangeForward {
    pub event: (u128, PeerEvent),
    pub fire_shutdown: bool,
}

/// Turns the engine's callbacks for one peer into events tagged with that
/// peer's identifier.
#[derive(Clone, Copy)]
pub struct EventBridge {
    pub peer_id: u128,
}

impl EventBridge {
    pub fn new(peer_id: u128) -> (r: EventBridge)
        ensures
            r.peer_id == peer_id,
    {
        EventBridge { peer_id }
    }

    /// The connection changed state. A failure also shuts the dispatch task
    /// down; no other state does, `Closed` included.
    pub fn state_change(&self, state: ConnectionState) -> (r: StateChangeForward)
        ensures
            r.event == (self.peer_id, PeerEvent::PeerConnectionStateChange(state)),
            r.fire_shutdown == (state == ConnectionState::Failed),
    {
        let fire_shutdown = match state {
            ConnectionState::Failed => true,
            _ => false,
        };
        StateChangeForward {
            event: (self.peer_id, PeerEvent::PeerConnectionStateChange(state)),
            fire_shutdown,
        }
    }

    /// A data channel opened or closed.
    pub fn channel_state_change(&self, channel: DataChannel) -> (r: (u128, PeerEvent))
        ensures
            r == (self.peer_id, PeerEvent::DataChannelStateChange(channel)),
    {
        (self.peer_id, PeerEvent::DataChannelStateChange(channel))
    }

    /// A message arrived on a data channel.
    pub fn channel_message(&self, channel: DataChannel, message: DataChannelMessage) -> (r: (
        u128,
        PeerEvent,
    ))
        ensures
            r == (self.peer_id, PeerEvent::DataChannelMessage(channel, message)),
    {
        (self.peer_id, PeerEvent::DataChannelMessage(channel, message))
    }
}

} // verus!
