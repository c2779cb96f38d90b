use vstd::prelude::*;

verus! {

/// The failures that the peer layer reports to its callers.
#[derive(Clone, Copy, Debug, PartialEq, Eq, Structural)]
pub enum PeerError {
    /// The WebRTC engine or the peer connection could not be built.
    EngineInit,
    /// A signaling token is not valid base64, or does not decode to UTF-8 text.
    BadEnvelope,
    /// A session description could not be read, written, set or generated.
    SdpFailure,
    /// The engine refused to open a data channel.
    ChannelCreate,
    /// The shutdown signal could not be delivered to the dispatch task.
    ShutdownFailed,
    /// A send on a data channel failed.
    SendFailure,
}

} // verus!
