//! A peer on top of a WebRTC stack: signaling tokens, configuration, and the
//! pipeline that carries the stack's callbacks to one user callback.
pub mod codec;
pub mod config;
pub mod dispatch;
pub mod error;
pub mod event;
pub mod peer;
pub mod session;
pub mod shutdown;
