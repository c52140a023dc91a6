//! Session and broadcast core of a real-time binary media relay.
//!
//! One publisher per stream pushes opaque binary frames; any number of viewers
//! attach to the stream and receive the frames as they arrive. This crate holds
//! the registry of live streams, the admission rules that bound streams and
//! viewers, and the state machines that drive a publisher and a viewer
//! connection. Transport, encoding and process set-up belong to the caller.

pub mod admission;
pub mod channel;
pub mod config;
pub mod publisher;
pub mod registry;
pub mod rejection;
pub mod relay;
pub mod session;
pub mod transport;
pub mod viewer;
pub mod wire;
