//! Client-side concurrency and lifecycle core of an AMQP 0-9-1 connection
//! handle.
//!
//! One background engine thread owns the socket exclusively; every foreground
//! caller coordinates with it purely by message passing. This crate holds the
//! verified core of that arrangement: the connection handle's open/close
//! lifecycle with its exactly-once join protocol, the delivered-message
//! acknowledgment protocol with its channel-affinity invariant, the engine's
//! control-plane state machine (channel-id allocation, blocked-listener
//! registration, terminal-failure recording), and the shared error taxonomy
//! that reaches every affected caller without loss.

mod connection;
mod delivery;
mod engine;
mod errors;
mod messaging;
mod tuning;

pub use connection::Channel;
pub use connection::Channel0Handle;
pub use connection::Connection;
pub use connection::finish_join;
pub use connection::interpret_open_reply;
pub use delivery::Delivery;
pub use engine::ConnectionBlockedNotification;
pub use engine::Engine;
pub use engine::EngineEvent;
pub use engine::EngineRequest;
pub use engine::EngineTermination;
pub use engine::OutboundFrame;
pub use errors::Error;
pub use errors::ErrorKind;
pub use tuning::ConnectionTuning;
