//! A transparent relay between an already-upgraded client socket session and
//! an upstream realtime socket service.
//!
//! The crate holds the relay's logic: the two frame vocabularies and the
//! structural adapters between them, the per-direction forwarding state
//! machines with their race-and-cancel shutdown protocol, the upstream
//! handshake request, and the facade decisions. The sockets themselves —
//! accepting the client, performing the upstream handshake, reading and
//! writing frames — belong to the caller, which drives these state machines
//! with the events it observes.

pub mod connector;
pub mod message;
pub mod proxy;
pub mod relay;

pub use message::CloseBody;
pub use message::DownMessage;
pub use message::UpMessage;
pub use proxy::Proxy;
