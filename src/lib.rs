//! Bridge from hardware input-line transitions to broker messages.
//!
//! The library holds the decisions of the bridge: which producers run, how a
//! watcher turns a hardware reading into an event, how a pin name is resolved,
//! and how the publisher renders each event into a message.
pub mod config;
pub mod event;
pub mod publisher;
pub mod watcher;
pub mod wiring;
