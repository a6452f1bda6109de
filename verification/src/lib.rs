//! An in-process publish/subscribe dispatch core.
//!
//! Producers emit events; consumers register handlers under channel patterns.
//! The registry keeps subscriptions in registration order, and the dispatcher
//! delivers each emitted event to the matching handlers: every one of them on
//! a topic (broadcast), only the earliest-registered one on a queue
//! (competing consumers).

pub mod channel;
pub mod iggy;
pub mod in_memory;
pub mod in_memory_async;
pub mod inmemory_sync;
pub mod kafka;
pub mod laws;
pub mod model;
pub mod pattern;
pub mod registry;
