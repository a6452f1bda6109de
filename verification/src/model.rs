//! The event and handler capability model shared by every broker flavour.

use vstd::prelude::*;

verus! {

/// A domain fact carried through the broker: an identity and a logical type
/// tag.  The payload is the concrete type's own business; the dispatch core
/// never reads it and never stores an event beyond one emit call.
pub trait Event {
    /// Identity, unique per event instance.
    fn id(&self) -> &str;

    /// Logical type tag of the event.
    fn name(&self) -> &str;
}

/// A consumer of events.  `Ev` is the event type the handler understands; a
/// handler serving several logical kinds makes `Ev` an enum and narrows
/// inside `handle`, treating an unknown variant as a normal no-op rather
/// than a failure.
pub trait EventHandler {
    type Ev: Event;

    /// Processes one event.  Side effects are the handler's own.
    fn handle(&self, event: &Self::Ev);

    /// Stable identity used for unregistration; unique per logical handler
    /// instance.  Registering one logical handler under a fresh identity
    /// creates an independent subscription.
    fn id(&self) -> String;
}

/// Why a broker operation was refused.
#[derive(Clone, Copy, PartialEq, Eq, Structural, Debug)]
pub enum RegistryError {
    /// A channel-pattern name failed to compile; raised from registration or
    /// configuration, never at match time.
    InvalidPattern,
}

} // verus!
