//! The plain synchronous in-memory broker flavour: handlers are registered
//! without any channel and every emit is a broadcast to all of them, in
//! registration order.

use vstd::prelude::*;

use crate::channel::ChannelType;
use crate::model::EventHandler;
use crate::pattern::{MatcherView, PatternView};
use crate::registry::{delivery_plan, id_views, EventHandlerRegistryImpl, SubscriptionView};

verus! {

/// Registers an event handler, returning the identity it was registered
/// under.  The subscription receives every event this flavour emits.
pub fn register<H: EventHandler>(registry: &mut EventHandlerRegistryImpl<H>, event_handler: H) -> (
    r: String)
    ensures
        final(registry)@ == old(registry)@.push(
            SubscriptionView {
                pattern: PatternView {
                    kind: ChannelType::TOPIC,
                    matcher: MatcherView::MatchAll,
                },
                handler_id: r@,
            },
        ),
{
    registry.register_match_all(ChannelType::TOPIC, event_handler)
}

/// Emits an event: every registered handler receives it once, in
/// registration order.  Returns the invoked handler identities in
/// invocation order.
pub fn emit<H: EventHandler>(registry: &EventHandlerRegistryImpl<H>, event: &H::Ev) -> (r: Vec<
    String,
>)
    ensures
        id_views(r@) == delivery_plan(registry@, Option::None),
{
    registry.emit(event, None)
}

} // verus!
