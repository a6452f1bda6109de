//! The asynchronous in-memory broker flavour: handlers are registered
//! without name matching and every emit is a broadcast to all of them, in
//! registration order.  The embedding application runs delivery on a worker
//! of its own so that an emit returns to the caller without waiting; within
//! one emit the ordering rules still hold.

use vstd::prelude::*;

pub use crate::channel::ChannelType;
pub use crate::channel::MessageChannel;
use crate::channel::ChannelView;
use crate::model::EventHandler;
use crate::pattern::{MatcherView, PatternView};
use crate::registry::{delivery_plan, id_views, EventHandlerRegistryImpl, SubscriptionView};

verus! {

/// Configuration of the asynchronous in-memory broker: the default channel
/// and whether registrations outlive the broker's restarts (`durable` is
/// recorded for the embedding application; the dispatch core itself keeps
/// nothing across restarts).
pub struct MessageBrokerConfiguration {
    message_channel: MessageChannel,
    durable: bool,
}

/// Mathematical image of an asynchronous broker configuration.
#[verifier::ext_equal]
pub struct ConfigurationView {
    pub message_channel: ChannelView,
    pub durable: bool,
}

impl View for MessageBrokerConfiguration {
    type V = ConfigurationView;

    closed spec fn view(&self) -> ConfigurationView {
        ConfigurationView { message_channel: self.message_channel@, durable: self.durable }
    }
}

impl MessageBrokerConfiguration {
    /// The configuration a broker starts out with: a match-all topic,
    /// not durable.
    pub fn new() -> (r: Self)
        ensures
            r@.message_channel.kind == ChannelType::TOPIC,
            r@.message_channel.name == "*"@,
            !r@.durable,
    {
        MessageBrokerConfiguration { message_channel: MessageChannel::new(), durable: false }
    }

    /// Replaces this configuration with `configuration`.
    pub fn update(&mut self, configuration: MessageBrokerConfiguration)
        ensures
            final(self)@ == configuration@,
    {
        self.message_channel = configuration.message_channel;
        self.durable = configuration.durable;
    }
}

/// Creates a message channel.
pub fn message_channel(channel_type: ChannelType, channel_name: &'static str) -> (r:
    MessageChannel)
    ensures
        r@.kind == channel_type,
        r@.name == channel_name@,
{
    MessageChannel { channel_type, name: channel_name }
}

/// Creates an asynchronous broker configuration.
pub fn configuration(
    channel_type: ChannelType,
    channel_name: &'static str,
    durable: bool,
) -> (r: MessageBrokerConfiguration)
    ensures
        r@.message_channel.kind == channel_type,
        r@.message_channel.name == channel_name@,
        r@.durable == durable,
{
    MessageBrokerConfiguration {
        message_channel: message_channel(channel_type, channel_name),
        durable,
    }
}

/// Installs `configuration` as the broker's current one.  The channel is
/// stored as given; this flavour never parses names.
pub fn setup(
    current: &mut MessageBrokerConfiguration,
    configuration: MessageBrokerConfiguration,
)
    ensures
        final(current)@ == configuration@,
{
    current.update(configuration)
}

/// Registers an event handler, returning the identity it was registered
/// under.  The channel's name is not consulted: the subscription receives
/// every event this flavour emits.
pub fn register<H: EventHandler>(
    registry: &mut EventHandlerRegistryImpl<H>,
    message_channel: MessageChannel,
    event_handler: H,
) -> (r: String)
    ensures
        final(registry)@ == old(registry)@.push(
            SubscriptionView {
                pattern: PatternView {
                    kind: message_channel@.kind,
                    matcher: MatcherView::MatchAll,
                },
                handler_id: r@,
            },
        ),
{
    registry.register_match_all(message_channel.channel_type, event_handler)
}

/// Emits an event: every registered handler receives it once, in
/// registration order.  Returns the invoked handler identities in
/// invocation order.
pub fn emit<H: EventHandler>(registry: &EventHandlerRegistryImpl<H>, event: &H::Ev) -> (r: Vec<
    String,
>)
    ensures
        id_views(r@) == delivery_plan(registry@, Option::None),
{
    registry.emit(event, None)
}

} // verus!
