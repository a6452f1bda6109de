//! The in-memory message broker: channel-pattern subscriptions with full
//! topic/queue delivery semantics, all inside one process.
//!
//! The registry and the broker configuration are explicit objects; a caller
//! constructs them once at start-up and passes them by reference.  Callers
//! that share them between threads guard each behind one exclusive lock, and
//! never hold the registry lock across handler execution: they `snapshot`
//! under the lock and dispatch over the snapshot (see `registry`).

use vstd::prelude::*;

pub use crate::channel::ChannelType;
pub use crate::channel::MessageChannel;
use crate::model::{EventHandler, RegistryError};
use crate::pattern::{compilable, spec_matcher_of, ChannelPattern, MatcherView, NameMatcher};
use crate::pattern::PatternView;
use crate::registry::{
    delivery_plan, id_views, EventHandlerRegistryImpl, SubscriptionView,
};
use crate::registry::remove_first_with_id;

verus! {

/// In-memory message broker configuration: the default channel and the
/// delivery mode.  `is_async` asks the embedding application to run handler
/// execution on a worker of its own so that an emit returns without waiting;
/// the delivery rules are the same either way.
pub struct MessageBrokerConfiguration {
    pub message_channel: MessageChannel,
    pub is_async: bool,
}

/// Broker configuration with its default channel compiled, held for the
/// lifetime of the broker; the pattern is compiled once here and never
/// re-parsed.
pub struct MessageBrokerConfigurationInternal {
    pub message_channel: ChannelPattern,
    pub is_async: bool,
}

/// Mathematical image of a compiled broker configuration.
#[verifier::ext_equal]
pub struct ConfigurationView {
    pub message_channel: PatternView,
    pub is_async: bool,
}

impl View for MessageBrokerConfigurationInternal {
    type V = ConfigurationView;

    open spec fn view(&self) -> ConfigurationView {
        ConfigurationView { message_channel: self.message_channel@, is_async: self.is_async }
    }
}

/// The configuration a broker starts out with: a match-all topic as the
/// default channel, synchronous delivery.
pub open spec fn initial_configuration() -> ConfigurationView {
    ConfigurationView {
        message_channel: PatternView {
            kind: ChannelType::TOPIC,
            matcher: MatcherView::MatchAll,
        },
        is_async: false,
    }
}

/// The image `configuration` compiles to when its channel name is
/// compilable.
pub open spec fn compiled_configuration(
    configuration: MessageBrokerConfiguration,
) -> ConfigurationView {
    ConfigurationView {
        message_channel: PatternView {
            kind: configuration.message_channel@.kind,
            matcher: spec_matcher_of(configuration.message_channel@.name),
        },
        is_async: configuration.is_async,
    }
}

impl MessageBrokerConfigurationInternal {
    /// The starting configuration.
    pub fn new() -> (r: Self)
        ensures
            r@ == initial_configuration(),
    {
        MessageBrokerConfigurationInternal {
            message_channel: ChannelPattern {
                channel_type: ChannelType::TOPIC,
                matcher: NameMatcher::MatchAll,
            },
            is_async: false,
        }
    }

    /// Compiles a configuration, failing exactly when its channel name does
    /// not compile.
    pub fn from(configuration: MessageBrokerConfiguration) -> (r: Result<Self, RegistryError>)
        ensures
            r is Ok <==> compilable(configuration.message_channel@.name),
            r is Ok ==> r->Ok_0@ == compiled_configuration(configuration),
            r is Err ==> r->Err_0 == RegistryError::InvalidPattern,
    {
        match ChannelPattern::compile(&configuration.message_channel) {
            Ok(pattern) => Ok(
                MessageBrokerConfigurationInternal {
                    message_channel: pattern,
                    is_async: configuration.is_async,
                },
            ),
            Err(e) => Err(e),
        }
    }

    /// Replaces this configuration with `configuration`.
    pub fn update(&mut self, configuration: MessageBrokerConfigurationInternal)
        ensures
            final(self)@ == configuration@,
    {
        self.message_channel = configuration.message_channel;
        self.is_async = configuration.is_async;
    }
}

/// Creates an in-memory message channel.
pub fn message_channel(channel_type: ChannelType, channel_name: &'static str) -> (r:
    MessageChannel)
    ensures
        r@.kind == channel_type,
        r@.name == channel_name@,
{
    MessageChannel { channel_type, name: channel_name }
}

/// Creates an in-memory message broker configuration.
pub fn configuration(
    channel_type: ChannelType,
    channel_name: &'static str,
    is_async: bool,
) -> (r: MessageBrokerConfiguration)
    ensures
        r.message_channel@.kind == channel_type,
        r.message_channel@.name == channel_name@,
        r.is_async == is_async,
{
    MessageBrokerConfiguration {
        message_channel: message_channel(channel_type, channel_name),
        is_async,
    }
}

/// Installs `configuration` as the broker's current one, compiling its
/// default channel.  Fails exactly when the channel name does not compile,
/// and then leaves the current configuration untouched: a failed setup never
/// partially applies.
pub fn setup(
    current: &mut MessageBrokerConfigurationInternal,
    configuration: MessageBrokerConfiguration,
) -> (r: Result<(), RegistryError>)
    ensures
        r is Ok <==> compilable(configuration.message_channel@.name),
        r is Ok ==> final(current)@ == compiled_configuration(configuration),
        r is Err ==> final(current)@ == old(current)@ && r->Err_0 == RegistryError::InvalidPattern,
{
    match MessageBrokerConfigurationInternal::from(configuration) {
        Ok(compiled) => {
            current.update(compiled);
            Ok(())
        },
        Err(e) => Err(e),
    }
}

/// Registers an event handler under a channel pattern, returning the
/// identity it was registered under.  Fails exactly when the pattern name
/// does not compile; a failed registration never partially registers, and no
/// handler is invoked as a side effect.
pub fn register<H: EventHandler>(
    registry: &mut EventHandlerRegistryImpl<H>,
    message_channel: MessageChannel,
    event_handler: H,
) -> (r: Result<String, RegistryError>)
    ensures
        match r {
            Ok(id) => compilable(message_channel@.name) && final(registry)@ == old(
                registry,
            )@.push(
                SubscriptionView {
                    pattern: PatternView {
                        kind: message_channel@.kind,
                        matcher: spec_matcher_of(message_channel@.name),
                    },
                    handler_id: id@,
                },
            ),
            Err(e) => !compilable(message_channel@.name) && e == RegistryError::InvalidPattern
                && final(registry)@ == old(registry)@,
        },
{
    registry.register(message_channel, event_handler)
}

/// Unregisters the earliest subscription carrying `handler_id`; a no-op,
/// not an error, when none does, so a second call is harmless.
pub fn unregister<H: EventHandler>(registry: &mut EventHandlerRegistryImpl<H>, handler_id: &str)
    ensures
        final(registry)@ == remove_first_with_id(old(registry)@, handler_id@),
{
    registry.unregister(handler_id)
}

/// Emits an event without a target channel: every registered handler
/// receives it once, in registration order, whatever the patterns say.
/// Returns the invoked handler identities in invocation order.
pub fn emit<H: EventHandler>(registry: &EventHandlerRegistryImpl<H>, event: &H::Ev) -> (r: Vec<
    String,
>)
    ensures
        id_views(r@) == delivery_plan(registry@, Option::None),
{
    registry.emit(event, None)
}

/// Emits an event to a channel: on a topic every matching handler receives
/// it, in registration order; on a queue only the earliest-registered
/// matching one does.  Returns the invoked handler identities in invocation
/// order.
pub fn emit_to_channel<H: EventHandler>(
    registry: &EventHandlerRegistryImpl<H>,
    event: &H::Ev,
    channel: MessageChannel,
) -> (r: Vec<String>)
    ensures
        id_views(r@) == delivery_plan(registry@, Option::Some(channel@)),
{
    registry.emit(event, Some(channel))
}

} // verus!
