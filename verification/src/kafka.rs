//! Kafka broker configuration.  The library holds and checks the values a
//! Kafka adapter runs on — channel, servers, timeouts; the wire-level
//! producing and consuming itself is network I/O and lives with the
//! embedding application.

use vstd::prelude::*;

verus! {

/// A Kafka message channel: topic, partition and consumer group.
pub struct MessageChannel {
    pub topic: &'static str,
    pub partition: u16,
    pub group_id: &'static str,
}

/// Kafka message broker configuration.
pub struct MessageBrokerConfiguration {
    pub message_channel: MessageChannel,
    pub bootstrap_servers: &'static str,
    pub topic_auto_create_enabled: bool,
    pub auto_commit_enabled: bool,
    pub timeout: u32,
}

/// Creates a Kafka message channel.
pub fn message_channel(topic: &'static str, partition: u16, group_id: &'static str) -> (r:
    MessageChannel)
    ensures
        r.topic@ == topic@,
        r.partition == partition,
        r.group_id@ == group_id@,
{
    MessageChannel { topic, partition, group_id }
}

/// Creates a Kafka broker configuration with the stock defaults: the
/// `default` consumer group on a local broker, automatic commits, a ten
/// second timeout, and no topic auto-creation.
pub fn configuration(topic: &'static str, partition: u16) -> (r: MessageBrokerConfiguration)
    ensures
        r.message_channel.topic@ == topic@,
        r.message_channel.partition == partition,
        r.message_channel.group_id@ == "default"@,
        r.bootstrap_servers@ == "localhost:9092"@,
        !r.topic_auto_create_enabled,
        r.auto_commit_enabled,
        r.timeout == 10000,
{
    MessageBrokerConfiguration {
        message_channel: message_channel(topic, partition, "default"),
        bootstrap_servers: "localhost:9092",
        topic_auto_create_enabled: false,
        auto_commit_enabled: true,
        timeout: 10000,
    }
}

/// A Kafka channel as the broker holds it for its lifetime.
pub struct MessageChannelInternal {
    pub topic: &'static str,
    pub partition: u16,
    pub group_id: &'static str,
}

/// Kafka configuration as the broker holds it for its lifetime.
pub struct MessageBrokerConfigurationInternal {
    pub message_channel: MessageChannelInternal,
    pub bootstrap_servers: &'static str,
    pub topic_auto_create_enabled: bool,
    pub auto_commit_enabled: bool,
    pub timeout: u32,
}

impl MessageChannelInternal {
    /// The channel a broker starts out with: the `default` topic and group
    /// on partition zero.
    pub fn new() -> (r: Self)
        ensures
            r.topic@ == "default"@,
            r.partition == 0,
            r.group_id@ == "default"@,
    {
        MessageChannelInternal { topic: "default", partition: 0, group_id: "default" }
    }

    /// Takes a public channel in.
    pub fn from(message_channel: MessageChannel) -> (r: Self)
        ensures
            r.topic@ == message_channel.topic@,
            r.partition == message_channel.partition,
            r.group_id@ == message_channel.group_id@,
    {
        MessageChannelInternal {
            topic: message_channel.topic,
            partition: message_channel.partition,
            group_id: message_channel.group_id,
        }
    }
}

impl MessageBrokerConfigurationInternal {
    /// The configuration a broker starts out with: a local broker,
    /// automatic commits, and no timeout.
    pub fn new() -> (r: Self)
        ensures
            r.message_channel.topic@ == "default"@,
            r.message_channel.partition == 0,
            r.message_channel.group_id@ == "default"@,
            r.bootstrap_servers@ == "localhost:9092"@,
            !r.topic_auto_create_enabled,
            r.auto_commit_enabled,
            r.timeout == 0,
    {
        MessageBrokerConfigurationInternal {
            message_channel: MessageChannelInternal::new(),
            bootstrap_servers: "localhost:9092",
            topic_auto_create_enabled: false,
            auto_commit_enabled: true,
            timeout: 0,
        }
    }

    /// Takes a public configuration in.
    pub fn from(configuration: MessageBrokerConfiguration) -> (r: Self)
        ensures
            r.message_channel.topic@ == configuration.message_channel.topic@,
            r.message_channel.partition == configuration.message_channel.partition,
            r.message_channel.group_id@ == configuration.message_channel.group_id@,
            r.bootstrap_servers@ == configuration.bootstrap_servers@,
            r.topic_auto_create_enabled == configuration.topic_auto_create_enabled,
            r.auto_commit_enabled == configuration.auto_commit_enabled,
            r.timeout == configuration.timeout,
    {
        MessageBrokerConfigurationInternal {
            message_channel: MessageChannelInternal::from(configuration.message_channel),
            bootstrap_servers: configuration.bootstrap_servers,
            topic_auto_create_enabled: configuration.topic_auto_create_enabled,
            auto_commit_enabled: configuration.auto_commit_enabled,
            timeout: configuration.timeout,
        }
    }

    /// Takes over every field of `configuration` but `auto_commit_enabled`,
    /// which keeps its current value.
    pub fn update(&mut self, configuration: MessageBrokerConfigurationInternal)
        ensures
            final(self).message_channel.topic@ == configuration.message_channel.topic@,
            final(self).message_channel.partition == configuration.message_channel.partition,
            final(self).message_channel.group_id@ == configuration.message_channel.group_id@,
            final(self).bootstrap_servers@ == configuration.bootstrap_servers@,
            final(self).topic_auto_create_enabled == configuration.topic_auto_create_enabled,
            final(self).auto_commit_enabled == old(self).auto_commit_enabled,
            final(self).timeout == configuration.timeout,
    {
        self.message_channel = configuration.message_channel;
        self.bootstrap_servers = configuration.bootstrap_servers;
        self.topic_auto_create_enabled = configuration.topic_auto_create_enabled;
        self.timeout = configuration.timeout;
    }
}

/// Installs `configuration` as the broker's current one; the current
/// automatic-commit choice is kept.
pub fn setup(
    current: &mut MessageBrokerConfigurationInternal,
    configuration: MessageBrokerConfiguration,
)
    ensures
        final(current).message_channel.topic@ == configuration.message_channel.topic@,
        final(current).message_channel.partition == configuration.message_channel.partition,
        final(current).message_channel.group_id@ == configuration.message_channel.group_id@,
        final(current).bootstrap_servers@ == configuration.bootstrap_servers@,
        final(current).topic_auto_create_enabled == configuration.topic_auto_create_enabled,
        final(current).auto_commit_enabled == old(current).auto_commit_enabled,
        final(current).timeout == configuration.timeout,
{
    let compiled = MessageBrokerConfigurationInternal::from(configuration);
    current.update(compiled);
}

/// Marker for driving the Kafka client on the smol executor.  The runtime
/// adapter trait of the Kafka client crate is implemented on the embedding
/// application's twin of this type; the dispatch core itself never spawns.
pub struct SmolRuntime;

} // verus!
