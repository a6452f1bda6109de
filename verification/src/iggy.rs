//! Iggy broker configuration: the stream/topic/partition coordinates an
//! Iggy adapter publishes to, and the server it connects to.  The transport
//! itself lives with the embedding application.

use vstd::prelude::*;

verus! {

/// An Iggy message channel: stream, topic and partition identifiers.
pub struct MessageChannel {
    pub stream_id: u32,
    pub topic_id: u32,
    pub partition_id: u32,
}

/// Iggy message broker configuration.
pub struct MessageBrokerConfiguration {
    pub message_channel: MessageChannel,
    pub server: &'static str,
}

/// Creates an Iggy message channel.
pub fn message_channel(stream_id: u32, topic_id: u32, partition_id: u32) -> (r: MessageChannel)
    ensures
        r.stream_id == stream_id,
        r.topic_id == topic_id,
        r.partition_id == partition_id,
{
    MessageChannel { stream_id, topic_id, partition_id }
}

/// Creates an Iggy broker configuration.
pub fn configuration(server: &'static str, message_channel: MessageChannel) -> (r:
    MessageBrokerConfiguration)
    ensures
        r.message_channel.stream_id == message_channel.stream_id,
        r.message_channel.topic_id == message_channel.topic_id,
        r.message_channel.partition_id == message_channel.partition_id,
        r.server@ == server@,
{
    MessageBrokerConfiguration { message_channel, server }
}

} // verus!
