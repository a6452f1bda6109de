//! Channels: the addressable scopes that events are emitted to and that
//! subscriptions are registered under.

use vstd::prelude::*;

verus! {

/// Whether a channel broadcasts to every matching subscriber (a topic) or
/// hands each event to exactly one competing consumer (a queue).
#[derive(Clone, Copy, PartialEq, Eq, Structural, Debug)]
pub enum ChannelType {
    TOPIC,
    QUEUE,
}

/// An addressable channel: a kind together with a name.  As the target of an
/// emit the name names one channel; inside a subscription it is read as a
/// pattern (see `pattern`).
#[derive(Clone, Copy, Debug)]
pub struct MessageChannel {
    pub channel_type: ChannelType,
    pub name: &'static str,
}

/// Mathematical image of a channel: its kind and its name as a sequence of
/// characters.
#[verifier::ext_equal]
pub struct ChannelView {
    pub kind: ChannelType,
    pub name: Seq<char>,
}

impl View for MessageChannel {
    type V = ChannelView;

    open spec fn view(&self) -> ChannelView {
        ChannelView { kind: self.channel_type, name: self.name@ }
    }
}

impl MessageChannel {
    /// The channel a broker starts out with: a topic reaching every name.
    pub fn new() -> (r: MessageChannel)
        ensures
            r@ == (ChannelView { kind: ChannelType::TOPIC, name: "*"@ }),
    {
        MessageChannel { channel_type: ChannelType::TOPIC, name: "*" }
    }

    /// Replaces this channel with `message_channel`.
    pub fn update(&mut self, message_channel: MessageChannel)
        ensures
            final(self)@ == message_channel@,
    {
        self.channel_type = message_channel.channel_type;
        self.name = message_channel.name;
    }
}

} // verus!
