//! Construction and installation of the broker configurations of every
//! flavour.

use std::cell::RefCell;
use std::rc::Rc;

use eventure::iggy;
use eventure::in_memory;
use eventure::in_memory::ChannelType;
use eventure::in_memory_async;
use eventure::kafka;
use eventure::model::{Event, EventHandler, RegistryError};
use eventure::registry::EventHandlerRegistryImpl;

struct PlainEvent {
    event_id: String,
}

impl Event for PlainEvent {
    fn id(&self) -> &str {
        &self.event_id[..]
    }
    fn name(&self) -> &str {
        "PlainEvent"
    }
}

#[derive(Clone)]
struct CountingHandler {
    handler_id: String,
    count: Rc<RefCell<usize>>,
}

impl EventHandler for CountingHandler {
    type Ev = PlainEvent;

    fn handle(&self, _event: &PlainEvent) {
        *self.count.borrow_mut() += 1;
    }

    fn id(&self) -> String {
        self.handler_id.clone()
    }
}

#[test]
fn in_memory_message_channel_carries_its_fields() {
    let channel = in_memory::message_channel(ChannelType::TOPIC, "Orders");
    assert_eq!(channel.channel_type, ChannelType::TOPIC);
    assert_eq!(channel.name, "Orders");
}

#[test]
fn in_memory_configuration_carries_its_fields() {
    let configuration = in_memory::configuration(ChannelType::TOPIC, ".*", false);
    assert_eq!(configuration.message_channel.channel_type, ChannelType::TOPIC);
    assert_eq!(configuration.message_channel.name, ".*");
    assert!(!configuration.is_async);
}

#[test]
fn in_memory_setup_compiles_and_installs() {
    let mut current = in_memory::MessageBrokerConfigurationInternal::new();
    assert!(!current.is_async);

    let configuration = in_memory::configuration(ChannelType::QUEUE, ".*", true);
    assert_eq!(in_memory::setup(&mut current, configuration), Ok(()));
    assert!(current.is_async);
    assert_eq!(current.message_channel.channel_type, ChannelType::QUEUE);
}

#[test]
fn in_memory_setup_refuses_an_invalid_default_channel() {
    let mut current = in_memory::MessageBrokerConfigurationInternal::new();
    let configuration = in_memory::configuration(ChannelType::QUEUE, "(unclosed", true);
    assert_eq!(
        in_memory::setup(&mut current, configuration),
        Err(RegistryError::InvalidPattern)
    );
    // The failed setup left the current configuration untouched.
    assert!(!current.is_async);
    assert_eq!(current.message_channel.channel_type, ChannelType::TOPIC);
}

#[test]
fn async_flavour_broadcasts_to_every_handler() {
    let mut registry: EventHandlerRegistryImpl<CountingHandler> = EventHandlerRegistryImpl::new();
    let count = Rc::new(RefCell::new(0));
    let channel = in_memory_async::message_channel(ChannelType::TOPIC, "Orders");
    let id = in_memory_async::register(
        &mut registry,
        channel,
        CountingHandler { handler_id: String::from("c1"), count: Rc::clone(&count) },
    );
    assert_eq!(id, "c1");
    in_memory_async::register(
        &mut registry,
        in_memory_async::message_channel(ChannelType::QUEUE, "(not parsed here"),
        CountingHandler { handler_id: String::from("c2"), count: Rc::clone(&count) },
    );

    let invoked = in_memory_async::emit(&registry, &PlainEvent { event_id: String::from("e") });
    assert_eq!(invoked, vec!["c1", "c2"]);
    assert_eq!(*count.borrow(), 2);
}

#[test]
fn async_configuration_updates_in_place() {
    let mut current = in_memory_async::MessageBrokerConfiguration::new();
    let configuration = in_memory_async::configuration(ChannelType::QUEUE, "Orders", true);
    in_memory_async::setup(&mut current, configuration);
    let replacement = in_memory_async::configuration(ChannelType::TOPIC, "Accounts", false);
    current.update(replacement);
}

#[test]
fn default_message_channel_is_a_match_all_topic() {
    let mut channel = in_memory_async::MessageChannel::new();
    assert_eq!(channel.channel_type, ChannelType::TOPIC);
    assert_eq!(channel.name, "*");

    channel.update(in_memory_async::message_channel(ChannelType::QUEUE, "Orders"));
    assert_eq!(channel.channel_type, ChannelType::QUEUE);
    assert_eq!(channel.name, "Orders");
}

#[test]
fn kafka_message_channel_carries_its_fields() {
    let channel = kafka::message_channel("Orders", 3, "consumer_group");
    assert_eq!(channel.topic, "Orders");
    assert_eq!(channel.partition, 3);
    assert_eq!(channel.group_id, "consumer_group");
}

#[test]
fn kafka_configuration_uses_the_stock_defaults() {
    let configuration = kafka::configuration("Orders", 0);
    assert_eq!(configuration.message_channel.topic, "Orders");
    assert_eq!(configuration.message_channel.partition, 0);
    assert_eq!(configuration.message_channel.group_id, "default");
    assert_eq!(configuration.bootstrap_servers, "localhost:9092");
    assert!(!configuration.topic_auto_create_enabled);
    assert!(configuration.auto_commit_enabled);
    assert_eq!(configuration.timeout, 10000);
}

#[test]
fn kafka_setup_keeps_the_commit_choice() {
    let mut current = kafka::MessageBrokerConfigurationInternal::new();
    assert_eq!(current.timeout, 0);
    assert!(current.auto_commit_enabled);

    let mut fresh = kafka::configuration("Orders", 1);
    fresh.auto_commit_enabled = false;
    fresh.bootstrap_servers = "broker:9092";
    kafka::setup(&mut current, fresh);

    assert_eq!(current.message_channel.topic, "Orders");
    assert_eq!(current.message_channel.partition, 1);
    assert_eq!(current.bootstrap_servers, "broker:9092");
    assert_eq!(current.timeout, 10000);
    // The automatic-commit choice of the running broker is kept.
    assert!(current.auto_commit_enabled);
}

#[test]
fn iggy_constructors_carry_their_fields() {
    let channel = iggy::message_channel(7, 2, 5);
    assert_eq!(channel.stream_id, 7);
    assert_eq!(channel.topic_id, 2);
    assert_eq!(channel.partition_id, 5);

    let configuration = iggy::configuration("localhost:8090", iggy::message_channel(1, 1, 1));
    assert_eq!(configuration.server, "localhost:8090");
    assert_eq!(configuration.message_channel.stream_id, 1);
}
