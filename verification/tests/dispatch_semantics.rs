//! Delivery semantics of the in-memory broker, observed through handlers
//! that record every invocation.

use std::cell::RefCell;
use std::rc::Rc;

use eventure::in_memory;
use eventure::in_memory::{ChannelType, MessageChannel};
use eventure::model::{Event, EventHandler, RegistryError};
use eventure::registry::{dispatch, EventHandlerRegistryImpl};

struct TestEvent {
    event_id: String,
    tag: String,
}

impl TestEvent {
    fn new(event_id: &str, tag: &str) -> TestEvent {
        TestEvent { event_id: String::from(event_id), tag: String::from(tag) }
    }
}

impl Event for TestEvent {
    fn id(&self) -> &str {
        &self.event_id[..]
    }
    fn name(&self) -> &str {
        &self.tag[..]
    }
}

#[derive(Clone)]
struct RecordingHandler {
    handler_id: String,
    log: Rc<RefCell<Vec<String>>>,
}

impl RecordingHandler {
    fn new(handler_id: &str, log: &Rc<RefCell<Vec<String>>>) -> RecordingHandler {
        RecordingHandler { handler_id: String::from(handler_id), log: Rc::clone(log) }
    }
}

impl EventHandler for RecordingHandler {
    type Ev = TestEvent;

    fn handle(&self, _event: &TestEvent) {
        self.log.borrow_mut().push(self.handler_id.clone());
    }

    fn id(&self) -> String {
        self.handler_id.clone()
    }
}

fn fresh() -> (EventHandlerRegistryImpl<RecordingHandler>, Rc<RefCell<Vec<String>>>) {
    (EventHandlerRegistryImpl::new(), Rc::new(RefCell::new(Vec::new())))
}

fn topic(name: &'static str) -> MessageChannel {
    MessageChannel { channel_type: ChannelType::TOPIC, name }
}

fn queue(name: &'static str) -> MessageChannel {
    MessageChannel { channel_type: ChannelType::QUEUE, name }
}

#[test]
fn broadcast_reaches_every_handler_once() {
    let (mut registry, log) = fresh();
    in_memory::register(&mut registry, topic("Orders"), RecordingHandler::new("h1", &log))
        .unwrap();
    in_memory::register(&mut registry, queue("Accounts"), RecordingHandler::new("h2", &log))
        .unwrap();
    in_memory::register(&mut registry, topic("Nothing.Matches.This"), RecordingHandler::new(
        "h3", &log,
    ))
    .unwrap();

    let invoked = in_memory::emit(&registry, &TestEvent::new("e1", "Anything"));
    assert_eq!(invoked, vec!["h1", "h2", "h3"]);
    assert_eq!(*log.borrow(), vec!["h1", "h2", "h3"]);
}

#[test]
fn topic_pattern_is_found_anywhere_in_the_name() {
    let (mut registry, log) = fresh();
    in_memory::register(&mut registry, topic("Order.*"), RecordingHandler::new("h", &log))
        .unwrap();

    let invoked =
        in_memory::emit_to_channel(&registry, &TestEvent::new("e1", "T"), topic("Orders"));
    assert_eq!(invoked, vec!["h"]);

    let invoked =
        in_memory::emit_to_channel(&registry, &TestEvent::new("e2", "T"), topic("Accounts"));
    assert!(invoked.is_empty());
    assert_eq!(*log.borrow(), vec!["h"]);
}

#[test]
fn anchored_pattern_respects_its_anchor() {
    // Also guards the regex glue: if matching ignored the compiled pattern
    // or the haystack, one of these two would come out wrong.
    let (mut registry, log) = fresh();
    in_memory::register(&mut registry, topic("^Ord"), RecordingHandler::new("h", &log)).unwrap();

    let invoked =
        in_memory::emit_to_channel(&registry, &TestEvent::new("e1", "T"), topic("Orders"));
    assert_eq!(invoked, vec!["h"]);

    let invoked =
        in_memory::emit_to_channel(&registry, &TestEvent::new("e2", "T"), topic("ReOrders"));
    assert!(invoked.is_empty());
}

#[test]
fn kind_mismatch_blocks_match_regardless_of_name() {
    let (mut registry, log) = fresh();
    in_memory::register(&mut registry, topic("Orders"), RecordingHandler::new("h", &log))
        .unwrap();

    let invoked =
        in_memory::emit_to_channel(&registry, &TestEvent::new("e1", "T"), queue("Orders"));
    assert!(invoked.is_empty());
    assert!(log.borrow().is_empty());
}

#[test]
fn queue_delivers_to_earliest_registered_only() {
    let (mut registry, log) = fresh();
    in_memory::register(&mut registry, queue("Orders"), RecordingHandler::new("h1", &log))
        .unwrap();
    in_memory::register(&mut registry, queue("Orders"), RecordingHandler::new("h2", &log))
        .unwrap();

    let invoked =
        in_memory::emit_to_channel(&registry, &TestEvent::new("e1", "T"), queue("Orders"));
    assert_eq!(invoked, vec!["h1"]);
    assert_eq!(*log.borrow(), vec!["h1"]);
}

#[test]
fn topic_delivers_to_all_matching_in_registration_order() {
    let (mut registry, log) = fresh();
    in_memory::register(&mut registry, topic("Orders"), RecordingHandler::new("h1", &log))
        .unwrap();
    in_memory::register(&mut registry, topic("Orders"), RecordingHandler::new("h2", &log))
        .unwrap();

    let invoked =
        in_memory::emit_to_channel(&registry, &TestEvent::new("e1", "T"), topic("Orders"));
    assert_eq!(invoked, vec!["h1", "h2"]);
    assert_eq!(*log.borrow(), vec!["h1", "h2"]);
}

#[test]
fn unregister_silences_a_handler_and_is_idempotent() {
    let (mut registry, log) = fresh();
    let id1 = in_memory::register(&mut registry, topic("*"), RecordingHandler::new("h1", &log))
        .unwrap();
    in_memory::register(&mut registry, topic("*"), RecordingHandler::new("h2", &log)).unwrap();

    in_memory::unregister(&mut registry, &id1);
    let invoked = in_memory::emit(&registry, &TestEvent::new("e1", "T"));
    assert_eq!(invoked, vec!["h2"]);

    // A second unregistration of the same identity is a no-op, not an error.
    in_memory::unregister(&mut registry, &id1);
    let invoked = in_memory::emit(&registry, &TestEvent::new("e2", "T"));
    assert_eq!(invoked, vec!["h2"]);
    assert_eq!(*log.borrow(), vec!["h2", "h2"]);
}

#[test]
fn unregister_removes_only_the_earliest_of_equal_identities() {
    let (mut registry, log) = fresh();
    in_memory::register(&mut registry, topic("*"), RecordingHandler::new("h", &log)).unwrap();
    in_memory::register(&mut registry, topic("*"), RecordingHandler::new("h", &log)).unwrap();

    in_memory::unregister(&mut registry, "h");
    let invoked = in_memory::emit(&registry, &TestEvent::new("e1", "T"));
    assert_eq!(invoked, vec!["h"]);
}

#[test]
fn match_all_pattern_matches_every_name_of_its_kind() {
    let (mut registry, log) = fresh();
    in_memory::register(&mut registry, topic("*"), RecordingHandler::new("h", &log)).unwrap();

    for name in ["Orders", "Accounts", "anything at all"] {
        let invoked = in_memory::emit_to_channel(
            &registry,
            &TestEvent::new("e", "T"),
            MessageChannel { channel_type: ChannelType::TOPIC, name },
        );
        assert_eq!(invoked, vec!["h"]);
    }

    // The kinds must still agree.
    let invoked = in_memory::emit_to_channel(&registry, &TestEvent::new("e", "T"), queue("Orders"));
    assert!(invoked.is_empty());
}

#[test]
fn match_all_target_name_matches_every_pattern_of_its_kind() {
    let (mut registry, log) = fresh();
    in_memory::register(&mut registry, topic("Zebra"), RecordingHandler::new("h", &log))
        .unwrap();

    let invoked = in_memory::emit_to_channel(&registry, &TestEvent::new("e", "T"), topic("*"));
    assert_eq!(invoked, vec!["h"]);
}

#[test]
fn invalid_pattern_is_rejected_at_registration() {
    let (mut registry, log) = fresh();
    let refused =
        in_memory::register(&mut registry, topic("["), RecordingHandler::new("h", &log));
    assert_eq!(refused, Err(RegistryError::InvalidPattern));

    // Nothing was partially registered.
    let invoked = in_memory::emit(&registry, &TestEvent::new("e", "T"));
    assert!(invoked.is_empty());
    assert!(log.borrow().is_empty());
}

#[test]
fn snapshot_dispatch_equals_direct_emit() {
    let (mut registry, log) = fresh();
    in_memory::register(&mut registry, topic("Orders"), RecordingHandler::new("h1", &log))
        .unwrap();
    in_memory::register(&mut registry, queue("Orders"), RecordingHandler::new("h2", &log))
        .unwrap();

    let snapshot = registry.snapshot();
    let through_snapshot =
        dispatch(&snapshot, &TestEvent::new("e", "T"), Some(topic("Orders")));
    let direct = in_memory::emit_to_channel(&registry, &TestEvent::new("e", "T"), topic("Orders"));
    assert_eq!(through_snapshot, direct);
    assert_eq!(through_snapshot, vec!["h1"]);
}
