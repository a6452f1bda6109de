use eventure::inmemory_sync;
use eventure::model::{Event, EventHandler};
use eventure::registry::EventHandlerRegistryImpl;
use uuid::Uuid;

#[allow(dead_code)]
struct OrderCreated {
    event_id: String,
    customer_id: String,
}

#[allow(dead_code)]
struct OrderCanceled {
    event_id: String,
    customer_id: String,
}

impl OrderCreated {
    pub fn new(customer_id: String) -> OrderCreated {
        let event_id = Uuid::new_v4().to_string();
        OrderCreated { event_id, customer_id }
    }
}

impl OrderCanceled {
    pub fn new(customer_id: String) -> OrderCanceled {
        let event_id = Uuid::new_v4().to_string();
        OrderCanceled { event_id, customer_id }
    }
}

enum OrderEvent {
    Created(OrderCreated),
    Canceled(OrderCanceled),
}

impl Event for OrderEvent {
    fn id(&self) -> &str {
        match self {
            OrderEvent::Created(e) => &e.event_id[..],
            OrderEvent::Canceled(e) => &e.event_id[..],
        }
    }
    fn name(&self) -> &str {
        match self {
            OrderEvent::Created(_) => "OrderCreated",
            OrderEvent::Canceled(_) => "OrderCanceled",
        }
    }
}

struct OrderEventHandler;

impl EventHandler for OrderEventHandler {
    type Ev = OrderEvent;

    fn handle(&self, event: &OrderEvent) {
        println!("event handled: {} with id {}", event.name(), event.id());
    }

    fn id(&self) -> String {
        String::from("OrderEventHandler")
    }
}

fn create_order_created() -> OrderCreated {
    let customer_id = Uuid::new_v4().to_string();
    OrderCreated::new(customer_id)
}

fn create_order_canceled() -> OrderCanceled {
    let customer_id = Uuid::new_v4().to_string();
    OrderCanceled::new(customer_id)
}

#[test]
fn basic_scenario() {
    let order_created = create_order_created();
    let order_canceled = create_order_canceled();

    let mut registry: EventHandlerRegistryImpl<OrderEventHandler> = EventHandlerRegistryImpl::new();
    inmemory_sync::register(&mut registry, OrderEventHandler);
    inmemory_sync::emit(&registry, &OrderEvent::Created(order_created));
    inmemory_sync::emit(&registry, &OrderEvent::Canceled(order_canceled));
}
