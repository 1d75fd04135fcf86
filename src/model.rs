//! An example domain on top of the outbox: order events, and what the broker
//! adapter needs to publish them.

use vstd::prelude::*;
use crate::record::{EventRecord, EventRecordView, INITIAL_TTL};

verus! {

pub const ORDER_CREATED: &'static str = "OrderCreated";
pub const ORDER_DISPATCHED: &'static str = "OrderDispatched";
pub const ORDER_DELIVERED: &'static str = "OrderDelivered";

/// The exchange that order events are published to.
pub const EXCHANGE: &'static str = "test-exchange";

#[derive(Debug, Clone, PartialEq, Eq)]
pub struct Created {
    pub name: String,
}

#[derive(Debug, Clone, PartialEq, Eq)]
pub struct Dispatched {
    pub dispatched_at: String,
}

#[derive(Debug, Clone, PartialEq, Eq)]
pub struct Delivered {
    pub delivered_at: String,
}

/// What happened to an order.
#[derive(Debug, Clone, PartialEq, Eq)]
pub enum OrderEventInner {
    Created(Created),
    Dispatched(Dispatched),
    Delivered(Delivered),
}

/// An event of one order.
#[derive(Debug, Clone, PartialEq, Eq)]
pub struct OrderEvent {
    /// The event's UUID as its 128-bit value.
    pub event_id: u128,
    /// The order's UUID as its 128-bit value.
    pub order_id: u128,
    pub inner: OrderEventInner,
}

/// The event type, which is also the routing key, of each kind of event.
pub open spec fn event_type_spec(inner: OrderEventInner) -> Seq<char> {
    match inner {
        OrderEventInner::Created(_) => "OrderCreated"@,
        OrderEventInner::Dispatched(_) => "OrderDispatched"@,
        OrderEventInner::Delivered(_) => "OrderDelivered"@,
    }
}

impl OrderEventInner {
    /// The event type, which is also the routing key.
    pub fn event_type(&self) -> (r: &'static str)
        ensures
            r@ == event_type_spec(*self),
    {
        match self {
            OrderEventInner::Created(_) => ORDER_CREATED,
            OrderEventInner::Dispatched(_) => ORDER_DISPATCHED,
            OrderEventInner::Delivered(_) => ORDER_DELIVERED,
        }
    }
}

/// What a sink publishes: where to, under which key, and the bytes.
#[derive(Debug, Clone, PartialEq, Eq)]
pub struct WireMessage {
    pub exchange: String,
    pub routing_key: String,
    pub payload: Vec<u8>,
}

impl OrderEvent {
    /// The outbox row for this event; `data` is the encoded inner event.
    pub fn into_record(&self, data: Vec<u8>) -> (r: EventRecord)
        ensures
            r@ == (EventRecordView {
                id: self.event_id,
                agg_id: self.order_id,
                event_type: event_type_spec(self.inner),
                data: data@,
                ttl: INITIAL_TTL,
            }),
    {
        EventRecord::new(self.event_id, self.order_id, String::from_str(self.inner.event_type()), data)
    }

    /// The event that a row holds, given its decoded inner event.
    pub fn from_record(record: &EventRecord, inner: OrderEventInner) -> (r: OrderEvent)
        ensures
            r.event_id == record.id,
            r.order_id == record.agg_id,
            r.inner == inner,
    {
        OrderEvent { event_id: record.id, order_id: record.agg_id, inner }
    }

    /// The message that publishes this event; `payload` is the encoded event.
    pub fn to_wire_message(&self, payload: Vec<u8>) -> (r: WireMessage)
        ensures
            r.exchange@ == "test-exchange"@,
            r.routing_key@ == event_type_spec(self.inner),
            r.payload@ == payload@,
    {
        WireMessage {
            exchange: String::from_str(EXCHANGE),
            routing_key: String::from_str(self.inner.event_type()),
            payload,
        }
    }
}

/// The protobuf form of a created order.
#[derive(Debug, Clone, PartialEq, Eq)]
pub struct OrderCreated {
    pub order_id: String,
    pub event_id: String,
    pub name: String,
}

impl OrderCreated {
    /// The protobuf form of `created`, given the text of the order's and the
    /// event's ids.
    pub fn from_created(created: &Created, order_id: String, event_id: String) -> (r: OrderCreated)
        ensures
            r.order_id@ == order_id@,
            r.event_id@ == event_id@,
            r.name@ == created.name@,
    {
        OrderCreated { order_id, event_id, name: created.name.clone() }
    }
}

/// How a broker publisher is set up.
#[derive(Debug, Clone, Copy, PartialEq, Eq, Structural)]
#[non_exhaustive]
pub struct PublisherConfiguraton {
    /// Wait for the broker to confirm each message.
    pub publisher_confirmation: bool,
}

impl PublisherConfiguraton {
    /// No publisher confirmation.
    pub fn new() -> (r: PublisherConfiguraton)
        ensures
            !r.publisher_confirmation,
    {
        PublisherConfiguraton { publisher_confirmation: false }
    }

    /// Whether selecting confirm mode on the channel should skip waiting for
    /// the broker's reply: only where confirmations are not wanted.
    pub fn confirm_select_nowait(&self) -> (r: bool)
        ensures
            r == !self.publisher_confirmation,
    {
        !self.publisher_confirmation
    }
}

} // verus!
