use outbox::model::{
    Created, Delivered, Dispatched, OrderCreated, OrderEvent, OrderEventInner,
    PublisherConfiguraton, EXCHANGE,
};
use outbox::record::INITIAL_TTL;

#[test]
fn order_event_record_and_message() {
    let e = OrderEvent {
        event_id: 11,
        order_id: 22,
        inner: OrderEventInner::Dispatched(Dispatched { dispatched_at: "2021-01-01".into() }),
    };
    let r = e.into_record(b"{}".to_vec());
    assert_eq!((r.id, r.agg_id, r.ttl), (11, 22, INITIAL_TTL));
    assert_eq!(r.event_type, "OrderDispatched");
    assert_eq!(r.data, b"{}".to_vec());
    let m = e.to_wire_message(vec![1, 2]);
    assert_eq!(m.exchange, EXCHANGE);
    assert_eq!(m.routing_key, "OrderDispatched");
    assert_eq!(m.payload, vec![1, 2]);
    let back = OrderEvent::from_record(&r, e.inner.clone());
    assert_eq!(back, e);
}

#[test]
fn event_types() {
    assert_eq!(OrderEventInner::Created(Created { name: "n".into() }).event_type(), "OrderCreated");
    assert_eq!(
        OrderEventInner::Delivered(Delivered { delivered_at: "d".into() }).event_type(),
        "OrderDelivered"
    );
    let c = OrderCreated::from_created(&Created { name: "n".into() }, "o".into(), "e".into());
    assert_eq!((c.order_id.as_str(), c.event_id.as_str(), c.name.as_str()), ("o", "e", "n"));
}

#[test]
fn publisher_configuration() {
    let c = PublisherConfiguraton::new();
    assert!(!c.publisher_confirmation);
    assert!(c.confirm_select_nowait());
}
