use outbox::frame::Column;
use outbox::record::{DecodeError, Entity, EventRecord, INITIAL_TTL};

const ID: &str = "67e55044-10b1-426f-9247-bb680e5fe0c8";
const AGG: &str = "a0b1c2d3-e4f5-4a6b-8c7d-9e0f1a2b3c4d";

fn text(s: &str) -> Column {
    Column::Text(s.as_bytes().to_vec())
}

fn row(data: &str, ttl: &str) -> Vec<Column> {
    vec![text(ID), text(AGG), text("OrderCreated"), text(data), text(ttl)]
}

#[test]
fn decodes_outbox_row() {
    let r = EventRecord::decode(&row("\\x48690a", "3")).unwrap();
    assert_eq!(r.id, 0x67e5504410b1426f9247bb680e5fe0c8);
    assert_eq!(r.agg_id, 0xa0b1c2d3e4f54a6b8c7d9e0f1a2b3c4d);
    assert_eq!(r.event_type, "OrderCreated");
    assert_eq!(r.data, vec![0x48, 0x69, 0x0a]);
    assert_eq!(r.ttl, 3);
    assert!(!r.is_dead());
    assert_eq!(EventRecord::table_name(), "events");
}

#[test]
fn decode_errors_in_column_order() {
    assert_eq!(EventRecord::decode(&[]), Err(DecodeError::MissingColumn(0)));
    assert_eq!(EventRecord::decode(&row("\\x00", "3")[..4]), Err(DecodeError::MissingColumn(4)));
    let mut cols = row("\\x00", "3");
    cols[1] = Column::Null;
    assert_eq!(EventRecord::decode(&cols), Err(DecodeError::NotText(1)));
    cols[0] = text("not-a-uuid");
    assert_eq!(EventRecord::decode(&cols), Err(DecodeError::MalformedId(0)));
    let mut cols = row("\\x00", "3");
    cols[1] = text("1234");
    assert_eq!(EventRecord::decode(&cols), Err(DecodeError::MalformedId(1)));
    assert_eq!(EventRecord::decode(&row("\\x0", "3")), Err(DecodeError::MalformedData));
    assert_eq!(EventRecord::decode(&row("x", "3")), Err(DecodeError::MalformedData));
    assert_eq!(EventRecord::decode(&row("\\xzz", "3")), Err(DecodeError::MalformedData));
    assert_eq!(EventRecord::decode(&row("\\x00", "three")), Err(DecodeError::MalformedTtl));
    assert_eq!(EventRecord::decode(&row("\\x00", "40000")), Err(DecodeError::MalformedTtl));
}

#[test]
fn decode_accepts_empty_payload_and_negative_ttl() {
    let r = EventRecord::decode(&row("\\x", "-2")).unwrap();
    assert!(r.data.is_empty());
    assert_eq!(r.ttl, -2);
    assert!(r.is_dead());
}

#[test]
fn new_record_gets_full_budget() {
    let r = EventRecord::new(1, 2, "t".to_string(), vec![7]);
    assert_eq!(r.ttl, INITIAL_TTL);
    assert!(INITIAL_TTL > 0);
}

#[test]
fn decode_reads_text_forms() {
    // invalid UTF-8 in the event type is replaced, not rejected
    let mut cols = row("\\x00", "3");
    cols[2] = Column::Text(vec![b'a', 0xFF]);
    assert_eq!(EventRecord::decode(&cols).unwrap().event_type, "a\u{FFFD}");
    // hex digits of either case, two to a byte
    assert_eq!(EventRecord::decode(&row("\\x0aFf", "3")).unwrap().data, vec![0x0a, 0xff]);
    assert_eq!(EventRecord::decode(&row("\\xabc", "3")), Err(DecodeError::MalformedData));
    assert_eq!(EventRecord::decode(&row("\\xg0", "3")), Err(DecodeError::MalformedData));
    // the budget is an optional sign and digits within i16
    assert_eq!(EventRecord::decode(&row("\\x", "+12")).unwrap().ttl, 12);
    assert_eq!(EventRecord::decode(&row("\\x", "-32768")).unwrap().ttl, i16::MIN);
    assert_eq!(EventRecord::decode(&row("\\x", "32767")).unwrap().ttl, i16::MAX);
    for bad in ["32768", "", "-", "+", " 1", "1 ", "+-1"] {
        assert_eq!(EventRecord::decode(&row("\\x", bad)), Err(DecodeError::MalformedTtl));
    }
    // ids in the other spellings a UUID parser accepts
    let mut cols = row("\\x", "1");
    cols[0] = text("67e5504410b1426f9247bb680e5fe0c8");
    assert_eq!(EventRecord::decode(&cols).unwrap().id, 0x67e5504410b1426f9247bb680e5fe0c8);
    cols[0] = text("67e55044");
    assert_eq!(EventRecord::decode(&cols), Err(DecodeError::MalformedId(0)));
}
