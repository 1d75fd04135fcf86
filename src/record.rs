//! Outbox rows: the entity contract and the row type of the outbox table.

use vstd::prelude::*;
use vstd::slice::slice_subrange;
use crate::frame::{Column, ColumnView, columns_view};
use crate::text::{
    decode_hex, hex_bytes, i16_text, is_hex_text, lossy_text, parse_i16, parse_uuid, utf8_lossy,
    uuid_of,
};

verus! {

/// Why a row from the change stream could not be decoded.
#[derive(Debug, Clone, Copy, PartialEq, Eq, Structural)]
pub enum DecodeError {
    /// The row has no column at this index.
    MissingColumn(usize),
    /// The column at this index is not in text form.
    NotText(usize),
    /// The column at this index does not spell a UUID.
    MalformedId(usize),
    /// The payload column is not `\x` followed by hex digits.
    MalformedData,
    /// The retry budget column is not an `i16`.
    MalformedTtl,
}

/// A row type that the subscriber can decode from the change stream.
pub trait Entity: Sized + View {
    /// The name of the table that holds such rows.
    spec fn table_spec() -> Seq<char>;

    /// What decoding the columns `cols` gives.
    spec fn decode_spec(cols: Seq<ColumnView>) -> Result<Self::V, DecodeError>;

    /// The name of the table that holds such rows.
    fn table_name() -> (r: String)
        ensures
            r@ == Self::table_spec(),
    ;

    /// Decodes a row from its columns as the stream carries them.
    fn decode(cols: &[Column]) -> (r: Result<Self, DecodeError>)
        ensures
            match Self::decode_spec(columns_view(cols@)) {
                Ok(v) => r matches Ok(x) && x@ == v,
                Err(e) => r matches Err(f) && f == e,
            },
    ;
}

/// Retry budget that the writer gives each new row.
pub const INITIAL_TTL: i16 = 3;

/// One row of the outbox table.
#[derive(Debug, Clone, PartialEq, Eq)]
pub struct EventRecord {
    /// Unique key of the row, as a UUID's 128-bit value.
    pub id: u128,
    /// The aggregate the event belongs to, as a UUID's 128-bit value.
    pub agg_id: u128,
    pub event_type: String,
    pub data: Vec<u8>,
    /// Retry budget; the row is dead once it is zero or less.
    pub ttl: i16,
}

/// The mathematical value of an [`EventRecord`].
pub ghost struct EventRecordView {
    pub id: u128,
    pub agg_id: u128,
    pub event_type: Seq<char>,
    pub data: Seq<u8>,
    pub ttl: i16,
}

impl View for EventRecord {
    type V = EventRecordView;

    open spec fn view(&self) -> EventRecordView {
        EventRecordView {
            id: self.id,
            agg_id: self.agg_id,
            event_type: self.event_type@,
            data: self.data@,
            ttl: self.ttl,
        }
    }
}

impl EventRecord {
    /// A new row for the outbox, with the full retry budget.
    pub fn new(id: u128, agg_id: u128, event_type: String, data: Vec<u8>) -> (r: EventRecord)
        ensures
            r@ == (EventRecordView { id, agg_id, event_type: event_type@, data: data@, ttl: INITIAL_TTL }),
    {
        EventRecord { id, agg_id, event_type, data, ttl: INITIAL_TTL }
    }

    /// Whether the row's retry budget is spent.
    pub fn is_dead(&self) -> (r: bool)
        ensures
            r == (self.ttl <= 0),
    {
        self.ttl <= 0
    }
}

/// The bytes of column `i` if it is in text form.
pub open spec fn text_at(cols: Seq<ColumnView>, i: int) -> Result<Seq<u8>, DecodeError> {
    if i >= cols.len() {
        Err(DecodeError::MissingColumn(i as usize))
    } else {
        match cols[i] {
            ColumnView::Text(b) => Ok(b),
            _ => Err(DecodeError::NotText(i as usize)),
        }
    }
}

/// The UUID spelled by column `i`.
pub open spec fn uuid_at(cols: Seq<ColumnView>, i: int) -> Result<u128, DecodeError> {
    match text_at(cols, i) {
        Err(e) => Err(e),
        Ok(b) => match uuid_of(utf8_lossy(b)) {
            Some(u) => Ok(u),
            None => Err(DecodeError::MalformedId(i as usize)),
        },
    }
}

/// The payload spelled by column `i` in the store's hex output (`\x` and then
/// two hex digits to a byte).
pub open spec fn payload_at(cols: Seq<ColumnView>, i: int) -> Result<Seq<u8>, DecodeError> {
    match text_at(cols, i) {
        Err(e) => Err(e),
        Ok(b) => {
            let digits = b.subrange(2, b.len() as int);
            if b.len() >= 2 && is_hex_text(digits) {
                Ok(hex_bytes(digits))
            } else {
                Err(DecodeError::MalformedData)
            }
        },
    }
}

/// The retry budget spelled by column `i`.
pub open spec fn ttl_at(cols: Seq<ColumnView>, i: int) -> Result<i16, DecodeError> {
    match text_at(cols, i) {
        Err(e) => Err(e),
        Ok(b) => match i16_text(utf8_lossy(b)) {
            Some(t) => Ok(t),
            None => Err(DecodeError::MalformedTtl),
        },
    }
}

/// The outbox row that the columns `id, agg_id, event_type, data, ttl` hold,
/// or the first column, in that order, that is missing or malformed.
pub open spec fn event_record_spec(cols: Seq<ColumnView>) -> Result<EventRecordView, DecodeError> {
    match uuid_at(cols, 0) {
        Err(e) => Err(e),
        Ok(id) => match uuid_at(cols, 1) {
            Err(e) => Err(e),
            Ok(agg_id) => match text_at(cols, 2) {
                Err(e) => Err(e),
                Ok(event_type) => match payload_at(cols, 3) {
                    Err(e) => Err(e),
                    Ok(data) => match ttl_at(cols, 4) {
                        Err(e) => Err(e),
                        Ok(ttl) => Ok(
                            EventRecordView {
                                id,
                                agg_id,
                                event_type: utf8_lossy(event_type),
                                data,
                                ttl,
                            },
                        ),
                    },
                },
            },
        },
    }
}

/// The bytes of column `i` if it is in text form.
fn read_text(cols: &[Column], i: usize) -> (r: Result<&Vec<u8>, DecodeError>)
    ensures
        match text_at(columns_view(cols@), i as int) {
            Ok(b) => r matches Ok(v) && v@ == b,
            Err(e) => r matches Err(f) && f == e,
        },
{
    if i >= cols.len() {
        return Err(DecodeError::MissingColumn(i));
    }
    match &cols[i] {
        Column::Text(b) => Ok(b),
        _ => Err(DecodeError::NotText(i)),
    }
}

/// The UUID spelled by column `i`.
fn read_uuid(cols: &[Column], i: usize) -> (r: Result<u128, DecodeError>)
    ensures
        match uuid_at(columns_view(cols@), i as int) {
            Ok(u) => r matches Ok(v) && v == u,
            Err(e) => r matches Err(f) && f == e,
        },
{
    let b = read_text(cols, i)?;
    let s = lossy_text(b.as_slice());
    match parse_uuid(s.as_str()) {
        Some(u) => Ok(u),
        None => Err(DecodeError::MalformedId(i)),
    }
}

impl Entity for EventRecord {
    open spec fn table_spec() -> Seq<char> {
        "events"@
    }

    open spec fn decode_spec(cols: Seq<ColumnView>) -> Result<EventRecordView, DecodeError> {
        event_record_spec(cols)
    }

    fn table_name() -> (r: String) {
        String::from_str("events")
    }

    fn decode(cols: &[Column]) -> (r: Result<EventRecord, DecodeError>) {
        let id = read_uuid(cols, 0)?;
        let agg_id = read_uuid(cols, 1)?;
        let event_type = lossy_text(read_text(cols, 2)?.as_slice());
        let raw = read_text(cols, 3)?;
        if raw.len() < 2 {
            return Err(DecodeError::MalformedData);
        }
        let data = match decode_hex(slice_subrange(raw.as_slice(), 2, raw.len())) {
            Some(d) => d,
            None => return Err(DecodeError::MalformedData),
        };
        let ttl_text = lossy_text(read_text(cols, 4)?.as_slice());
        let ttl = match parse_i16(ttl_text.as_str()) {
            Some(t) => t,
            None => return Err(DecodeError::MalformedTtl),
        };
        Ok(EventRecord { id, agg_id, event_type, data, ttl })
    }
}

} // verus!
