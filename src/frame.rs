//! Frames of the streaming replication protocol and of the `pgoutput` logical
//! decoding plugin (protocol version 1), as far as the subscriber reads them.

use vstd::prelude::*;
use vstd::slice::{slice_subrange, slice_to_vec};
use crate::wire::{be_u16_at, be_u32_at, be_u64_at, read_be_u16, read_be_u32, read_be_u64};

verus! {

/// One column of a tuple as the stream carries it.
#[derive(Debug, Clone, PartialEq, Eq)]
pub enum Column {
    Null,
    /// A TOASTed value that did not change; its content is not sent.
    Unchanged,
    Text(Vec<u8>),
    Binary(Vec<u8>),
}

/// The mathematical value of a [`Column`].
pub ghost enum ColumnView {
    Null,
    Unchanged,
    Text(Seq<u8>),
    Binary(Seq<u8>),
}

impl View for Column {
    type V = ColumnView;

    open spec fn view(&self) -> ColumnView {
        match self {
            Column::Null => ColumnView::Null,
            Column::Unchanged => ColumnView::Unchanged,
            Column::Text(b) => ColumnView::Text(b@),
            Column::Binary(b) => ColumnView::Binary(b@),
        }
    }
}

/// The views of a sequence of columns.
pub open spec fn columns_view(cols: Seq<Column>) -> Seq<ColumnView> {
    cols.map_values(|c: Column| c@)
}

/// A message of the logical decoding output that the subscriber tells apart.
#[derive(Debug, Clone, PartialEq, Eq)]
pub enum LogicalMessage {
    /// A row was inserted into the relation with this id.
    Insert { relation: u32, columns: Vec<Column> },
    /// A row of the relation with this id was updated to `columns`.
    Update { relation: u32, columns: Vec<Column> },
    /// A transaction committed; `end_lsn` is the position just past it.
    Commit { commit_lsn: u64, end_lsn: u64 },
    /// Begin, relation, type, origin, delete, truncate or a logical message.
    Other { tag: u8 },
}

/// The mathematical value of a [`LogicalMessage`].
pub ghost enum LogicalView {
    Insert { relation: u32, columns: Seq<ColumnView> },
    Update { relation: u32, columns: Seq<ColumnView> },
    Commit { commit_lsn: u64, end_lsn: u64 },
    Other { tag: u8 },
}

impl View for LogicalMessage {
    type V = LogicalView;

    open spec fn view(&self) -> LogicalView {
        match self {
            LogicalMessage::Insert { relation, columns } => LogicalView::Insert {
                relation: *relation,
                columns: columns_view(columns@),
            },
            LogicalMessage::Update { relation, columns } => LogicalView::Update {
                relation: *relation,
                columns: columns_view(columns@),
            },
            LogicalMessage::Commit { commit_lsn, end_lsn } => LogicalView::Commit {
                commit_lsn: *commit_lsn,
                end_lsn: *end_lsn,
            },
            LogicalMessage::Other { tag } => LogicalView::Other { tag: *tag },
        }
    }
}

/// Why a frame could not be read.
#[derive(Debug, Clone, Copy, PartialEq, Eq, Structural)]
pub enum ProtocolError {
    /// The frame holds no byte.
    Empty,
    /// The first byte names no message that this reader knows.
    UnknownTag(u8),
    /// The frame ends before the message does.
    Truncated,
    /// An insert or update without its new tuple marker (`'N'`).
    MissingNewTuple,
}

pub const TAG_XLOG_DATA: u8 = 119;  // 'w'
pub const TAG_KEEPALIVE: u8 = 107;  // 'k'
pub const TAG_INSERT: u8 = 73;  // 'I'
pub const TAG_UPDATE: u8 = 85;  // 'U'
pub const TAG_COMMIT: u8 = 67;  // 'C'
pub const TAG_NEW_TUPLE: u8 = 78;  // 'N'
pub const TAG_KEY_TUPLE: u8 = 75;  // 'K'
pub const TAG_OLD_TUPLE: u8 = 79;  // 'O'
pub const KIND_NULL: u8 = 110;  // 'n'
pub const KIND_UNCHANGED: u8 = 117;  // 'u'
pub const KIND_TEXT: u8 = 116;  // 't'
pub const KIND_BINARY: u8 = 98;  // 'b'

/// Length of the header of an XLogData frame: tag, start, end and clock.
pub const XLOG_HEADER_LEN: usize = 25;

/// Whether `tag` names a logical message that the subscriber passes over.
pub open spec fn is_passed_over_tag(tag: u8) -> bool {
    // begin, relation, type, origin, delete, truncate, logical message
    tag == 66 || tag == 82 || tag == 89 || tag == 79 || tag == 68 || tag == 84 || tag == 77
}

/// The column that starts at `b[pos]`, with the position just past it.
pub open spec fn column_at(b: Seq<u8>, pos: int) -> Option<(ColumnView, int)> {
    if pos < 0 || pos >= b.len() {
        None
    } else if b[pos] == KIND_NULL {
        Some((ColumnView::Null, pos + 1))
    } else if b[pos] == KIND_UNCHANGED {
        Some((ColumnView::Unchanged, pos + 1))
    } else if b[pos] == KIND_TEXT || b[pos] == KIND_BINARY {
        if pos + 5 > b.len() {
            None
        } else {
            let end = pos + 5 + be_u32_at(b, pos + 1);
            if end > b.len() {
                None
            } else if b[pos] == KIND_TEXT {
                Some((ColumnView::Text(b.subrange(pos + 5, end)), end))
            } else {
                Some((ColumnView::Binary(b.subrange(pos + 5, end)), end))
            }
        }
    } else {
        None
    }
}

/// The first `n` columns that start at `b[pos]`, with the position just past
/// them.
pub open spec fn columns_at(b: Seq<u8>, pos: int, n: nat) -> Option<(Seq<ColumnView>, int)>
    decreases n,
{
    if n == 0 {
        Some((Seq::empty(), pos))
    } else {
        match columns_at(b, pos, (n - 1) as nat) {
            None => None,
            Some((cols, next)) => match column_at(b, next) {
                None => None,
                Some((c, end)) => Some((cols.push(c), end)),
            },
        }
    }
}

/// The tuple (a column count, then the columns) that starts at `b[pos]`,
/// with the position just past it.
pub open spec fn tuple_at(b: Seq<u8>, pos: int) -> Option<(Seq<ColumnView>, int)> {
    if pos < 0 || pos + 2 > b.len() {
        None
    } else {
        columns_at(b, pos + 2, be_u16_at(b, pos) as nat)
    }
}

/// The new tuple of an update whose body starts at `b[pos]`: it may follow
/// the old key (`'K'`) or the old row (`'O'`).
pub open spec fn update_tuple_at(b: Seq<u8>, pos: int) -> Result<Seq<ColumnView>, ProtocolError> {
    if pos >= b.len() {
        Err(ProtocolError::Truncated)
    } else if b[pos] == TAG_NEW_TUPLE {
        match tuple_at(b, pos + 1) {
            Some((cols, _)) => Ok(cols),
            None => Err(ProtocolError::Truncated),
        }
    } else if b[pos] == TAG_KEY_TUPLE || b[pos] == TAG_OLD_TUPLE {
        match tuple_at(b, pos + 1) {
            None => Err(ProtocolError::Truncated),
            Some((_, next)) => if next >= b.len() {
                Err(ProtocolError::Truncated)
            } else if b[next] != TAG_NEW_TUPLE {
                Err(ProtocolError::MissingNewTuple)
            } else {
                match tuple_at(b, next + 1) {
                    Some((cols, _)) => Ok(cols),
                    None => Err(ProtocolError::Truncated),
                }
            },
        }
    } else {
        Err(ProtocolError::MissingNewTuple)
    }
}

/// The logical message encoded by `b`.
pub open spec fn logical_message_spec(b: Seq<u8>) -> Result<LogicalView, ProtocolError> {
    if b.len() == 0 {
        Err(ProtocolError::Empty)
    } else if b[0] == TAG_INSERT {
        if b.len() < 8 {
            Err(ProtocolError::Truncated)
        } else if b[5] != TAG_NEW_TUPLE {
            Err(ProtocolError::MissingNewTuple)
        } else {
            match columns_at(b, 8, be_u16_at(b, 6) as nat) {
                None => Err(ProtocolError::Truncated),
                Some((cols, _)) => Ok(
                    LogicalView::Insert { relation: be_u32_at(b, 1), columns: cols },
                ),
            }
        }
    } else if b[0] == TAG_UPDATE {
        if b.len() < 5 {
            Err(ProtocolError::Truncated)
        } else {
            match update_tuple_at(b, 5) {
                Ok(cols) => Ok(LogicalView::Update { relation: be_u32_at(b, 1), columns: cols }),
                Err(e) => Err(e),
            }
        }
    } else if b[0] == TAG_COMMIT {
        if b.len() < 26 {
            Err(ProtocolError::Truncated)
        } else {
            Ok(LogicalView::Commit { commit_lsn: be_u64_at(b, 2), end_lsn: be_u64_at(b, 10) })
        }
    } else if is_passed_over_tag(b[0]) {
        Ok(LogicalView::Other { tag: b[0] })
    } else {
        Err(ProtocolError::UnknownTag(b[0]))
    }
}

/// What a frame of the replication stream carries for the subscriber: the
/// logical message inside an XLogData frame, or nothing for a keepalive.
pub open spec fn frame_spec(b: Seq<u8>) -> Result<Option<LogicalView>, ProtocolError> {
    if b.len() == 0 {
        Err(ProtocolError::Empty)
    } else if b[0] == TAG_XLOG_DATA {
        if b.len() < XLOG_HEADER_LEN {
            Err(ProtocolError::Truncated)
        } else {
            match logical_message_spec(b.subrange(XLOG_HEADER_LEN as int, b.len() as int)) {
                Ok(m) => Ok(Some(m)),
                Err(e) => Err(e),
            }
        }
    } else if b[0] == TAG_KEEPALIVE {
        if b.len() < 18 {
            Err(ProtocolError::Truncated)
        } else {
            Ok(None)
        }
    } else {
        Err(ProtocolError::UnknownTag(b[0]))
    }
}

/// Reads the column that starts at `b[pos]`.
fn read_column(b: &[u8], pos: usize) -> (r: Option<(Column, usize)>)
    ensures
        match column_at(b@, pos as int) {
            None => r is None,
            Some((c, end)) => r matches Some((col, e)) && col@ == c && e == end,
        },
{
    if pos >= b.len() {
        return None;
    }
    let kind = b[pos];
    if kind == KIND_NULL {
        Some((Column::Null, pos + 1))
    } else if kind == KIND_UNCHANGED {
        Some((Column::Unchanged, pos + 1))
    } else if kind == KIND_TEXT || kind == KIND_BINARY {
        if b.len() - pos < 5 {
            return None;
        }
        let len = read_be_u32(b, pos + 1) as usize;
        if len > b.len() - pos - 5 {
            return None;
        }
        let end = pos + 5 + len;
        let bytes = slice_to_vec(slice_subrange(b, pos + 5, end));
        if kind == KIND_TEXT {
            Some((Column::Text(bytes), end))
        } else {
            Some((Column::Binary(bytes), end))
        }
    } else {
        None
    }
}

/// Reads `n` columns that start at `b[pos]`.
fn read_columns(b: &[u8], pos: usize, n: u16) -> (r: Option<(Vec<Column>, usize)>)
    ensures
        match columns_at(b@, pos as int, n as nat) {
            None => r is None,
            Some((cs, end)) => r matches Some((cols, e)) && columns_view(cols@) == cs && e
                == end,
        },
{
    let mut cols: Vec<Column> = Vec::new();
    let mut next: usize = pos;
    let mut i: u16 = 0;
    while i < n
        invariant
            i <= n,
            columns_at(b@, pos as int, i as nat) == Some((columns_view(cols@), next as int)),
        ensures
            i == n,
        decreases n - i,
    {
        match read_column(b, next) {
            None => {
                proof {
                    lemma_columns_fail_later(b@, pos as int, (i + 1) as nat, n as nat);
                }
                return None;
            },
            Some((c, end)) => {
                cols.push(c);
                next = end;
                assert(columns_view(cols@) =~= columns_view(cols@.drop_last()).push(c@));
            },
        }
        i = i + 1;
    }
    Some((cols, next))
}

/// Once the columns cannot be read, no longer run of them can.
proof fn lemma_columns_fail_later(b: Seq<u8>, pos: int, k: nat, n: nat)
    requires
        k <= n,
        columns_at(b, pos, k) is None,
    ensures
        columns_at(b, pos, n) is None,
    decreases n - k,
{
    if k < n {
        lemma_columns_fail_later(b, pos, k + 1, n);
    }
}

/// Reads the tuple that starts at `b[pos]`.
fn read_tuple(b: &[u8], pos: usize) -> (r: Option<(Vec<Column>, usize)>)
    ensures
        match tuple_at(b@, pos as int) {
            None => r is None,
            Some((cs, end)) => r matches Some((cols, e)) && columns_view(cols@) == cs && e
                == end,
        },
{
    if pos > b.len() || b.len() - pos < 2 {
        return None;
    }
    let n = read_be_u16(b, pos);
    read_columns(b, pos + 2, n)
}

/// Reads the new tuple of an update whose body starts at `b[pos]`.
fn read_update_tuple(b: &[u8], pos: usize) -> (r: Result<Vec<Column>, ProtocolError>)
    ensures
        match update_tuple_at(b@, pos as int) {
            Ok(cs) => r matches Ok(cols) && columns_view(cols@) == cs,
            Err(e) => r == Err::<Vec<Column>, ProtocolError>(e),
        },
{
    if pos >= b.len() {
        return Err(ProtocolError::Truncated);
    }
    let marker = b[pos];
    let start = if marker == TAG_NEW_TUPLE {
        pos + 1
    } else if marker == TAG_KEY_TUPLE || marker == TAG_OLD_TUPLE {
        match read_tuple(b, pos + 1) {
            None => return Err(ProtocolError::Truncated),
            Some((_, next)) => {
                if next >= b.len() {
                    return Err(ProtocolError::Truncated);
                }
                if b[next] != TAG_NEW_TUPLE {
                    return Err(ProtocolError::MissingNewTuple);
                }
                next + 1
            },
        }
    } else {
        return Err(ProtocolError::MissingNewTuple);
    };
    match read_tuple(b, start) {
        Some((cols, _)) => Ok(cols),
        None => Err(ProtocolError::Truncated),
    }
}

/// Decodes one message of the logical decoding output.
pub fn parse_logical_message(b: &[u8]) -> (r: Result<LogicalMessage, ProtocolError>)
    ensures
        match logical_message_spec(b@) {
            Ok(m) => r matches Ok(msg) && msg@ == m,
            Err(e) => r == Err::<LogicalMessage, ProtocolError>(e),
        },
{
    if b.len() == 0 {
        return Err(ProtocolError::Empty);
    }
    let tag = b[0];
    if tag == TAG_INSERT {
        if b.len() < 8 {
            return Err(ProtocolError::Truncated);
        }
        if b[5] != TAG_NEW_TUPLE {
            return Err(ProtocolError::MissingNewTuple);
        }
        let relation = read_be_u32(b, 1);
        let n = read_be_u16(b, 6);
        match read_columns(b, 8, n) {
            None => Err(ProtocolError::Truncated),
            Some((columns, _)) => Ok(LogicalMessage::Insert { relation, columns }),
        }
    } else if tag == TAG_UPDATE {
        if b.len() < 5 {
            return Err(ProtocolError::Truncated);
        }
        let relation = read_be_u32(b, 1);
        match read_update_tuple(b, 5) {
            Ok(columns) => Ok(LogicalMessage::Update { relation, columns }),
            Err(e) => Err(e),
        }
    } else if tag == TAG_COMMIT {
        if b.len() < 26 {
            return Err(ProtocolError::Truncated);
        }
        Ok(LogicalMessage::Commit { commit_lsn: read_be_u64(b, 2), end_lsn: read_be_u64(b, 10) })
    } else if tag == 66 || tag == 82 || tag == 89 || tag == 79 || tag == 68 || tag == 84 || tag
        == 77 {
        Ok(LogicalMessage::Other { tag })
    } else {
        Err(ProtocolError::UnknownTag(tag))
    }
}

/// Reads one frame of the replication stream: the logical message that an
/// XLogData frame carries, or `None` for a primary keepalive.
pub fn parse_frame(b: &[u8]) -> (r: Result<Option<LogicalMessage>, ProtocolError>)
    ensures
        match frame_spec(b@) {
            Ok(Some(m)) => r matches Ok(Some(msg)) && msg@ == m,
            Ok(None) => r matches Ok(None),
            Err(e) => r == Err::<Option<LogicalMessage>, ProtocolError>(e),
        },
{
    if b.len() == 0 {
        return Err(ProtocolError::Empty);
    }
    if b[0] == TAG_XLOG_DATA {
        if b.len() < XLOG_HEADER_LEN {
            return Err(ProtocolError::Truncated);
        }
        match parse_logical_message(slice_subrange(b, XLOG_HEADER_LEN, b.len())) {
            Ok(m) => Ok(Some(m)),
            Err(e) => Err(e),
        }
    } else if b[0] == TAG_KEEPALIVE {
        if b.len() < 18 {
            return Err(ProtocolError::Truncated);
        }
        Ok(None)
    } else {
        Err(ProtocolError::UnknownTag(b[0]))
    }
}

} // verus!
