//! Fixed-width big-endian integers and the standby status update message.

use vstd::prelude::*;

verus! {

/// Tag byte of a standby status update (`'r'`).
pub const STATUS_UPDATE_TAG: u8 = 114;

/// Microseconds between the Unix epoch and 2000-01-01T00:00:00Z, the epoch of
/// the replication protocol's clock.
pub const PG_EPOCH_OFFSET_MICROS: u128 = 946_684_800_000_000;

/// Length of a standby status update.
pub const STATUS_UPDATE_LEN: usize = 34;

/// The eight bytes of `x`, most significant first.
pub open spec fn be_bytes(x: u64) -> Seq<u8> {
    seq![
        (x >> 56u64) as u8,
        (x >> 48u64) as u8,
        (x >> 40u64) as u8,
        (x >> 32u64) as u8,
        (x >> 24u64) as u8,
        (x >> 16u64) as u8,
        (x >> 8u64) as u8,
        x as u8,
    ]
}

/// The big-endian `u64` stored in `b[i..i + 8]`.
pub open spec fn be_u64_at(b: Seq<u8>, i: int) -> u64 {
    ((b[i] as u64) << 56u64) | ((b[i + 1] as u64) << 48u64) | ((b[i + 2] as u64) << 40u64)
        | ((b[i + 3] as u64) << 32u64) | ((b[i + 4] as u64) << 24u64) | ((b[i + 5] as u64)
        << 16u64) | ((b[i + 6] as u64) << 8u64) | (b[i + 7] as u64)
}

/// The big-endian `u32` stored in `b[i..i + 4]`.
pub open spec fn be_u32_at(b: Seq<u8>, i: int) -> u32 {
    ((b[i] as u32) << 24u32) | ((b[i + 1] as u32) << 16u32) | ((b[i + 2] as u32) << 8u32) | (b[i
        + 3] as u32)
}

/// The big-endian `u16` stored in `b[i..i + 2]`.
pub open spec fn be_u16_at(b: Seq<u8>, i: int) -> u16 {
    ((b[i] as u16) << 8u16) | (b[i + 1] as u16)
}

/// Appends the big-endian bytes of `x`.
pub fn push_be_u64(out: &mut Vec<u8>, x: u64)
    ensures
        final(out)@ == old(out)@ + be_bytes(x),
{
    out.push((x >> 56u64) as u8);
    out.push((x >> 48u64) as u8);
    out.push((x >> 40u64) as u8);
    out.push((x >> 32u64) as u8);
    out.push((x >> 24u64) as u8);
    out.push((x >> 16u64) as u8);
    out.push((x >> 8u64) as u8);
    out.push(x as u8);
    assert(out@ =~= old(out)@ + be_bytes(x));
}

/// Reads the big-endian `u64` at `b[i..i + 8]`.
pub fn read_be_u64(b: &[u8], i: usize) -> (r: u64)
    requires
        i + 8 <= b@.len(),
    ensures
        r == be_u64_at(b@, i as int),
{
    ((b[i] as u64) << 56u64) | ((b[i + 1] as u64) << 48u64) | ((b[i + 2] as u64) << 40u64) | ((b[i
        + 3] as u64) << 32u64) | ((b[i + 4] as u64) << 24u64) | ((b[i + 5] as u64) << 16u64) | ((b[i
        + 6] as u64) << 8u64) | (b[i + 7] as u64)
}

/// Reads the big-endian `u32` at `b[i..i + 4]`.
pub fn read_be_u32(b: &[u8], i: usize) -> (r: u32)
    requires
        i + 4 <= b@.len(),
    ensures
        r == be_u32_at(b@, i as int),
{
    ((b[i] as u32) << 24u32) | ((b[i + 1] as u32) << 16u32) | ((b[i + 2] as u32) << 8u32) | (b[i
        + 3] as u32)
}

/// Reads the big-endian `u16` at `b[i..i + 2]`.
pub fn read_be_u16(b: &[u8], i: usize) -> (r: u16)
    requires
        i + 2 <= b@.len(),
    ensures
        r == be_u16_at(b@, i as int),
{
    ((b[i] as u16) << 8u16) | (b[i + 1] as u16)
}

/// The standby status update that reports `lsn` as written, flushed and
/// applied, stamped with `clock` (microseconds since 2000-01-01) and asking the
/// server for an immediate reply.
pub open spec fn status_update_spec(lsn: u64, clock: u64) -> Seq<u8> {
    seq![STATUS_UPDATE_TAG] + be_bytes(lsn) + be_bytes(lsn) + be_bytes(lsn) + be_bytes(clock)
        + seq![1u8]
}

/// The protocol clock for a wall clock reading in microseconds since the Unix
/// epoch, or `None` where it falls before 2000 or past what a `u64` holds.
pub open spec fn pg_clock_spec(unix_micros: u128) -> Option<u64> {
    if PG_EPOCH_OFFSET_MICROS <= unix_micros && unix_micros - PG_EPOCH_OFFSET_MICROS
        <= u64::MAX as int {
        Some((unix_micros - PG_EPOCH_OFFSET_MICROS) as u64)
    } else {
        None
    }
}

/// Converts a wall clock reading (microseconds since the Unix epoch) to the
/// replication protocol's clock (microseconds since 2000-01-01).
pub fn pg_clock(unix_micros: u128) -> (r: Option<u64>)
    ensures
        r == pg_clock_spec(unix_micros),
{
    if unix_micros < PG_EPOCH_OFFSET_MICROS {
        return None;
    }
    let since: u128 = unix_micros - PG_EPOCH_OFFSET_MICROS;
    if since > u64::MAX as u128 {
        None
    } else {
        Some(since as u64)
    }
}

/// Encodes the standby status update acknowledging `lsn`.
pub fn encode_status_update(lsn: u64, clock: u64) -> (r: Vec<u8>)
    ensures
        r@ == status_update_spec(lsn, clock),
        r@.len() == STATUS_UPDATE_LEN,
{
    let mut out: Vec<u8> = Vec::new();
    out.push(STATUS_UPDATE_TAG);
    push_be_u64(&mut out, lsn);
    push_be_u64(&mut out, lsn);
    push_be_u64(&mut out, lsn);
    push_be_u64(&mut out, clock);
    out.push(1u8);
    assert(out@ =~= status_update_spec(lsn, clock));
    out
}

/// Why no status update could be stamped.
#[derive(Debug, Clone, Copy, PartialEq, Eq, Structural)]
pub enum ClockError {
    /// The wall clock reads a time before 2000 or too far in the future.
    OutOfRange,
}

/// The status update acknowledging `lsn`, stamped with the wall clock reading
/// `unix_micros`.
pub fn prepare_ssu(lsn: u64, unix_micros: u128) -> (r: Result<Vec<u8>, ClockError>)
    ensures
        match pg_clock_spec(unix_micros) {
            Some(clock) => r matches Ok(v) && v@ == status_update_spec(lsn, clock),
            None => r == Err::<Vec<u8>, ClockError>(ClockError::OutOfRange),
        },
{
    match pg_clock(unix_micros) {
        Some(clock) => Ok(encode_status_update(lsn, clock)),
        None => Err(ClockError::OutOfRange),
    }
}

} // verus!
