//! Transactional outbox delivered through a PostgreSQL logical replication stream.
//!
//! The crate holds the decisions of the outbox pipeline as verified code: the
//! wire formats of the replication stream, the decoding of outbox rows, the
//! subscriber's acknowledgement bookkeeping and the retry budget of the retry
//! decorator. Connections, tasks and the broker live with the caller, which
//! feeds the state machines below with what it observed.

pub mod frame;
pub mod model;
pub mod record;
pub mod retry;
pub mod sql;
pub mod subscriber;
pub mod text;
pub mod wire;
pub mod writer;
