//! The outbox writer's decisions for a batch: one transaction, one insert per
//! event, committed only when every insert succeeded.

use vstd::prelude::*;
use crate::retry::next_ttl;
use crate::sql::{
    ReplicationConfig, dead_messages_query, dead_messages_query_spec, insert_statement,
    insert_statement_spec, update_ttl_statement, update_ttl_statement_spec,
};

verus! {

/// Why a write to the outbox failed.
#[derive(Debug, Clone, Copy, PartialEq, Eq, Structural)]
pub enum WriteError {
    /// The transaction could not be opened.
    Begin,
    /// The insert of the event at this index failed; the batch was rolled back.
    Insert(usize),
    /// The commit failed.
    Commit,
    /// The budget to write back does not fit the column.
    TtlOutOfRange,
}

/// The next operation on the store.
#[derive(Debug, Clone, Copy, PartialEq, Eq)]
pub enum WriteOp {
    Begin,
    /// Insert the event at this index of the batch.
    Insert(usize),
    Commit,
    Rollback,
    /// The batch is over, with this outcome.
    Finish(Result<(), WriteError>),
}

/// Where a batch stands: which operation's outcome is awaited.
#[derive(Debug, Clone, Copy, PartialEq, Eq)]
pub enum Stage {
    AwaitBegin,
    AwaitInsert(usize),
    AwaitCommit,
    /// Rolling back after the insert at this index failed.
    AwaitRollback(usize),
    Finished(Result<(), WriteError>),
}

/// A batch of `total` events being written in one transaction.
#[derive(Debug, Clone, Copy, PartialEq, Eq)]
pub struct BatchWrite {
    pub total: usize,
    pub stage: Stage,
}

/// The state after the operation awaited in `b` ended as `ok` says, and the
/// next operation.
pub open spec fn batch_step(b: BatchWrite, ok: bool) -> (BatchWrite, WriteOp) {
    match b.stage {
        Stage::AwaitBegin => if !ok {
            (BatchWrite { stage: Stage::Finished(Err(WriteError::Begin)), ..b }, WriteOp::Finish(Err(WriteError::Begin)))
        } else if b.total == 0 {
            (BatchWrite { stage: Stage::AwaitCommit, ..b }, WriteOp::Commit)
        } else {
            (BatchWrite { stage: Stage::AwaitInsert(0), ..b }, WriteOp::Insert(0))
        },
        Stage::AwaitInsert(i) => if !ok {
            (BatchWrite { stage: Stage::AwaitRollback(i), ..b }, WriteOp::Rollback)
        } else if i + 1 >= b.total {
            (BatchWrite { stage: Stage::AwaitCommit, ..b }, WriteOp::Commit)
        } else {
            (BatchWrite { stage: Stage::AwaitInsert((i + 1) as usize), ..b }, WriteOp::Insert((i + 1) as usize))
        },
        Stage::AwaitCommit => if ok {
            (BatchWrite { stage: Stage::Finished(Ok(())), ..b }, WriteOp::Finish(Ok(())))
        } else {
            (BatchWrite { stage: Stage::Finished(Err(WriteError::Commit)), ..b }, WriteOp::Finish(Err(WriteError::Commit)))
        },
        Stage::AwaitRollback(i) => (
            BatchWrite { stage: Stage::Finished(Err(WriteError::Insert(i))), ..b },
            WriteOp::Finish(Err(WriteError::Insert(i))),
        ),
        Stage::Finished(r) => (b, WriteOp::Finish(r)),
    }
}

/// The operations issued for a batch of `total` events when the operations
/// end as `outcomes` says in turn: the opening `Begin`, then one operation
/// for each outcome.
pub open spec fn batch_run(total: usize, outcomes: Seq<bool>) -> (BatchWrite, Seq<WriteOp>)
    decreases outcomes.len(),
{
    if outcomes.len() == 0 {
        (BatchWrite { total, stage: Stage::AwaitBegin }, seq![WriteOp::Begin])
    } else {
        let (b, ops) = batch_run(total, outcomes.drop_last());
        let (next, op) = batch_step(b, outcomes.last());
        (next, ops.push(op))
    }
}

/// A `Commit` issued at index `k` of `ops`: it follows the `Begin` and one
/// insert per event, in order, and every one of them succeeded.
pub open spec fn commit_well_placed(total: usize, outcomes: Seq<bool>, ops: Seq<WriteOp>, k: int) -> bool {
    &&& k == total + 1
    &&& forall|j: int| 0 <= j < k ==> outcomes[j]
    &&& forall|j: int| 0 <= j < total ==> #[trigger] ops[j + 1] == WriteOp::Insert(j as usize)
}

spec fn batch_invariant(b: BatchWrite, outcomes: Seq<bool>, ops: Seq<WriteOp>) -> bool {
    &&& ops.len() == outcomes.len() + 1
    &&& forall|k: int| 0 <= k < ops.len() && ops[k] == WriteOp::Commit ==> commit_well_placed(b.total, outcomes, ops, k)
    &&& b.stage == Stage::AwaitBegin ==> outcomes.len() == 0
    &&& b.stage matches Stage::AwaitInsert(i) ==> {
        &&& i < b.total
        &&& outcomes.len() == i + 1
        &&& forall|j: int| 0 <= j < outcomes.len() ==> outcomes[j]
        &&& forall|j: int| 0 <= j <= i ==> #[trigger] ops[j + 1] == WriteOp::Insert(j as usize)
    }
    &&& b.stage == Stage::AwaitCommit ==> {
        &&& outcomes.len() == b.total + 1
        &&& forall|j: int| 0 <= j < outcomes.len() ==> outcomes[j]
        &&& forall|j: int| 0 <= j < b.total ==> #[trigger] ops[j + 1] == WriteOp::Insert(j as usize)
    }
    &&& b.stage == Stage::Finished(Ok(())) ==> {
        &&& outcomes.len() >= b.total + 2
        &&& forall|j: int| 0 <= j < b.total + 2 ==> outcomes[j]
    }
}

proof fn lemma_batch_invariant(total: usize, outcomes: Seq<bool>)
    ensures
        batch_run(total, outcomes).0.total == total,
        batch_invariant(batch_run(total, outcomes).0, outcomes, batch_run(total, outcomes).1),
    decreases outcomes.len(),
{
    if outcomes.len() > 0 {
        let prev = outcomes.drop_last();
        lemma_batch_invariant(total, prev);
        let (b, ops) = batch_run(total, prev);
        let (next, op) = batch_step(b, outcomes.last());
        let ops2 = ops.push(op);
        assert forall|j: int| 0 <= j < prev.len() implies outcomes[j] == prev[j] by {}
        assert(outcomes[prev.len() as int] == outcomes.last());
        assert forall|k: int| 0 <= k < ops2.len() && ops2[k] == WriteOp::Commit implies commit_well_placed(total, outcomes, ops2, k) by {
            if k < ops.len() {
                assert(commit_well_placed(total, prev, ops, k));
                assert forall|j: int| 0 <= j < total implies #[trigger] ops2[j + 1] == WriteOp::Insert(j as usize) by {
                    assert(ops2[j + 1] == ops[j + 1]);
                }
            } else {
                assert forall|j: int| 0 <= j < k implies outcomes[j] by {
                    if j < prev.len() {
                        assert(prev[j]);
                    }
                }
                assert forall|j: int| 0 <= j < total implies #[trigger] ops2[j + 1] == WriteOp::Insert(j as usize) by {
                    assert(ops2[j + 1] == ops[j + 1]);
                }
            }
        }
    }
}

/// Atomicity of a batch: a commit is issued only after the transaction was
/// opened and every event of the batch was inserted, once each and in order,
/// with every one of these operations succeeding; so a failed insert is
/// never followed by a commit, and the batch ends `Ok` only if the commit
/// itself succeeded after all of them.
pub proof fn lemma_batch_all_or_nothing(total: usize, outcomes: Seq<bool>)
    ensures
        forall|k: int|
            0 <= k < batch_run(total, outcomes).1.len() && batch_run(total, outcomes).1[k]
                == WriteOp::Commit ==> commit_well_placed(total, outcomes, batch_run(total, outcomes).1, k),
        batch_run(total, outcomes).0.stage == Stage::Finished(Ok(())) ==> {
            &&& outcomes.len() >= total + 2
            &&& forall|j: int| 0 <= j < total + 2 ==> outcomes[j]
        },
{
    lemma_batch_invariant(total, outcomes);
}

impl BatchWrite {
    /// Starts a batch of `total` events; the first operation is `Begin`.
    pub fn new(total: usize) -> (r: (BatchWrite, WriteOp))
        ensures
            r.0 == (BatchWrite { total, stage: Stage::AwaitBegin }),
            r.1 == WriteOp::Begin,
    {
        (BatchWrite { total, stage: Stage::AwaitBegin }, WriteOp::Begin)
    }

    /// The awaited operation ended as `ok` says; returns the next one.
    pub fn next(&mut self, ok: bool) -> (r: WriteOp)
        ensures
            (*final(self), r) == batch_step(*old(self), ok),
    {
        match self.stage {
            Stage::AwaitBegin => {
                if !ok {
                    self.stage = Stage::Finished(Err(WriteError::Begin));
                    WriteOp::Finish(Err(WriteError::Begin))
                } else if self.total == 0 {
                    self.stage = Stage::AwaitCommit;
                    WriteOp::Commit
                } else {
                    self.stage = Stage::AwaitInsert(0);
                    WriteOp::Insert(0)
                }
            },
            Stage::AwaitInsert(i) => {
                if !ok {
                    self.stage = Stage::AwaitRollback(i);
                    WriteOp::Rollback
                } else if i >= self.total || self.total - i <= 1 {
                    self.stage = Stage::AwaitCommit;
                    WriteOp::Commit
                } else {
                    self.stage = Stage::AwaitInsert(i + 1);
                    WriteOp::Insert(i + 1)
                }
            },
            Stage::AwaitCommit => {
                if ok {
                    self.stage = Stage::Finished(Ok(()));
                    WriteOp::Finish(Ok(()))
                } else {
                    self.stage = Stage::Finished(Err(WriteError::Commit));
                    WriteOp::Finish(Err(WriteError::Commit))
                }
            },
            Stage::AwaitRollback(i) => {
                self.stage = Stage::Finished(Err(WriteError::Insert(i)));
                WriteOp::Finish(Err(WriteError::Insert(i)))
            },
            Stage::Finished(r) => WriteOp::Finish(r),
        }
    }
}

/// The outbox writer of one table. Every write goes through one connection,
/// so at most one batch transaction is open at a time per writer.
#[derive(Debug, Clone)]
pub struct OutboxClient {
    pub table: String,
}

impl OutboxClient {
    /// A writer for the outbox table of `config`.
    pub fn new(config: &ReplicationConfig) -> (r: OutboxClient)
        ensures
            r.table@ == config.table@,
    {
        OutboxClient { table: config.table.clone() }
    }

    /// The statement that inserts one event.
    pub fn insert_statement(&self) -> (r: String)
        ensures
            r@ == insert_statement_spec(self.table@),
    {
        insert_statement(self.table.as_str())
    }

    /// The query for the ids of the dead rows (`ttl <= 0`).
    pub fn dead_messages_query(&self) -> (r: String)
        ensures
            r@ == dead_messages_query_spec(self.table@),
    {
        dead_messages_query(self.table.as_str())
    }

    /// The statement that writes back a budget.
    pub fn update_ttl_statement(&self) -> (r: String)
        ensures
            r@ == update_ttl_statement_spec(self.table@),
    {
        update_ttl_statement(self.table.as_str())
    }

    /// The parameters that set the row `id` to one less than its budget
    /// `current`.
    pub fn update_ttl(&self, id: u128, current: i16) -> (r: Result<(u128, i16), WriteError>)
        ensures
            current > i16::MIN ==> r == Ok::<(u128, i16), WriteError>((id, (current - 1) as i16)),
            current == i16::MIN ==> r == Err::<(u128, i16), WriteError>(WriteError::TtlOutOfRange),
    {
        match next_ttl(current) {
            Some(t) => Ok((id, t)),
            None => Err(WriteError::TtlOutOfRange),
        }
    }

    /// Starts writing a batch of `total` events in one transaction.
    pub fn persist(&self, total: usize) -> (r: (BatchWrite, WriteOp))
        ensures
            r.0 == (BatchWrite { total, stage: Stage::AwaitBegin }),
            r.1 == WriteOp::Begin,
    {
        BatchWrite::new(total)
    }
}

} // verus!
