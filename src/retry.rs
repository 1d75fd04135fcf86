//! The retry decorator's decisions. The decorator wraps an inner handler: a
//! row whose retry budget (`ttl`) is spent is passed over, any other row goes
//! to the inner handler, and a failure of the inner handler is absorbed by
//! writing back a budget one lower.

use vstd::prelude::*;

verus! {

/// What the decorator does with a delivered row.
#[derive(Debug, Clone, Copy, PartialEq, Eq, Structural)]
pub enum Delivery {
    /// The row is dead: report success without calling the inner handler.
    PassOver,
    /// Call the inner handler.
    Invoke,
}

/// What the decorator does once the inner handler has returned.
#[derive(Debug, Clone, Copy, PartialEq, Eq, Structural)]
pub enum Settle {
    /// Report success; nothing is written.
    Done,
    /// Write this budget back to the row, then report success.
    WriteTtl(i16),
}

/// Whether a row with budget `ttl` is dead.
pub open spec fn is_dead(ttl: i16) -> bool {
    ttl <= 0
}

pub open spec fn delivery_spec(ttl: i16) -> Delivery {
    if is_dead(ttl) {
        Delivery::PassOver
    } else {
        Delivery::Invoke
    }
}

pub open spec fn settle_spec(ttl: i16, succeeded: bool) -> Settle {
    if succeeded {
        Settle::Done
    } else {
        Settle::WriteTtl((ttl - 1) as i16)
    }
}

/// Decides what to do with a delivered row whose budget is `ttl`.
pub fn on_delivery(ttl: i16) -> (r: Delivery)
    ensures
        r == delivery_spec(ttl),
{
    if ttl <= 0 {
        Delivery::PassOver
    } else {
        Delivery::Invoke
    }
}

/// Decides what to do once the inner handler, called on a live row with
/// budget `ttl`, has succeeded or failed.
pub fn settle(ttl: i16, succeeded: bool) -> (r: Settle)
    requires
        !is_dead(ttl),
    ensures
        r == settle_spec(ttl, succeeded),
{
    if succeeded {
        Settle::Done
    } else {
        Settle::WriteTtl(ttl - 1)
    }
}

/// The budget that a write-back after a failure stores: one less than
/// `current`, or `None` where that does not fit an `i16`.
pub fn next_ttl(current: i16) -> (r: Option<i16>)
    ensures
        current > i16::MIN ==> r == Some((current - 1) as i16),
        current == i16::MIN ==> r is None,
{
    if current > i16::MIN {
        Some(current - 1)
    } else {
        None
    }
}

/// How a row fares when it is delivered again after every failure.
pub ghost struct RetryRun {
    /// Calls of the inner handler.
    pub invocations: nat,
    /// The budget when the deliveries stop.
    pub final_ttl: int,
    /// Whether the inner handler succeeded on one of the calls.
    pub delivered: bool,
}

/// Deliveries of a row with budget `ttl` whose inner handler returns the
/// outcomes `outcomes` in turn; each failure writes back the budget and the
/// row is delivered again, until it succeeds, is dead or no outcome is left.
pub open spec fn redeliver(ttl: i16, outcomes: Seq<bool>) -> RetryRun
    decreases outcomes.len(),
{
    if delivery_spec(ttl) == Delivery::PassOver || outcomes.len() == 0 {
        RetryRun { invocations: 0, final_ttl: ttl as int, delivered: false }
    } else {
        match settle_spec(ttl, outcomes[0]) {
            Settle::Done => RetryRun { invocations: 1, final_ttl: ttl as int, delivered: true },
            Settle::WriteTtl(next) => {
                let rest = redeliver(next, outcomes.drop_first());
                RetryRun { invocations: rest.invocations + 1, ..rest }
            },
        }
    }
}

/// Budget monotonicity: a failure writes back exactly one less than the
/// row's budget, which is never negative; a success writes nothing, so the
/// budget stays where it was.
pub proof fn lemma_ttl_decreases_by_one(ttl: i16, succeeded: bool)
    requires
        delivery_spec(ttl) == Delivery::Invoke,
    ensures
        !succeeded ==> settle_spec(ttl, succeeded) == Settle::WriteTtl((ttl - 1) as i16),
        !succeeded ==> 0 <= ttl - 1 < ttl,
        succeeded ==> settle_spec(ttl, succeeded) == Settle::Done,
{
}

/// Dead-letter idempotence: however often a dead row is delivered again, the
/// inner handler is never called and success is reported each time.
pub proof fn lemma_dead_row_passed_over(ttl: i16, outcomes: Seq<bool>)
    requires
        is_dead(ttl),
    ensures
        delivery_spec(ttl) == Delivery::PassOver,
        redeliver(ttl, outcomes).invocations == 0,
        redeliver(ttl, outcomes).final_ttl == ttl,
{
}

/// A live row reaches the inner handler at most `ttl` times; when one of
/// them succeeds, each earlier call failed and took one off the budget.
pub proof fn lemma_retry_bounded(ttl: i16, outcomes: Seq<bool>)
    ensures
        ttl > 0 ==> redeliver(ttl, outcomes).invocations <= ttl,
        redeliver(ttl, outcomes).delivered ==> redeliver(ttl, outcomes).final_ttl == ttl
            - redeliver(ttl, outcomes).invocations + 1,
        redeliver(ttl, outcomes).delivered ==> redeliver(ttl, outcomes).final_ttl > 0,
    decreases outcomes.len(),
{
    if !is_dead(ttl) && outcomes.len() > 0 && !outcomes[0] {
        lemma_retry_bounded((ttl - 1) as i16, outcomes.drop_first());
    }
}

} // verus!
