//! The replication subscriber's decisions: which handler tasks to start, when
//! to wait for them, and which stream position to acknowledge.
//!
//! The caller owns the stream and the tasks. It feeds each observation to a
//! [`SubscriberState`] and carries out the [`Action`] it gets back. Tasks still
//! running when the subscription stops are abandoned; their transaction was
//! not acknowledged, so the source delivers it again after a restart.
//!
//! Inserted rows are always dispatched. Whether updated rows are dispatched
//! too is a setting of the subscription (`dispatch_updates`): the retry
//! decorator hands a failed row back by updating its budget, so a pipeline
//! that retries through the stream needs it on; with it off, a failed row
//! is written back but not delivered again by this stream.

use vstd::prelude::*;
use crate::frame::{
    Column, ColumnView, LogicalMessage, LogicalView, ProtocolError, columns_view, frame_spec,
    parse_frame,
};
use crate::record::{DecodeError, Entity};

verus! {

/// Where a subscription stands.
#[derive(Debug, Clone, Copy, PartialEq, Eq, Structural)]
pub enum Phase {
    /// Waiting for the position to start from.
    Initializing,
    /// Reading frames.
    Streaming,
    /// A commit was read; waiting for the transaction's handler tasks.
    Draining,
    /// Ended normally or by a fatal error; nothing more happens.
    Closed,
}

/// Why a subscription stopped with an error.
#[derive(Debug, Clone, Copy, PartialEq, Eq, Structural)]
pub enum SubscriberError {
    /// A row to dispatch could not be decoded.
    Decode(DecodeError),
    /// A frame of the stream could not be read.
    Protocol(ProtocolError),
    /// A handler task failed.
    Handler,
    /// The stream itself failed.
    Stream,
    /// An observation came in a phase where it cannot happen.
    OutOfOrder,
    /// More handler tasks are pending than can be counted.
    TooManyTasks,
    /// The subscription had already stopped.
    Closed,
}

/// One observation of the caller, as the state machine sees it.
#[derive(Debug, Clone, Copy, PartialEq, Eq)]
pub enum Event {
    /// The source confirmed this position; the stream starts there.
    Started(u64),
    /// A frame with a row to dispatch (an insert, or an update where
    /// updates are dispatched); `Some` holds the error if the row did not
    /// decode.
    Row(Option<DecodeError>),
    /// A commit frame with the position just past the transaction.
    Commit(u64),
    /// A frame that needs no work (begin, keepalive, ...).
    Passed,
    /// A handler task of the open transaction finished, successfully or not.
    TaskDone(bool),
    /// The stream ended.
    Ended,
    /// The stream or a frame failed.
    Broken(SubscriberError),
}

/// What the caller must do next, without the record to dispatch.
#[derive(Debug, Clone, Copy, PartialEq, Eq)]
pub enum Step {
    Dispatch,
    AwaitTask,
    Acknowledge(u64),
    Continue,
    Stop(Result<(), SubscriberError>),
}

/// What the caller must do next.
#[derive(Debug)]
pub enum Action<T> {
    /// Start a handler task on this record, part of the open transaction.
    Dispatch(T),
    /// Wait for the next pending handler task and report how it went.
    AwaitTask,
    /// Send a status update acknowledging this position, then read on.
    Acknowledge(u64),
    /// Read the next frame.
    Continue,
    /// End the subscription with this outcome.
    Stop(Result<(), SubscriberError>),
}

/// The step that an action stands for.
pub open spec fn step_of<T>(a: Action<T>) -> Step {
    match a {
        Action::Dispatch(_) => Step::Dispatch,
        Action::AwaitTask => Step::AwaitTask,
        Action::Acknowledge(l) => Step::Acknowledge(l),
        Action::Continue => Step::Continue,
        Action::Stop(r) => Step::Stop(r),
    }
}

/// The bookkeeping of one subscription.
#[derive(Debug, Clone, Copy, PartialEq, Eq, Structural)]
pub struct SubscriberState {
    pub phase: Phase,
    /// Whether updated rows are dispatched like inserted ones.
    pub dispatch_updates: bool,
    /// Handler tasks of the open transaction that have not reported back.
    pub pending: u64,
    /// End position of the commit being drained.
    pub commit_lsn: u64,
    /// The last position acknowledged to the source (at first, the one it
    /// confirmed before the stream started).
    pub confirmed: u64,
}

/// The state after a fatal error, and the action that reports it.
pub open spec fn close(s: SubscriberState, e: SubscriberError) -> (SubscriberState, Step) {
    (SubscriberState { phase: Phase::Closed, ..s }, Step::Stop(Err(e)))
}

/// One transition of the subscription.
pub open spec fn step_spec(s: SubscriberState, e: Event) -> (SubscriberState, Step) {
    match s.phase {
        Phase::Closed => (s, Step::Stop(Err(SubscriberError::Closed))),
        Phase::Initializing => match e {
            Event::Started(lsn) => (
                SubscriberState {
                    phase: Phase::Streaming,
                    pending: 0,
                    commit_lsn: 0,
                    confirmed: lsn,
                    ..s
                },
                Step::Continue,
            ),
            Event::Broken(err) => close(s, err),
            _ => close(s, SubscriberError::OutOfOrder),
        },
        Phase::Streaming => match e {
            Event::Row(None) => if s.pending < u64::MAX {
                (SubscriberState { pending: (s.pending + 1) as u64, ..s }, Step::Dispatch)
            } else {
                close(s, SubscriberError::TooManyTasks)
            },
            Event::Row(Some(err)) => close(s, SubscriberError::Decode(err)),
            Event::Commit(lsn) => if s.pending == 0 {
                (SubscriberState { confirmed: lsn, ..s }, Step::Acknowledge(lsn))
            } else {
                (
                    SubscriberState { phase: Phase::Draining, commit_lsn: lsn, ..s },
                    Step::AwaitTask,
                )
            },
            Event::Passed => (s, Step::Continue),
            Event::Ended => (SubscriberState { phase: Phase::Closed, ..s }, Step::Stop(Ok(()))),
            Event::Broken(err) => close(s, err),
            _ => close(s, SubscriberError::OutOfOrder),
        },
        Phase::Draining => match e {
            Event::TaskDone(true) => if s.pending <= 1 {
                (
                    SubscriberState {
                        phase: Phase::Streaming,
                        pending: 0,
                        confirmed: s.commit_lsn,
                        ..s
                    },
                    Step::Acknowledge(s.commit_lsn),
                )
            } else {
                (SubscriberState { pending: (s.pending - 1) as u64, ..s }, Step::AwaitTask)
            },
            Event::TaskDone(false) => close(s, SubscriberError::Handler),
            Event::Broken(err) => close(s, err),
            _ => close(s, SubscriberError::OutOfOrder),
        },
    }
}

/// The event of a row to dispatch, given its columns.
pub open spec fn row_event<T: Entity>(columns: Seq<ColumnView>) -> Event {
    match T::decode_spec(columns) {
        Ok(_) => Event::Row(None),
        Err(e) => Event::Row(Some(e)),
    }
}

/// The event that a logical message is for the entity `T`.
pub open spec fn message_event<T: Entity>(m: LogicalView, dispatch_updates: bool) -> Event {
    match m {
        LogicalView::Insert { columns, .. } => row_event::<T>(columns),
        LogicalView::Update { columns, .. } => if dispatch_updates {
            row_event::<T>(columns)
        } else {
            Event::Passed
        },
        LogicalView::Commit { end_lsn, .. } => Event::Commit(end_lsn),
        _ => Event::Passed,
    }
}

/// The event that a raw frame of the stream is for the entity `T`.
pub open spec fn frame_event<T: Entity>(b: Seq<u8>, dispatch_updates: bool) -> Event {
    match frame_spec(b) {
        Ok(Some(m)) => message_event::<T>(m, dispatch_updates),
        Ok(None) => Event::Passed,
        Err(e) => Event::Broken(SubscriberError::Protocol(e)),
    }
}

/// The state before the start position is known.
pub open spec fn initial_state(dispatch_updates: bool) -> SubscriberState {
    SubscriberState {
        phase: Phase::Initializing,
        dispatch_updates,
        pending: 0,
        commit_lsn: 0,
        confirmed: 0,
    }
}

/// The state after `events`, from `s`, and the step taken for each event.
pub open spec fn run(s: SubscriberState, events: Seq<Event>) -> (SubscriberState, Seq<Step>)
    decreases events.len(),
{
    if events.len() == 0 {
        (s, Seq::empty())
    } else {
        let (mid, steps) = run(s, events.drop_last());
        let (next, step) = step_spec(mid, events.last());
        (next, steps.push(step))
    }
}

/// How many handler tasks the steps start.
pub open spec fn count_dispatch(steps: Seq<Step>) -> nat
    decreases steps.len(),
{
    if steps.len() == 0 {
        0
    } else {
        count_dispatch(steps.drop_last()) + if steps.last() is Dispatch {
            1nat
        } else {
            0nat
        }
    }
}

/// How many handler tasks reported success.
pub open spec fn count_succeeded(events: Seq<Event>) -> nat
    decreases events.len(),
{
    if events.len() == 0 {
        0
    } else {
        count_succeeded(events.drop_last()) + if events.last() == Event::TaskDone(true) {
            1nat
        } else {
            0nat
        }
    }
}

/// How many rows to dispatch were read.
pub open spec fn count_rows(events: Seq<Event>) -> nat
    decreases events.len(),
{
    if events.len() == 0 {
        0
    } else {
        count_rows(events.drop_last()) + if events.last() is Row {
            1nat
        } else {
            0nat
        }
    }
}

/// The end position of the last commit among `events`, or `start`.
pub open spec fn last_commit(events: Seq<Event>, start: u64) -> u64
    decreases events.len(),
{
    if events.len() == 0 {
        start
    } else if events.last() is Commit {
        events.last()->Commit_0
    } else {
        last_commit(events.drop_last(), start)
    }
}

/// What holds after any run from the initial state, while the subscription is
/// open: every row read for dispatch was dispatched, every dispatched task has either
/// succeeded or is still pending, and a drained commit is the last one read.
pub open spec fn run_invariant(s: SubscriberState, events: Seq<Event>, steps: Seq<Step>) -> bool {
    s.phase != Phase::Closed ==> {
        &&& count_dispatch(steps) == count_rows(events)
        &&& count_dispatch(steps) == count_succeeded(events) + s.pending
        &&& s.phase == Phase::Draining ==> s.pending > 0 && s.commit_lsn == last_commit(
            events,
            0,
        )
    }
}

proof fn lemma_run_invariant(events: Seq<Event>, dispatch_updates: bool)
    ensures
        run(initial_state(dispatch_updates), events).1.len() == events.len(),
        run_invariant(run(initial_state(dispatch_updates), events).0, events, run(initial_state(dispatch_updates), events).1),
    decreases events.len(),
{
    if events.len() > 0 {
        let prev = events.drop_last();
        lemma_run_invariant(prev, dispatch_updates);
        let (mid, steps) = run(initial_state(dispatch_updates), prev);
        let (next, step) = step_spec(mid, events.last());
        assert(steps.push(step).drop_last() =~= steps);
    }
}

/// No premature acknowledgement: whenever the subscriber acknowledges a
/// position, every handler task it has dispatched so far has completed
/// successfully.
pub proof fn lemma_ack_after_all_tasks(events: Seq<Event>, dispatch_updates: bool)
    requires
        events.len() > 0,
        run(initial_state(dispatch_updates), events).1.last() is Acknowledge,
    ensures
        count_dispatch(run(initial_state(dispatch_updates), events).1) == count_succeeded(events),
{
    lemma_run_invariant(events, dispatch_updates);
    lemma_run_invariant(events.drop_last(), dispatch_updates);
    let (mid, steps) = run(initial_state(dispatch_updates), events.drop_last());
    assert(steps.push(step_spec(mid, events.last()).1).drop_last() =~= steps);
}

/// At-least-once delivery: whenever the subscriber acknowledges a position,
/// every row read so far for dispatch (each insert, and each update where
/// updates are dispatched) was dispatched to the handler, and the position
/// is the end of the last commit read.
pub proof fn lemma_ack_after_every_row(events: Seq<Event>, dispatch_updates: bool)
    requires
        events.len() > 0,
        run(initial_state(dispatch_updates), events).1.last() is Acknowledge,
    ensures
        count_dispatch(run(initial_state(dispatch_updates), events).1) == count_rows(events),
        run(initial_state(dispatch_updates), events).1.last() == Step::Acknowledge(last_commit(events, 0)),
        run(initial_state(dispatch_updates), events).0.confirmed == last_commit(events, 0),
{
    lemma_run_invariant(events, dispatch_updates);
    lemma_run_invariant(events.drop_last(), dispatch_updates);
    let (mid, steps) = run(initial_state(dispatch_updates), events.drop_last());
    assert(steps.push(step_spec(mid, events.last()).1).drop_last() =~= steps);
}

/// The position confirmed to the source moves only when the subscription
/// starts or when it is acknowledged; so after a stop, a restart resumes at
/// the last acknowledged transaction.
pub proof fn lemma_confirmed_moves_only_by_ack(s: SubscriberState, e: Event)
    ensures
        step_spec(s, e).0.confirmed != s.confirmed ==> (s.phase == Phase::Initializing
            && e is Started) || step_spec(s, e).1 == Step::Acknowledge(step_spec(s, e).0.confirmed),
{
}

/// A stopped subscription stays stopped: a failed handler or a bad row is
/// never followed by an acknowledgement or a dispatch.
pub proof fn lemma_closed_is_final(s: SubscriberState, events: Seq<Event>)
    requires
        s.phase == Phase::Closed,
    ensures
        run(s, events).0.phase == Phase::Closed,
        forall|i: int| 0 <= i < run(s, events).1.len() ==> run(s, events).1[i] is Stop,
    decreases events.len(),
{
    if events.len() > 0 {
        lemma_closed_is_final(s, events.drop_last());
    }
}

/// A handler task that fails stops the subscription before the transaction
/// it belongs to is acknowledged.
pub proof fn lemma_failed_task_stops(s: SubscriberState)
    requires
        s.phase == Phase::Draining,
    ensures
        step_spec(s, Event::TaskDone(false)).0.phase == Phase::Closed,
        step_spec(s, Event::TaskDone(false)).0.confirmed == s.confirmed,
        step_spec(s, Event::TaskDone(false)).1 == Step::Stop(Err(SubscriberError::Handler)),
{
}

/// The position of the last acknowledgement among `steps`, or `start`.
pub open spec fn last_ack(steps: Seq<Step>, start: u64) -> u64
    decreases steps.len(),
{
    if steps.len() == 0 {
        start
    } else if steps.last() is Acknowledge {
        steps.last()->Acknowledge_0
    } else {
        last_ack(steps.drop_last(), start)
    }
}

/// Restart safety: once a subscription has started at `start`, the position
/// it holds as confirmed is always the last one it acknowledged, or `start`
/// if it acknowledged none; nothing after that position was acknowledged, so
/// a subscriber started afresh from it sees every transaction that did not
/// complete.
pub proof fn lemma_confirmed_is_last_ack(events: Seq<Event>, start: u64, dispatch_updates: bool)
    requires
        events.len() > 0,
        events[0] == Event::Started(start),
    ensures
        run(initial_state(dispatch_updates), events).0.phase != Phase::Initializing,
        run(initial_state(dispatch_updates), events).0.confirmed == last_ack(run(initial_state(dispatch_updates), events).1, start),
    decreases events.len(),
{
    let (s, steps) = run(initial_state(dispatch_updates), events);
    let prev = events.drop_last();
    let (mid, before) = run(initial_state(dispatch_updates), prev);
    let (next, step) = step_spec(mid, events.last());
    assert(before.push(step).drop_last() =~= before);
    assert(steps == before.push(step));
    if events.len() == 1 {
        assert(prev.len() == 0);
        assert(events.last() == events[0]);
        assert(last_ack(before, start) == start);
    } else {
        assert(prev[0] == events[0]);
        lemma_confirmed_is_last_ack(prev, start, dispatch_updates);
        lemma_confirmed_moves_only_by_ack(mid, events.last());
    }
    assert(last_ack(steps, start) == if step is Acknowledge {
        step->Acknowledge_0
    } else {
        last_ack(before, start)
    });
}

impl SubscriberState {
    /// A subscription that has not started yet; `dispatch_updates` says
    /// whether updated rows are dispatched like inserted ones.
    pub fn new(dispatch_updates: bool) -> (r: SubscriberState)
        ensures
            r == initial_state(dispatch_updates),
    {
        SubscriberState {
            phase: Phase::Initializing,
            dispatch_updates,
            pending: 0,
            commit_lsn: 0,
            confirmed: 0,
        }
    }

    /// Applies one event.
    pub fn apply(&mut self, e: Event) -> (r: Step)
        ensures
            (*final(self), r) == step_spec(*old(self), e),
    {
        match self.phase {
            Phase::Closed => Step::Stop(Err(SubscriberError::Closed)),
            Phase::Initializing => match e {
                Event::Started(lsn) => {
                    self.phase = Phase::Streaming;
                    self.pending = 0;
                    self.commit_lsn = 0;
                    self.confirmed = lsn;
                    Step::Continue
                },
                Event::Broken(err) => self.fail(err),
                _ => self.fail(SubscriberError::OutOfOrder),
            },
            Phase::Streaming => match e {
                Event::Row(None) => {
                    if self.pending < u64::MAX {
                        self.pending = self.pending + 1;
                        Step::Dispatch
                    } else {
                        self.fail(SubscriberError::TooManyTasks)
                    }
                },
                Event::Row(Some(err)) => self.fail(SubscriberError::Decode(err)),
                Event::Commit(lsn) => {
                    if self.pending == 0 {
                        self.confirmed = lsn;
                        Step::Acknowledge(lsn)
                    } else {
                        self.phase = Phase::Draining;
                        self.commit_lsn = lsn;
                        Step::AwaitTask
                    }
                },
                Event::Passed => Step::Continue,
                Event::Ended => {
                    self.phase = Phase::Closed;
                    Step::Stop(Ok(()))
                },
                Event::Broken(err) => self.fail(err),
                _ => self.fail(SubscriberError::OutOfOrder),
            },
            Phase::Draining => match e {
                Event::TaskDone(true) => {
                    if self.pending <= 1 {
                        self.phase = Phase::Streaming;
                        self.pending = 0;
                        self.confirmed = self.commit_lsn;
                        Step::Acknowledge(self.commit_lsn)
                    } else {
                        self.pending = self.pending - 1;
                        Step::AwaitTask
                    }
                },
                Event::TaskDone(false) => self.fail(SubscriberError::Handler),
                Event::Broken(err) => self.fail(err),
                _ => self.fail(SubscriberError::OutOfOrder),
            },
        }
    }

    fn fail(&mut self, e: SubscriberError) -> (r: Step)
        ensures
            (*final(self), r) == close(*old(self), e),
    {
        self.phase = Phase::Closed;
        Step::Stop(Err(e))
    }

    /// The source confirmed `lsn`; streaming starts there.
    pub fn start<T>(&mut self, lsn: u64) -> (r: Action<T>)
        ensures
            (*final(self), step_of(r)) == step_spec(*old(self), Event::Started(lsn)),
    {
        lift(self.apply(Event::Started(lsn)))
    }

    /// Handles one logical message: decodes a row to dispatch and dispatches
    /// it, or waits for the transaction's tasks at a commit.
    pub fn on_message<T: Entity>(&mut self, m: &LogicalMessage) -> (r: Action<T>)
        ensures
            (*final(self), step_of(r)) == step_spec(
                *old(self),
                message_event::<T>(m@, old(self).dispatch_updates),
            ),
            r matches Action::Dispatch(x) ==> match m@ {
                LogicalView::Insert { columns, .. } => T::decode_spec(columns) == Ok::<
                    T::V,
                    DecodeError,
                >(x@),
                LogicalView::Update { columns, .. } => T::decode_spec(columns) == Ok::<
                    T::V,
                    DecodeError,
                >(x@),
                _ => false,
            },
    {
        match m {
            LogicalMessage::Insert { columns, .. } => self.on_row(columns.as_slice()),
            LogicalMessage::Update { columns, .. } => {
                if self.dispatch_updates {
                    self.on_row(columns.as_slice())
                } else {
                    lift(self.apply(Event::Passed))
                }
            },
            LogicalMessage::Commit { end_lsn, .. } => lift(self.apply(Event::Commit(*end_lsn))),
            _ => lift(self.apply(Event::Passed)),
        }
    }

    fn on_row<T: Entity>(&mut self, columns: &[Column]) -> (r: Action<T>)
        ensures
            (*final(self), step_of(r)) == step_spec(*old(self), row_event::<T>(columns_view(columns@))),
            r matches Action::Dispatch(x) ==> T::decode_spec(columns_view(columns@)) == Ok::<
                T::V,
                DecodeError,
            >(x@),
    {
        match T::decode(columns) {
            Ok(record) => match self.apply(Event::Row(None)) {
                Step::Dispatch => Action::Dispatch(record),
                other => lift(other),
            },
            Err(e) => lift(self.apply(Event::Row(Some(e)))),
        }
    }

    /// Handles one raw frame of the replication stream.
    pub fn on_frame<T: Entity>(&mut self, frame: &[u8]) -> (r: Action<T>)
        ensures
            (*final(self), step_of(r)) == step_spec(
                *old(self),
                frame_event::<T>(frame@, old(self).dispatch_updates),
            ),
    {
        match parse_frame(frame) {
            Ok(Some(m)) => self.on_message(&m),
            Ok(None) => lift(self.apply(Event::Passed)),
            Err(e) => lift(self.apply(Event::Broken(SubscriberError::Protocol(e)))),
        }
    }

    /// A pending handler task finished.
    pub fn on_task_done<T>(&mut self, succeeded: bool) -> (r: Action<T>)
        ensures
            (*final(self), step_of(r)) == step_spec(*old(self), Event::TaskDone(succeeded)),
    {
        lift(self.apply(Event::TaskDone(succeeded)))
    }

    /// The stream ended.
    pub fn on_stream_end<T>(&mut self) -> (r: Action<T>)
        ensures
            (*final(self), step_of(r)) == step_spec(*old(self), Event::Ended),
    {
        lift(self.apply(Event::Ended))
    }

    /// The stream failed.
    pub fn on_stream_error<T>(&mut self) -> (r: Action<T>)
        ensures
            (*final(self), step_of(r)) == step_spec(
                *old(self),
                Event::Broken(SubscriberError::Stream),
            ),
    {
        lift(self.apply(Event::Broken(SubscriberError::Stream)))
    }
}

/// The action for a step that carries no record.
fn lift<T>(s: Step) -> (r: Action<T>)
    requires
        !(s is Dispatch),
    ensures
        step_of(r) == s,
{
    match s {
        // excluded by the precondition
        Step::Dispatch => Action::Continue,
        Step::AwaitTask => Action::AwaitTask,
        Step::Acknowledge(l) => Action::Acknowledge(l),
        Step::Continue => Action::Continue,
        Step::Stop(r) => Action::Stop(r),
    }
}

} // verus!
