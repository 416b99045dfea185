//! The suspendable computation: a poll-based unit of work over a shared cell.

use vstd::prelude::*;
use crate::cell::SharedData;
use crate::status::Status;

verus! {

/// What one poll call reports to the executor driving the computation.
#[derive(Clone, Copy, Debug, PartialEq, Eq, Structural)]
pub enum PollResult {
    /// The operation finished; the cell was consumed and this is its result.
    Complete(u32),
    /// Not finished; this poll started the one background operation of the
    /// cycle, and the driver must run it before the next wake can come.
    SuspendedSpawning,
    /// Not finished; an operation is already in flight, nothing was started.
    SuspendedWaiting,
}

/// The poll decision as a function of the observed status alone.
pub open spec fn spec_poll_outcome(d: SharedData) -> PollResult {
    match d.status {
        Status::Ready => PollResult::Complete(d.result),
        Status::Idle => PollResult::SuspendedSpawning,
        Status::Pending => PollResult::SuspendedWaiting,
    }
}

/// The cell as one poll call leaves it.
pub open spec fn spec_poll_cell(d: SharedData) -> SharedData {
    match d.status {
        Status::Ready => SharedData { status: Status::Idle, ..d },
        Status::Idle => SharedData { status: Status::Pending, ..d },
        Status::Pending => d,
    }
}

/// What a poll does for a status it observed, before any payload is read.
#[derive(Clone, Copy, Debug, PartialEq, Eq, Structural)]
pub enum PollDecision {
    /// `Ready`: consume the published result and reset the cell.
    ConsumeResult,
    /// `Idle`: move to `Pending` and start the cycle's background operation.
    StartOperation,
    /// `Pending`: report suspension again; an operation is already in flight.
    KeepWaiting,
}

/// The decision table of one poll: the branch taken for each observed status.
///
/// The executable twin of the computation reads its status from an atomic cell
/// and takes the branch this function picks, so the branch logic itself stays
/// verified even where the cell is shared between threads.
pub fn poll_decision(s: Status) -> (r: PollDecision)
    ensures
        r == PollDecision::ConsumeResult <==> s == Status::Ready,
        r == PollDecision::StartOperation <==> s == Status::Idle,
        r == PollDecision::KeepWaiting <==> s == Status::Pending,
{
    match s {
        Status::Ready => PollDecision::ConsumeResult,
        Status::Idle => PollDecision::StartOperation,
        Status::Pending => PollDecision::KeepWaiting,
    }
}

/// A suspendable computation wrapping one shared cell, with counters for its
/// two externally observable actions: polls taken and operations started.
pub struct FutureValue {
    /// The status/result cell shared with the background operation.
    pub data: SharedData,
    /// How many background operations this computation has started.
    pub spawns: u64,
    /// How many times this computation has been polled.
    pub polls: u64,
}

impl FutureValue {
    /// A fresh computation over a fresh cell; nothing polled, nothing started.
    pub fn new() -> (f: FutureValue)
        ensures
            f.data.status == Status::Idle,
            f.data.result == 0,
            f.spawns == 0,
            f.polls == 0,
    {
        FutureValue { data: SharedData::new(), spawns: 0, polls: 0 }
    }

    /// One poll step.
    ///
    /// On `Ready` the result-availability signal is consumed: the cell returns
    /// to `Idle` (reusable for a fresh cycle) and the held result comes back as
    /// `Complete`. On `Idle` the cycle's one background operation is started:
    /// the cell moves to `Pending` and the spawn counter advances. On `Pending`
    /// nothing changes: no new information, and no second operation is started.
    pub fn poll(&mut self) -> (r: PollResult)
        requires
            old(self).data.status is Idle ==> old(self).spawns < u64::MAX,
            old(self).polls < u64::MAX,
        ensures
            r == spec_poll_outcome(old(self).data),
            final(self).data == spec_poll_cell(old(self).data),
            final(self).polls == old(self).polls + 1,
            final(self).spawns == old(self).spawns + (if old(self).data.status is Idle {
                1int
            } else {
                0int
            }),
    {
        self.polls = self.polls + 1;
        let status = self.data.load_status();
        match poll_decision(status) {
            PollDecision::ConsumeResult => {
                self.data.store_status(Status::Idle);
                PollResult::Complete(self.data.load_result())
            },
            PollDecision::StartOperation => {
                self.data.store_status(Status::Pending);
                self.spawns = self.spawns + 1;
                PollResult::SuspendedSpawning
            },
            PollDecision::KeepWaiting => PollResult::SuspendedWaiting,
        }
    }

    /// The background operation's completion, as the polling side observes it.
    ///
    /// The worker publishes the result first and `Ready` second; a poller reads
    /// the result only after seeing `Ready`, so the two writes act as one step
    /// of the cell. Requires `Pending`: exactly one operation is in flight per
    /// cycle, and only its worker writes here.
    pub fn complete_operation(&mut self, value: u32)
        requires
            old(self).data.status == Status::Pending,
        ensures
            final(self).data.status == Status::Ready,
            final(self).data.result == value,
            final(self).spawns == old(self).spawns,
            final(self).polls == old(self).polls,
    {
        self.data.store_result(value);
        self.data.store_status(Status::Ready);
    }
}

/// While an operation is pending, polling is idempotent: every poll before the
/// completion reports `SuspendedWaiting`, leaves the cell untouched, and starts
/// no second background operation — however many such polls intervene.
pub proof fn poll_pending_is_stutter(d: SharedData)
    requires
        d.status == Status::Pending,
    ensures
        spec_poll_outcome(d) == PollResult::SuspendedWaiting,
        spec_poll_cell(d) == d,
        spec_poll_outcome(spec_poll_cell(d)) == PollResult::SuspendedWaiting,
{
}

/// Consuming a completed cycle leaves no stale result behind: the poll that
/// returns `Complete` with the published result resets the cell to `Idle`, and
/// the next poll on that cell reports `SuspendedSpawning` — a fresh operation
/// is started rather than the old result served again.
pub proof fn complete_then_repoll_starts_fresh(d: SharedData)
    requires
        d.status == Status::Ready,
    ensures
        spec_poll_outcome(d) == PollResult::Complete(d.result),
        spec_poll_cell(d).status == Status::Idle,
        spec_poll_outcome(spec_poll_cell(d)) == PollResult::SuspendedSpawning,
        spec_poll_cell(spec_poll_cell(d)).status == Status::Pending,
{
}

/// The per-cycle ordering of the cell: a step from `a` to `b` either stands
/// still or moves one arc along `Idle -> Pending -> Ready -> Idle`.
pub open spec fn cycle_step(a: Status, b: Status) -> bool {
    ||| a == b
    ||| (a == Status::Idle && b == Status::Pending)
    ||| (a == Status::Pending && b == Status::Ready)
    ||| (a == Status::Ready && b == Status::Idle)
}

/// Every poll respects the cycle order: the status only stands still or moves
/// one arc along `Idle -> Pending -> Ready -> Idle`, never backwards or across.
pub proof fn poll_respects_cycle(d: SharedData)
    ensures
        cycle_step(d.status, spec_poll_cell(d).status),
{
}

} // verus!
