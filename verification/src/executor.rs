//! The blocking executor: drives one suspendable computation to completion.

use vstd::prelude::*;
use crate::computation::FutureValue;
use crate::computation::PollResult;
use crate::sim::perform_io;
use crate::sim::IO_RESULT_BOUND;
use crate::status::Status;
use crate::waker::EventWaker;

verus! {

/// The run-to-completion loop, with the background operation's value supplied
/// by the caller.
///
/// The loop polls the computation; on `Complete` it returns the value, and
/// otherwise it lets the cycle's one background operation publish `op_value`
/// into the cell, take the wake it delivers, and re-poll. The operation's
/// value is a parameter so that the contract holds for every value the opaque
/// operation could produce: an idle computation is driven through exactly one
/// spawn and two polls and yields exactly `op_value` — never a stale or
/// zero-valued substitute — while a computation whose result is already
/// published yields that result in a single consuming poll.
///
/// Requires a cell that is not `Pending`: a pending cell belongs to a cycle
/// already driven by some executor, and only one executor may drive a
/// computation at a time.
pub fn run_to_completion(f: &mut FutureValue, op_value: u32) -> (r: u32)
    requires
        old(f).data.status != Status::Pending,
        old(f).polls + 2 <= u64::MAX,
        old(f).spawns + 1 <= u64::MAX,
    ensures
        old(f).data.status is Idle ==> ({
            &&& r == op_value
            &&& final(f).data.status is Idle
            &&& final(f).data.result == op_value
            &&& final(f).spawns == old(f).spawns + 1
            &&& final(f).polls == old(f).polls + 2
        }),
        old(f).data.status is Ready ==> ({
            &&& r == old(f).data.result
            &&& final(f).data.status is Idle
            &&& final(f).data.result == old(f).data.result
            &&& final(f).spawns == old(f).spawns
            &&& final(f).polls == old(f).polls + 1
        }),
{
    let mut waker = EventWaker::new();
    loop
        invariant
            old(f).data.status != Status::Pending,
            old(f).polls + 2 <= u64::MAX,
            old(f).spawns + 1 <= u64::MAX,
            (*f == *old(f)) || ({
                &&& old(f).data.status is Idle
                &&& f.data.status is Ready
                &&& f.data.result == op_value
                &&& f.spawns == old(f).spawns + 1
                &&& f.polls == old(f).polls + 1
            }),
        decreases old(f).polls + 2 - f.polls,
    {
        match f.poll() {
            PollResult::Complete(v) => {
                return v;
            },
            PollResult::SuspendedSpawning => {
                // The background operation of this cycle: it publishes its
                // value into the cell and delivers a wake, which the blocked
                // wait consumes before the loop polls again.
                f.complete_operation(op_value);
                waker.wake();
                let _ = waker.take_notification();
            },
            PollResult::SuspendedWaiting => {
                let _ = waker.take_notification();
            },
        }
    }
}

/// Blocks on one computation until it completes and returns its result.
///
/// The computation's background operation is the simulated I/O draw, so of
/// the result itself only its range is known; everything else — one spawn and
/// two polls for an idle computation, the consumed cell left behind, a
/// published result served as-is — is pinned down exactly.
pub fn exec_block_on(f: &mut FutureValue) -> (r: u32)
    requires
        old(f).data.status != Status::Pending,
        old(f).polls + 2 <= u64::MAX,
        old(f).spawns + 1 <= u64::MAX,
    ensures
        old(f).data.status is Idle ==> ({
            &&& r < IO_RESULT_BOUND
            &&& final(f).data.status is Idle
            &&& final(f).data.result == r
            &&& final(f).spawns == old(f).spawns + 1
            &&& final(f).polls == old(f).polls + 2
        }),
        old(f).data.status is Ready ==> ({
            &&& r == old(f).data.result
            &&& final(f).data.status is Idle
            &&& final(f).data.result == old(f).data.result
            &&& final(f).spawns == old(f).spawns
            &&& final(f).polls == old(f).polls + 1
        }),
{
    // The operation is opaque, so the moment its value is drawn is not
    // observable; drawing it here lets one verified loop serve every driver.
    let op_value = perform_io();
    run_to_completion(f, op_value)
}

/// One full I/O cycle on a fresh computation: what one awaited value is.
pub fn get_io_value() -> (r: u32)
    ensures
        r < IO_RESULT_BOUND,
{
    let mut f = FutureValue::new();
    exec_block_on(&mut f)
}

/// Runs `n` sequential cycles, each on a fresh computation.
///
/// The caller receives exactly `n` results, each in the simulated operation's
/// declared range, and exactly `n` background operations are started in total:
/// one per cycle, never more.
pub fn run_cycles(n: usize) -> (out: (Vec<u32>, u64))
    ensures
        out.0@.len() == n,
        out.1 == n,
        forall|i: int| 0 <= i < n ==> out.0@[i] < IO_RESULT_BOUND,
{
    let mut results: Vec<u32> = Vec::new();
    let mut total_spawns: u64 = 0;
    let mut i: usize = 0;
    while i < n
        invariant
            i <= n,
            results@.len() == i,
            total_spawns == i,
            forall|j: int| 0 <= j < i ==> results@[j] < IO_RESULT_BOUND,
        decreases n - i,
    {
        let mut f = FutureValue::new();
        let r = exec_block_on(&mut f);
        results.push(r);
        total_spawns = total_spawns + f.spawns;
        i = i + 1;
    }
    (results, total_spawns)
}

/// Two independent executor/computation pairs do not interfere.
///
/// Each pair runs its own cycle over its own cell with its own operation
/// value, and each yields exactly its own value: no state is shared between
/// unrelated cycles, so neither result can come from the other pair's cell.
pub fn run_independent_pair(first_value: u32, second_value: u32) -> (r: (u32, u32))
    ensures
        r.0 == first_value,
        r.1 == second_value,
{
    let mut first = FutureValue::new();
    let mut second = FutureValue::new();
    let a = run_to_completion(&mut first, first_value);
    let b = run_to_completion(&mut second, second_value);
    (a, b)
}

} // verus!
