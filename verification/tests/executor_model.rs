use miniexec::cell::SharedData;
use miniexec::computation::FutureValue;
use miniexec::computation::PollDecision;
use miniexec::computation::PollResult;
use miniexec::computation::poll_decision;
use miniexec::executor::exec_block_on;
use miniexec::executor::get_io_value;
use miniexec::executor::run_cycles;
use miniexec::executor::run_independent_pair;
use miniexec::executor::run_to_completion;
use miniexec::sim::IO_RESULT_BOUND;
use miniexec::sim::perform_io;
use miniexec::status::Status;
use miniexec::status::status_code;
use miniexec::status::status_from_code;
use miniexec::waker::EventWaker;

#[test]
fn status_codes_are_fixed() {
    assert_eq!(status_code(Status::Idle), 0);
    assert_eq!(status_code(Status::Pending), 1);
    assert_eq!(status_code(Status::Ready), 2);
}

#[test]
fn status_codes_round_trip() {
    assert_eq!(status_from_code(0), Some(Status::Idle));
    assert_eq!(status_from_code(1), Some(Status::Pending));
    assert_eq!(status_from_code(2), Some(Status::Ready));
}

#[test]
fn invalid_status_codes_are_refused() {
    assert_eq!(status_from_code(3), None);
    assert_eq!(status_from_code(-1), None);
    assert_eq!(status_from_code(i32::MAX), None);
    assert_eq!(status_from_code(i32::MIN), None);
}

#[test]
fn fresh_cell_is_idle_and_cleared() {
    let d = SharedData::new();
    assert_eq!(d.load_status(), Status::Idle);
    assert_eq!(d.load_result(), 0);
}

#[test]
fn cell_fields_are_independent() {
    let mut d = SharedData::new();
    d.store_result(55);
    assert_eq!(d.load_status(), Status::Idle);
    d.store_status(Status::Pending);
    assert_eq!(d.load_result(), 55);
    d.store_status(Status::Ready);
    assert_eq!(d.load_status(), Status::Ready);
    assert_eq!(d.load_result(), 55);
}

#[test]
fn poll_decision_matches_status() {
    assert_eq!(poll_decision(Status::Ready), PollDecision::ConsumeResult);
    assert_eq!(poll_decision(Status::Idle), PollDecision::StartOperation);
    assert_eq!(poll_decision(Status::Pending), PollDecision::KeepWaiting);
}

#[test]
fn first_poll_starts_one_operation() {
    let mut f = FutureValue::new();
    let r = f.poll();
    assert_eq!(r, PollResult::SuspendedSpawning);
    assert_eq!(f.data.status, Status::Pending);
    assert_eq!(f.spawns, 1);
    assert_eq!(f.polls, 1);
}

#[test]
fn poll_is_idempotent_while_pending() {
    let mut f = FutureValue::new();
    assert_eq!(f.poll(), PollResult::SuspendedSpawning);
    for _ in 0..10 {
        assert_eq!(f.poll(), PollResult::SuspendedWaiting);
        assert_eq!(f.data.status, Status::Pending);
        assert_eq!(f.spawns, 1);
    }
    assert_eq!(f.polls, 11);
}

#[test]
fn completion_publishes_result_then_poll_consumes_it() {
    let mut f = FutureValue::new();
    assert_eq!(f.poll(), PollResult::SuspendedSpawning);
    f.complete_operation(63);
    assert_eq!(f.data.status, Status::Ready);
    assert_eq!(f.data.result, 63);
    assert_eq!(f.poll(), PollResult::Complete(63));
    assert_eq!(f.data.status, Status::Idle);
}

#[test]
fn consumed_cell_starts_fresh_cycle_not_stale_result() {
    let mut f = FutureValue::new();
    assert_eq!(f.poll(), PollResult::SuspendedSpawning);
    f.complete_operation(91);
    assert_eq!(f.poll(), PollResult::Complete(91));
    // The cell was consumed: the next poll starts a second operation rather
    // than serving the old result again.
    assert_eq!(f.poll(), PollResult::SuspendedSpawning);
    assert_eq!(f.spawns, 2);
    assert_eq!(f.data.status, Status::Pending);
}

#[test]
fn run_to_completion_returns_forty_two_with_one_spawn_two_polls() {
    let mut f = FutureValue::new();
    let r = run_to_completion(&mut f, 42);
    assert_eq!(r, 42);
    assert_eq!(f.spawns, 1);
    assert_eq!(f.polls, 2);
    assert_eq!(f.data.status, Status::Idle);
}

#[test]
fn run_to_completion_serves_already_published_result() {
    let mut f = FutureValue::new();
    assert_eq!(f.poll(), PollResult::SuspendedSpawning);
    f.complete_operation(17);
    let r = run_to_completion(&mut f, 99);
    assert_eq!(r, 17);
    assert_eq!(f.spawns, 1);
    assert_eq!(f.polls, 2);
}

#[test]
fn duplicate_wakes_collapse_to_one() {
    let mut w = EventWaker::new();
    assert!(!w.notified);
    assert!(!w.take_notification());
    w.wake();
    w.wake();
    w.wake();
    assert!(w.take_notification());
    assert!(!w.take_notification());
}

#[test]
fn spurious_wake_causes_repoll_not_stale_result() {
    let mut f = FutureValue::new();
    let mut w = EventWaker::new();
    assert_eq!(f.poll(), PollResult::SuspendedSpawning);
    // A spurious wake arrives before the operation has published anything:
    // the executor re-polls, learns nothing, and suspends again.
    w.wake();
    assert!(w.take_notification());
    assert_eq!(f.poll(), PollResult::SuspendedWaiting);
    // The legitimate completion and wake; a duplicate follows it.
    f.complete_operation(77);
    w.wake();
    w.wake();
    assert!(w.take_notification());
    assert_eq!(f.poll(), PollResult::Complete(77));
    assert_eq!(f.spawns, 1);
}

#[test]
fn exec_block_on_runs_one_cycle() {
    let mut f = FutureValue::new();
    let r = exec_block_on(&mut f);
    assert!(r < IO_RESULT_BOUND);
    assert_eq!(f.data.status, Status::Idle);
    assert_eq!(f.data.result, r);
    assert_eq!(f.spawns, 1);
    assert_eq!(f.polls, 2);
}

#[test]
fn exec_block_on_consumes_published_result_without_new_spawn() {
    let mut f = FutureValue::new();
    assert_eq!(f.poll(), PollResult::SuspendedSpawning);
    f.complete_operation(250);
    let r = exec_block_on(&mut f);
    assert_eq!(r, 250);
    assert_eq!(f.spawns, 1);
}

#[test]
fn n_cycles_give_n_results_and_n_spawns() {
    let (results, spawns) = run_cycles(5);
    assert_eq!(results.len(), 5);
    assert_eq!(spawns, 5);
    for r in results {
        assert!(r < IO_RESULT_BOUND);
    }
}

#[test]
fn zero_cycles_give_nothing() {
    let (results, spawns) = run_cycles(0);
    assert!(results.is_empty());
    assert_eq!(spawns, 0);
}

#[test]
fn independent_pairs_keep_their_own_results() {
    let (a, b) = run_independent_pair(41, 87);
    assert_eq!(a, 41);
    assert_eq!(b, 87);
    let (c, d) = run_independent_pair(87, 41);
    assert_eq!(c, 87);
    assert_eq!(d, 41);
}

#[test]
fn io_values_stay_in_declared_range() {
    for _ in 0..20 {
        assert!(perform_io() < IO_RESULT_BOUND);
        assert!(get_io_value() < IO_RESULT_BOUND);
    }
}
