use lzos::Board;
use lzos::Executor;
use lzos::Poll;
use lzos::ValueTask;

#[test]
fn spawning_k_completing_tasks_gives_k_polls_in_fifo_order() {
    let mut exec: Executor<ValueTask> = Executor::new();
    let mut board = Board::new(3);
    let t0 = exec.spawn(ValueTask::Produce { slot: 0, value: 10 });
    let t1 = exec.spawn(ValueTask::Produce { slot: 1, value: 20 });
    let t2 = exec.spawn(ValueTask::Produce { slot: 2, value: 30 });
    assert_eq!((t0, t1, t2), (0, 1, 2));
    assert_eq!(exec.ready_len(), 3);
    let mut polls: Vec<(u64, Poll)> = Vec::new();
    while let Some(p) = exec.step(&mut board) {
        polls.push(p);
    }
    assert_eq!(polls, vec![(0, Poll::Ready), (1, Poll::Ready), (2, Poll::Ready)]);
    assert_eq!(exec.ready_len(), 0);
    assert_eq!(exec.task_count(), 0);
    assert_eq!(board.get(0), Some(10));
    assert_eq!(board.get(1), Some(20));
    assert_eq!(board.get(2), Some(30));
}

#[test]
fn run_drains_the_ready_queue() {
    let mut exec: Executor<ValueTask> = Executor::new();
    let mut board = Board::new(2);
    exec.spawn(ValueTask::Produce { slot: 0, value: 7 });
    exec.spawn(ValueTask::Produce { slot: 1, value: 8 });
    exec.run(&mut board);
    assert_eq!(exec.ready_len(), 0);
    assert_eq!(exec.task_count(), 0);
    assert_eq!(board.get(0), Some(7));
    assert_eq!(board.get(1), Some(8));
}

#[test]
fn pending_task_is_parked_and_not_polled_again() {
    let mut exec: Executor<ValueTask> = Executor::new();
    let mut board = Board::new(2);
    let relay = exec.spawn(ValueTask::Relay { source: 0, dest: 1 });
    let mut polls = 0;
    while let Some((id, outcome)) = exec.step(&mut board) {
        assert_eq!(id, relay);
        assert_eq!(outcome, Poll::Pending);
        polls += 1;
    }
    assert_eq!(polls, 1);
    // Parked: still stored, but repeated runs never poll it again.
    assert_eq!(exec.task_count(), 1);
    exec.run(&mut board);
    exec.run(&mut board);
    assert!(exec.step(&mut board).is_none());
    assert_eq!(exec.task_count(), 1);
    assert_eq!(board.get(1), None);
}

#[test]
fn wake_reenqueues_a_parked_task() {
    let mut exec: Executor<ValueTask> = Executor::new();
    let mut board = Board::new(2);
    let relay = exec.spawn(ValueTask::Relay { source: 0, dest: 1 });
    exec.run(&mut board);
    assert_eq!(exec.task_count(), 1);
    // The awaited event arrives (an interrupt handler would do this).
    board.put(0, 42);
    exec.wake(relay);
    assert_eq!(exec.ready_len(), 1);
    exec.run(&mut board);
    assert_eq!(exec.task_count(), 0);
    assert_eq!(board.get(1), Some(42));
}

#[test]
fn wake_of_dead_or_queued_tasks_changes_nothing() {
    let mut exec: Executor<ValueTask> = Executor::new();
    let mut board = Board::new(1);
    let id = exec.spawn(ValueTask::Produce { slot: 0, value: 1 });
    exec.wake(id);
    assert_eq!(exec.ready_len(), 1);
    exec.wake(77);
    assert_eq!(exec.ready_len(), 1);
    exec.run(&mut board);
    exec.wake(id);
    assert_eq!(exec.ready_len(), 0);
}

#[test]
fn producer_then_awaiting_relay_records_forty_two() {
    let mut exec: Executor<ValueTask> = Executor::new();
    let mut board = Board::new(2);
    let t1 = exec.spawn(ValueTask::Produce { slot: 0, value: 42 });
    let t2 = exec.spawn(ValueTask::Relay { source: 0, dest: 1 });
    assert!(t1 < t2);
    let mut order: Vec<u64> = Vec::new();
    while let Some((id, _)) = exec.step(&mut board) {
        order.push(id);
    }
    // The producer completes before the relay is ever polled, so the relay
    // observes 42 on its first poll and records exactly that.
    assert_eq!(order, vec![t1, t2]);
    assert_eq!(exec.task_count(), 0);
    assert_eq!(board.get(1), Some(42));
}
