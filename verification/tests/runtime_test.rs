use thrust_rs::executor::{LoopAction, Scheduler, IDLE_WAIT_MS};
use thrust_rs::futures::countdown::Countdown;
use thrust_rs::futures::yield_once::YieldOnce;
use thrust_rs::futures::Poll;
use thrust_rs::runtime::spawn::{
    clear_spawn_tx, clear_task_count, set_spawn_tx, set_task_count, with_spawn_tx,
    with_task_count,
};
use thrust_rs::runtime::with_reactor::{clear_reactor, set_reactor, try_with_reactor, with_reactor};
use thrust_rs::runtime::{BlockOn, BlockOnAction, BlockOnEvent};

#[test]
fn runtime_yield_once() {
    let mut scheduler: Scheduler<()> = Scheduler::new();
    let mut task = YieldOnce::new();
    scheduler.spawn(());
    loop {
        let mut work_done = false;
        while let Some((id, ())) = scheduler.next_ready() {
            work_done = true;
            match task.poll() {
                Poll::Pending => scheduler.wake(id, ()),
                Poll::Ready(()) => scheduler.task_finished(id),
            }
        }
        if scheduler.after_drain(work_done) == LoopAction::Exit {
            break;
        }
    }
    assert_eq!(scheduler.task_count(), 0);
}

#[test]
fn runtime_spawn_compiles() {
    let mut scheduler: Scheduler<&str> = Scheduler::new();
    scheduler.spawn("task");
    assert_eq!(scheduler.task_count(), 1);
}

#[test]
fn idle_executor_waits_then_exits() {
    let mut scheduler: Scheduler<u8> = Scheduler::new();
    assert_eq!(scheduler.after_drain(false), LoopAction::Exit);
    assert_eq!(scheduler.next_id(), 0);
    scheduler.spawn(1);
    assert_eq!(scheduler.after_drain(false), LoopAction::WaitForEvents(Some(IDLE_WAIT_MS)));
    assert_eq!(scheduler.after_drain(true), LoopAction::Continue);
    assert_eq!(IDLE_WAIT_MS, 10);
}

#[test]
fn scheduler_is_first_in_first_out() {
    let mut s: Scheduler<char> = Scheduler::new();
    let a = s.spawn('a');
    let b = s.spawn('b');
    assert_eq!((a, b), (0, 1));
    s.wake(a, 'a');
    assert_eq!(s.next_ready(), Some((a, 'a')));
    assert_eq!(s.next_ready(), Some((b, 'b')));
    assert_eq!(s.next_ready(), Some((a, 'a')));
    assert_eq!(s.next_ready(), None);
    assert_eq!(s.task_count(), 2);
}

#[test]
fn finished_task_is_not_polled_again() {
    // A task that wakes itself and is ready in the same poll leaves a stale
    // entry behind; it is dropped, and the task finishes once.
    let mut s: Scheduler<char> = Scheduler::new();
    let a = s.spawn('a');
    let b = s.spawn('b');
    assert_eq!(s.next_ready(), Some((a, 'a')));
    s.wake(a, 'a');
    s.task_finished(a);
    assert!(!s.is_live(a));
    assert!(s.is_live(b));
    assert_eq!(s.next_ready(), Some((b, 'b')));
    assert_eq!(s.next_ready(), None);
    assert_eq!(s.task_count(), 1);
    s.task_finished(b);
    assert_eq!(s.after_drain(true), LoopAction::Exit);
}

#[test]
fn block_on_drains_spawned_tasks_before_returning() {
    let mut b = BlockOn::new();
    assert_eq!(b.first_action(), BlockOnAction::PollMain);
    // Main pending: run, wait, poll again.
    assert_eq!(b.step(BlockOnEvent::MainPolled(false), 1), BlockOnAction::RunReady);
    assert_eq!(b.step(BlockOnEvent::RanReady(true, false), 1), BlockOnAction::WaitForEvents);
    assert_eq!(b.step(BlockOnEvent::Waited, 1), BlockOnAction::PollMain);
    // Main ready with a task left: drain it.
    assert_eq!(b.step(BlockOnEvent::MainPolled(true), 1), BlockOnAction::RunReady);
    assert_eq!(b.step(BlockOnEvent::RanReady(false, false), 1), BlockOnAction::WaitForEvents);
    assert_eq!(b.step(BlockOnEvent::Waited, 1), BlockOnAction::RunReady);
    assert_eq!(b.step(BlockOnEvent::RanReady(true, true), 1), BlockOnAction::RunReady);
    assert_eq!(b.step(BlockOnEvent::RanReady(true, false), 0), BlockOnAction::Return);
}

#[test]
fn block_on_repolls_a_self_waking_main_future() {
    // block_on(async { YieldOnce::new().await; Countdown::new(5).await; }):
    // the main future wakes itself on each of its six pending polls.
    let mut main_yield = YieldOnce::new();
    let mut main_countdown = Countdown::new(5);
    let mut b = BlockOn::new();
    let mut action = b.first_action();
    let mut polls = 0;
    let mut woken = false;
    loop {
        action = match action {
            BlockOnAction::PollMain => {
                polls += 1;
                woken = false;
                let ready = if main_yield.poll() == Poll::Pending {
                    woken = true;
                    false
                } else if main_countdown.poll() == Poll::Pending {
                    woken = true;
                    false
                } else {
                    true
                };
                b.step(BlockOnEvent::MainPolled(ready), 0)
            }
            BlockOnAction::RunReady => b.step(BlockOnEvent::RanReady(false, woken), 0),
            BlockOnAction::WaitForEvents => panic!("block_on would wait for events forever"),
            BlockOnAction::Return => break,
        };
    }
    assert_eq!(polls, 7);
}

#[test]
fn block_on_returns_at_once_without_tasks() {
    let mut b = BlockOn::new();
    assert_eq!(b.step(BlockOnEvent::MainPolled(true), 0), BlockOnAction::Return);
}

#[test]
fn context_slots_install_and_clear() {
    let mut tx: Option<u32> = None;
    let mut count: Option<u64> = None;
    let mut reactor: Option<&str> = None;
    set_spawn_tx(&mut tx, 3);
    set_task_count(&mut count, 9);
    set_reactor(&mut reactor, "kq");
    assert_eq!(with_spawn_tx(&tx, |t| *t + 1), 4);
    assert_eq!(with_task_count(&count, |c| *c * 2), 18);
    assert_eq!(with_reactor(&reactor, |r| r.len()), 2);
    assert_eq!(try_with_reactor(&reactor, |r| r.to_string()), Some(String::from("kq")));
    clear_spawn_tx(&mut tx);
    clear_task_count(&mut count);
    clear_reactor(&mut reactor);
    assert_eq!((tx, count, reactor), (None, None, None));
    assert_eq!(try_with_reactor(&reactor, |r| r.len()), None);
}
