use thrust_rs::executor::{LoopAction, Scheduler};
use thrust_rs::futures::countdown::Countdown;
use thrust_rs::futures::immediate::ImmediateReady;
use thrust_rs::futures::wake_latency::WakeLatencyFuture;
use thrust_rs::futures::write::{WriteAction, WriteProgress};
use thrust_rs::futures::yield_once::YieldOnce;
use thrust_rs::futures::Poll;

/// Runs every spawned `YieldOnce` task to completion the way the executor
/// loop does, and gives the number of tasks that finished.
fn run_yield_once_tasks(n: usize) -> usize {
    let mut tasks: Vec<YieldOnce> = Vec::new();
    let mut scheduler: Scheduler<()> = Scheduler::new();
    for expected in 0..n {
        tasks.push(YieldOnce::default());
        assert_eq!(scheduler.spawn(()), expected);
    }
    let mut finished = 0;
    loop {
        let mut work_done = false;
        while let Some((id, ())) = scheduler.next_ready() {
            work_done = true;
            match tasks[id].poll() {
                Poll::Pending => scheduler.wake(id, ()),
                Poll::Ready(()) => {
                    finished += 1;
                    scheduler.task_finished(id);
                }
            }
        }
        match scheduler.after_drain(work_done) {
            LoopAction::Exit => break,
            LoopAction::Continue => {}
            LoopAction::WaitForEvents(_) => panic!("self-waking tasks never wait for events"),
        }
    }
    finished
}

#[test]
fn yield_once_test() {
    let mut queue: Scheduler<&str> = Scheduler::new();
    let mut task = YieldOnce::default();
    let id = queue.spawn("task");

    assert_eq!(queue.next_ready(), Some((id, "task")));
    assert_eq!(task.poll(), Poll::Pending);
    queue.wake(id, "task");
    assert_eq!(queue.next_ready(), Some((id, "task")));
    assert_eq!(task.poll(), Poll::Ready(()));
    queue.task_finished(id);
    assert_eq!(queue.task_count(), 0);
    assert_eq!(queue.next_ready(), None);
}

#[test]
fn yield_once_thousand() {
    assert_eq!(run_yield_once_tasks(1000), 1000);
}

#[test]
fn countdown_pends_for_its_count() {
    let mut c = Countdown::new(3);
    assert_eq!(c.value(), Some(3));
    assert_eq!(c.poll(), Poll::Pending);
    assert_eq!(c.poll(), Poll::Pending);
    assert_eq!(c.poll(), Poll::Pending);
    assert_eq!(c.value(), Some(0));
    assert_eq!(c.poll(), Poll::Ready(()));
    assert_eq!(c.value(), None);
}

#[test]
fn countdown_from_zero_is_ready_at_once() {
    let mut c = Countdown::new(0);
    assert_eq!(c.poll(), Poll::Ready(()));
}

#[test]
fn immediate_ready_hands_out_its_value() {
    let mut f = ImmediateReady::new(String::from("done"));
    assert_eq!(f.poll(), Poll::Ready(String::from("done")));
}

#[test]
fn wake_latency_yields_once_and_keeps_its_slot() {
    let mut f = WakeLatencyFuture::new(7u32);
    assert_eq!(f.poll(), Poll::Pending);
    assert_eq!(*f.wake_time(), 7);
    assert_eq!(f.poll(), Poll::Ready(()));
}

#[test]
fn write_progress_partial_write_is_ready_early() {
    let mut w = WriteProgress::new(5);
    assert_eq!(w.next_action(), WriteAction::Attempt(0));
    assert_eq!(w.on_write::<()>(Poll::Pending), Poll::Pending);
    assert_eq!(w.on_write::<()>(Poll::Ready(Ok(2))), Poll::Ready(Ok(2)));
    assert_eq!(w.next_action(), WriteAction::Attempt(2));
    assert_eq!(w.on_write::<()>(Poll::Ready(Ok(3))), Poll::Ready(Ok(5)));
    assert_eq!(w.next_action(), WriteAction::Finish(5));
    assert_eq!(w.written(), 5);
    assert_eq!(w.len(), 5);
}

#[test]
fn write_progress_error_is_handed_back() {
    let mut w = WriteProgress::new(4);
    assert_eq!(w.on_write(Poll::Ready(Err("broken pipe"))), Poll::Ready(Err("broken pipe")));
    assert_eq!(w.written(), 0);
    assert_eq!(WriteProgress::new(0).next_action(), WriteAction::Finish(0));
}
