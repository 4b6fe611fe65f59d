use thrust_rs::executor::{LoopAction, Scheduler};
use thrust_rs::futures::countdown::Countdown;
use thrust_rs::futures::yield_once::YieldOnce;
use thrust_rs::futures::Poll;

enum Job {
    Yield(YieldOnce),
    Count(Countdown),
}

impl Job {
    fn poll(&mut self) -> Poll<()> {
        match self {
            Job::Yield(f) => f.poll(),
            Job::Count(f) => f.poll(),
        }
    }
}

/// Drives the jobs through the scheduler as the executor loop does and
/// gives the number that finished.
fn run_jobs(mut jobs: Vec<Job>) -> u32 {
    let mut scheduler: Scheduler<()> = Scheduler::new();
    for _ in 0..jobs.len() {
        scheduler.spawn(());
    }
    let mut count = 0u32;
    loop {
        let mut work_done = false;
        while let Some((id, ())) = scheduler.next_ready() {
            work_done = true;
            match jobs[id].poll() {
                Poll::Pending => scheduler.wake(id, ()),
                Poll::Ready(()) => {
                    count += 1;
                    scheduler.task_finished(id);
                }
            }
        }
        match scheduler.after_drain(work_done) {
            LoopAction::Exit => break,
            LoopAction::Continue => {}
            LoopAction::WaitForEvents(_) => panic!("nothing waits on events here"),
        }
    }
    count
}

#[test]
fn stress_10k_each_5_yields() {
    let jobs = (0..10000).map(|_| Job::Count(Countdown::new(5))).collect();
    assert_eq!(run_jobs(jobs), 10000);
}

#[test]
fn yield_once_100k() {
    let jobs = (0..100_000).map(|_| Job::Yield(YieldOnce::default())).collect();
    assert_eq!(run_jobs(jobs), 100_000);
}

#[test]
fn yield_once_1m() {
    let jobs = (0..1_000_000).map(|_| Job::Yield(YieldOnce::default())).collect();
    assert_eq!(run_jobs(jobs), 1_000_000);
}
