use vstd::prelude::*;

pub mod spawn;
pub mod with_reactor;

verus! {

/// What `block_on` does next.
#[derive(Debug, Clone, Copy, PartialEq, Eq, Structural)]
pub enum BlockOnAction {
    /// Poll the main future.
    PollMain,
    /// Run the ready tasks until the queue is empty.
    RunReady,
    /// Wait for readiness events, with no timeout.
    WaitForEvents,
    /// Return the main future's output.
    Return,
}

/// What `block_on` observed after its last action.
#[derive(Debug, Clone, Copy, PartialEq, Eq, Structural)]
pub enum BlockOnEvent {
    /// The main future was polled; it is ready or not.
    MainPolled(bool),
    /// The ready tasks ran: whether some task was polled, and whether the
    /// main future was woken since it was last polled.
    RanReady(bool, bool),
    /// The wait for readiness events returned.
    Waited,
}

/// The `block_on` loop: poll the main future; while it is pending, run the
/// ready tasks, then poll it again if it was woken meanwhile, and otherwise
/// wait for events before polling it again. Once it is ready, drain:
/// run ready tasks, waiting for events whenever a run polled nothing, until
/// no spawned task is unfinished; then return its output.
pub struct BlockOn {
    draining: bool,
}

/// The loop's next state (whether the main future is done) and action,
/// from its state, the event, and the number of unfinished tasks.
pub open spec fn spec_block_on_step(draining: bool, event: BlockOnEvent, task_count: nat) -> (
    bool,
    BlockOnAction,
) {
    match event {
        BlockOnEvent::MainPolled(ready) => if ready {
            (true, if task_count > 0 { BlockOnAction::RunReady } else { BlockOnAction::Return })
        } else {
            (draining, BlockOnAction::RunReady)
        },
        BlockOnEvent::RanReady(work_done, main_woken) => if draining {
            (
                true,
                if task_count == 0 {
                    BlockOnAction::Return
                } else if !work_done {
                    BlockOnAction::WaitForEvents
                } else {
                    BlockOnAction::RunReady
                },
            )
        } else if main_woken {
            (false, BlockOnAction::PollMain)
        } else {
            (false, BlockOnAction::WaitForEvents)
        },
        BlockOnEvent::Waited => if draining {
            (true, if task_count == 0 { BlockOnAction::Return } else { BlockOnAction::RunReady })
        } else {
            (false, BlockOnAction::PollMain)
        },
    }
}

impl BlockOn {
    /// Whether the main future has completed and the loop is draining.
    pub closed spec fn is_draining(&self) -> bool {
        self.draining
    }

    /// The loop before its first action, which is to poll the main future.
    pub fn new() -> (b: Self)
        ensures
            !b.is_draining(),
    {
        BlockOn { draining: false }
    }

    /// The first action: poll the main future.
    pub fn first_action(&self) -> (a: BlockOnAction)
        ensures
            a == BlockOnAction::PollMain,
    {
        BlockOnAction::PollMain
    }

    /// The next action after `event`, with `task_count` unfinished tasks.
    /// The main future is polled only until it is ready.
    pub fn step(&mut self, event: BlockOnEvent, task_count: usize) -> (a: BlockOnAction)
        requires
            event matches BlockOnEvent::MainPolled(_) ==> !old(self).is_draining(),
        ensures
            (final(self).is_draining(), a) == spec_block_on_step(
                old(self).is_draining(),
                event,
                task_count as nat,
            ),
    {
        match event {
            BlockOnEvent::MainPolled(ready) => {
                if ready {
                    self.draining = true;
                    if task_count > 0 {
                        BlockOnAction::RunReady
                    } else {
                        BlockOnAction::Return
                    }
                } else {
                    BlockOnAction::RunReady
                }
            },
            BlockOnEvent::RanReady(work_done, main_woken) => {
                if self.draining {
                    if task_count == 0 {
                        BlockOnAction::Return
                    } else if !work_done {
                        BlockOnAction::WaitForEvents
                    } else {
                        BlockOnAction::RunReady
                    }
                } else if main_woken {
                    BlockOnAction::PollMain
                } else {
                    BlockOnAction::WaitForEvents
                }
            },
            BlockOnEvent::Waited => {
                if self.draining {
                    if task_count == 0 {
                        BlockOnAction::Return
                    } else {
                        BlockOnAction::RunReady
                    }
                } else {
                    BlockOnAction::PollMain
                }
            },
        }
    }
}

/// `block_on` returns only after the main future is ready and every spawned
/// task has finished; once the main future is ready it is never polled
/// again; while it is pending, every round runs the ready tasks, and a main
/// future woken meanwhile is polled again at once; the loop waits for
/// events (without a timeout) only when nothing can progress without one:
/// the main future pending and not woken, or, once it is ready, a run that
/// polled nothing.
pub proof fn lemma_block_on_drains(draining: bool, event: BlockOnEvent, task_count: nat)
    requires
        event matches BlockOnEvent::MainPolled(_) ==> !draining,
    ensures
        ({
            let (next, action) = spec_block_on_step(draining, event, task_count);
            &&& action == BlockOnAction::Return ==> next && task_count == 0
            &&& next ==> action != BlockOnAction::PollMain
            &&& draining ==> next
            &&& event == BlockOnEvent::MainPolled(false) ==> action == BlockOnAction::RunReady
            &&& (!draining && (event matches BlockOnEvent::RanReady(_, false))) ==> action
                == BlockOnAction::WaitForEvents
            &&& (!draining && (event matches BlockOnEvent::RanReady(_, true))) ==> action
                == BlockOnAction::PollMain
            &&& action == BlockOnAction::WaitForEvents ==> (event matches BlockOnEvent::RanReady(
                work_done,
                main_woken,
            ) && if draining {
                !work_done
            } else {
                !main_woken
            })
            &&& !draining && event == BlockOnEvent::Waited ==> action == BlockOnAction::PollMain
            &&& (draining && task_count > 0 && (event matches BlockOnEvent::RanReady(true, _)))
                ==> action == BlockOnAction::RunReady
            &&& (draining && task_count > 0 && (event matches BlockOnEvent::RanReady(false, _)))
                ==> action == BlockOnAction::WaitForEvents
            &&& (draining && task_count > 0 && event == BlockOnEvent::Waited) ==> action
                == BlockOnAction::RunReady
            &&& (next && task_count == 0 && !(event matches BlockOnEvent::MainPolled(false)))
                ==> action == BlockOnAction::Return
        }),
{
}

/// The loop starts draining only when the main future is polled ready, and
/// never stops draining: after any step the loop is draining exactly when it
/// was already, or the event is the main future's ready poll. So `block_on`
/// returns only after the main future completed.
pub proof fn lemma_drains_only_after_ready(draining: bool, event: BlockOnEvent, task_count: nat)
    ensures
        spec_block_on_step(draining, event, task_count).0 == (draining || event
            == BlockOnEvent::MainPolled(true)),
        !draining && event != BlockOnEvent::MainPolled(true) ==> spec_block_on_step(
            draining,
            event,
            task_count,
        ).1 != BlockOnAction::Return,
        spec_block_on_step(draining, event, task_count).1 == BlockOnAction::Return
            ==> spec_block_on_step(draining, event, task_count).0,
{
}

/// The loop's state after a run of events from `draining`, each with the
/// unfinished-task count it was observed with.
pub open spec fn block_on_after(draining: bool, events: Seq<(BlockOnEvent, nat)>) -> bool
    decreases events.len(),
{
    if events.len() == 0 {
        draining
    } else {
        let d = block_on_after(draining, events.drop_last());
        spec_block_on_step(d, events.last().0, events.last().1).0
    }
}

/// Over any run of events from a loop that is not draining, the loop is
/// draining afterwards exactly when the main future was polled ready at some
/// point of the run, and a `Return` at any step comes after such a poll.
pub proof fn lemma_return_needs_ready_main(events: Seq<(BlockOnEvent, nat)>)
    ensures
        block_on_after(false, events) <==> exists|i: int|
            0 <= i < events.len() && (#[trigger] events[i]).0 == BlockOnEvent::MainPolled(true),
        events.len() > 0 && spec_block_on_step(
            block_on_after(false, events.drop_last()),
            events.last().0,
            events.last().1,
        ).1 == BlockOnAction::Return ==> exists|i: int|
            0 <= i < events.len() && (#[trigger] events[i]).0 == BlockOnEvent::MainPolled(true),
    decreases events.len(),
{
    if events.len() > 0 {
        let front = events.drop_last();
        lemma_return_needs_ready_main(front);
        let d = block_on_after(false, front);
        lemma_drains_only_after_ready(d, events.last().0, events.last().1);
        if block_on_after(false, events) {
            if d {
                let i = choose|i: int|
                    0 <= i < front.len() && (#[trigger] front[i]).0 == BlockOnEvent::MainPolled(true);
                assert(events[i] == front[i]);
            } else {
                assert(events[events.len() - 1] == events.last());
            }
        } else {
            assert forall|i: int| 0 <= i < events.len() implies (#[trigger] events[i]).0
                != BlockOnEvent::MainPolled(true) by {
                if i < front.len() {
                    assert(events[i] == front[i]);
                }
            }
        }
    }
}

} // verus!
