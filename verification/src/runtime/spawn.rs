use vstd::prelude::*;

verus! {

/// Installs the spawn handle of the running runtime in its context slot.
pub fn set_spawn_tx<S>(slot: &mut Option<S>, sender: S)
    ensures
        *final(slot) == Some(sender),
{
    *slot = Some(sender);
}

/// Installs the task counter of the running runtime in its context slot.
pub fn set_task_count<C>(slot: &mut Option<C>, task_count: C)
    ensures
        *final(slot) == Some(task_count),
{
    *slot = Some(task_count);
}

/// Calls `f` with the installed spawn handle and gives its result. There
/// must be a running runtime.
pub fn with_spawn_tx<S, T, F: FnOnce(&S) -> T>(slot: &Option<S>, f: F) -> (r: T)
    requires
        slot.is_some(),
        f.requires((&slot.unwrap(),)),
    ensures
        f.ensures((&slot.unwrap(),), r),
{
    let tx = slot.as_ref().unwrap();
    f(tx)
}

/// Calls `f` with the installed task counter and gives its result. There
/// must be a running runtime.
pub fn with_task_count<C, T, F: FnOnce(&C) -> T>(slot: &Option<C>, f: F) -> (r: T)
    requires
        slot.is_some(),
        f.requires((&slot.unwrap(),)),
    ensures
        f.ensures((&slot.unwrap(),), r),
{
    let c = slot.as_ref().unwrap();
    f(c)
}

/// Removes the spawn handle: no runtime is running.
pub fn clear_spawn_tx<S>(slot: &mut Option<S>)
    ensures
        *final(slot) == None::<S>,
{
    *slot = None;
}

/// Removes the task counter: no runtime is running.
pub fn clear_task_count<C>(slot: &mut Option<C>)
    ensures
        *final(slot) == None::<C>,
{
    *slot = None;
}

} // verus!
