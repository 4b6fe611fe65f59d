use vstd::prelude::*;

verus! {

/// Installs the reactor of the running runtime in its context slot.
pub fn set_reactor<R>(slot: &mut Option<R>, reactor: R)
    ensures
        *final(slot) == Some(reactor),
{
    *slot = Some(reactor);
}

/// Calls `f` with the installed reactor and gives its result. There must
/// be a running runtime.
pub fn with_reactor<R, T, F: FnOnce(&R) -> T>(slot: &Option<R>, f: F) -> (r: T)
    requires
        slot.is_some(),
        f.requires((&slot.unwrap(),)),
    ensures
        f.ensures((&slot.unwrap(),), r),
{
    let reactor = slot.as_ref().unwrap();
    f(reactor)
}

/// Calls `f` with the installed reactor, if there is one.
pub fn try_with_reactor<R, T, F: FnOnce(&R) -> T>(slot: &Option<R>, f: F) -> (r: Option<T>)
    requires
        slot.is_some() ==> f.requires((&slot.unwrap(),)),
    ensures
        match slot {
            Some(reactor) => r matches Some(v) && f.ensures((reactor,), v),
            None => r is None,
        },
{
    match slot {
        Some(reactor) => Some(f(reactor)),
        None => None,
    }
}

/// Removes the reactor: no runtime is running.
pub fn clear_reactor<R>(slot: &mut Option<R>)
    ensures
        *final(slot) == None::<R>,
{
    *slot = None;
}

} // verus!
