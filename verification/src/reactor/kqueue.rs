use vstd::prelude::*;

verus! {

/// The kernel filter an event belongs to.
#[derive(Debug, Clone, Copy, PartialEq, Eq, Structural)]
pub enum Filter {
    Read,
    Write,
    User,
}

/// The action flags of a change: `EV_ADD`, `EV_DELETE` and `EV_CLEAR`.
#[derive(Debug, Clone, Copy, PartialEq, Eq, Structural)]
pub struct EventFlags {
    pub add: bool,
    pub delete: bool,
    pub clear: bool,
}

/// A kevent as the reactor submits it or receives it back: the watched
/// identifier, its filter, the action flags, whether `NOTE_TRIGGER` is set
/// in the filter flags, and the user token carried in `udata`.
#[derive(Debug, Clone, Copy, PartialEq, Eq, Structural)]
pub struct KEvent {
    pub ident: usize,
    pub filter: Filter,
    pub flags: EventFlags,
    pub trigger: bool,
    pub token: usize,
}

/// `EV_ADD | EV_CLEAR`: add an edge-triggered filter.
pub open spec fn add_clear() -> EventFlags {
    EventFlags { add: true, delete: false, clear: true }
}

/// `EV_DELETE`.
pub open spec fn delete_only() -> EventFlags {
    EventFlags { add: false, delete: true, clear: false }
}

/// No action flags.
pub open spec fn no_flags() -> EventFlags {
    EventFlags { add: false, delete: false, clear: false }
}

/// The event `make_event` builds.
pub open spec fn spec_event(ident: usize, filter: Filter, flags: EventFlags, token: usize) -> KEvent {
    KEvent { ident, filter, flags, trigger: false, token }
}

/// The change that starts watching `fd` for reading, tagged with `token`.
pub open spec fn spec_add_read(fd: i32, token: usize) -> KEvent {
    spec_event(fd as usize, Filter::Read, add_clear(), token)
}

/// The change that starts watching `fd` for writing, tagged with `token`.
pub open spec fn spec_add_write(fd: i32, token: usize) -> KEvent {
    spec_event(fd as usize, Filter::Write, add_clear(), token)
}

/// The two changes that stop watching `fd`, for reading and for writing.
pub open spec fn spec_delete(fd: i32) -> Seq<KEvent> {
    seq![
        spec_event(fd as usize, Filter::Read, delete_only(), 0),
        spec_event(fd as usize, Filter::Write, delete_only(), 0),
    ]
}

/// An event with no filter flags, carrying `token` as its user data.
pub fn make_event(ident: usize, filter: Filter, flags: EventFlags, token: usize) -> (event: KEvent)
    ensures
        event == spec_event(ident, filter, flags, token),
{
    KEvent { ident, filter, flags, trigger: false, token }
}

/// The change registering edge-triggered read interest in `fd`.
pub fn add_read_event(fd: i32, token: usize) -> (event: KEvent)
    ensures
        event == spec_add_read(fd, token),
{
    make_event(fd as usize, Filter::Read, EventFlags { add: true, delete: false, clear: true }, token)
}

/// The change registering edge-triggered write interest in `fd`.
pub fn add_write_event(fd: i32, token: usize) -> (event: KEvent)
    ensures
        event == spec_add_write(fd, token),
{
    make_event(fd as usize, Filter::Write, EventFlags { add: true, delete: false, clear: true }, token)
}

/// The changes removing both the read and the write filter of `fd`.
pub fn delete_events(fd: i32) -> (events: Vec<KEvent>)
    ensures
        events@ == spec_delete(fd),
{
    let flags = EventFlags { add: false, delete: true, clear: false };
    let mut events: Vec<KEvent> = Vec::new();
    events.push(make_event(fd as usize, Filter::Read, flags, 0));
    events.push(make_event(fd as usize, Filter::Write, flags, 0));
    events
}

/// A wait timeout split as a `timespec`.
#[derive(Debug, Clone, Copy, PartialEq, Eq, Structural)]
pub struct Timespec {
    pub tv_sec: u64,
    pub tv_nsec: u32,
}

/// The `timespec` of a timeout of `ms` milliseconds.
pub fn timespec_from_millis(ms: u64) -> (t: Timespec)
    ensures
        t.tv_sec * 1000 + t.tv_nsec / 1_000_000 == ms,
        t.tv_nsec % 1_000_000 == 0,
        t.tv_nsec < 1_000_000_000,
{
    let secs: u64 = ms / 1000;
    let rem: u64 = ms % 1000;
    assert(rem * 1_000_000 < 1_000_000_000) by (nonlinear_arith)
        requires
            rem < 1000,
    ;
    let nanos: u32 = (rem * 1_000_000) as u32;
    assert(nanos / 1_000_000 == rem && nanos % 1_000_000 == 0) by (nonlinear_arith)
        requires
            nanos == rem * 1_000_000,
    ;
    Timespec { tv_sec: secs, tv_nsec: nanos }
}

/// The number of events `wait` reports for a `kevent` return value `resp`:
/// an interrupted wait counts as no events; any other failure (`-1`) is
/// passed on, as a count, as `usize::MAX`, the value `-1` takes as a
/// `usize` (no buffer holds that many events, so a caller that takes that
/// many from its buffer fails there).
pub open spec fn spec_wait_count(resp: i32, interrupted: bool) -> usize {
    if resp == -1 {
        if interrupted {
            0
        } else {
            usize::MAX
        }
    } else {
        resp as usize
    }
}

/// How many events a wait returned, from the raw `kevent` result and
/// whether the failure, if any, was `EINTR`.
pub fn wait_count(resp: i32, interrupted: bool) -> (n: usize)
    requires
        resp >= -1,
    ensures
        n == spec_wait_count(resp, interrupted),
{
    if resp == -1 {
        if interrupted {
            0
        } else {
            usize::MAX
        }
    } else {
        resp as usize
    }
}

/// A successful wait reports the kernel's count; an interrupted one reports
/// no events; only a failure that is not an interruption reports the
/// out-of-range count `usize::MAX`.
pub proof fn lemma_wait_count(resp: i32, interrupted: bool)
    requires
        resp >= -1,
    ensures
        resp >= 0 ==> spec_wait_count(resp, interrupted) == resp,
        resp == -1 && interrupted ==> spec_wait_count(resp, interrupted) == 0,
        resp == -1 && !interrupted ==> spec_wait_count(resp, interrupted) == usize::MAX,
{
}

/// The delete changes remove both filters of the descriptor, and nothing
/// else: two changes, for reading then writing, each only deleting.
pub proof fn lemma_delete_both_filters(fd: i32)
    ensures
        spec_delete(fd).len() == 2,
        spec_delete(fd)[0].filter == Filter::Read,
        spec_delete(fd)[1].filter == Filter::Write,
        forall|i: int|
            0 <= i < 2 ==> (#[trigger] spec_delete(fd)[i]).ident == fd as usize
                && spec_delete(fd)[i].flags.delete && !spec_delete(fd)[i].flags.add
                && !spec_delete(fd)[i].trigger,
{
}

} // verus!
