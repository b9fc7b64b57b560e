//! Process-management syscalls: the public mapping entry points and the
//! companion process-status queries, all flattened to the signed
//! return-code convention (`0` or a non-negative value on success, `-1` on
//! any failure).

use vstd::prelude::*;
use crate::addr::{page_ceil, page_floor, validate, PAGE_SIZE};
use crate::permission::{change_port_to_permission, spec_decode, MapPermission};
use crate::space::{page_range, range_map, AddressSpace};

verus! {

/// Number of distinct syscall identifiers a task's invocation-counter table
/// covers.
pub const MAX_SYSCALL_NUM: usize = 500;

/// Scheduling status of a task.
#[derive(Clone, Copy, PartialEq, Eq, Structural, Debug)]
pub enum TaskStatus {
    UnInit,
    Ready,
    Running,
    Exited,
}

/// A wall-clock sample: whole seconds and the microseconds within the
/// current second.
#[derive(Clone, Copy, PartialEq, Eq, Structural, Debug)]
pub struct TimeVal {
    pub sec: usize,
    pub usec: usize,
}

/// A snapshot of a single task: its scheduling status, a fixed-size table
/// of invocation counters indexed by syscall identifier, and its cumulative
/// running time.
#[derive(Clone, Copy)]
pub struct TaskInfo {
    pub status: TaskStatus,
    pub syscall_times: [u32; MAX_SYSCALL_NUM],
    pub time: usize,
}

/// The control transfer a task hands to the scheduler when it gives up the
/// processor for good: exit, carrying the task's exit code. The surrounding
/// kernel's scheduling loop consumes it and never returns control to the
/// caller.
#[derive(Clone, Copy, PartialEq, Eq, Structural, Debug)]
pub enum TaskOutcome {
    Exit(i32),
}

/// When a mapping request over `(start, len, port)` is accepted against the
/// mapping state `m`: the start address is page-aligned, the port decodes
/// to a permission set, and no page of the requested range is already
/// mapped.
pub open spec fn spec_mmap_ok(
    m: Map<nat, MapPermission>,
    start: usize,
    len: usize,
    port: usize,
) -> bool {
    &&& start % PAGE_SIZE == 0
    &&& spec_decode(port) is Some
    &&& forall|v: nat|
        page_floor(start as int) <= v < page_ceil(start as int + len as int)
            ==> !m.contains_key(v)
}

/// The mapping state after an accepted mapping request: every page of the
/// requested range is mapped with the decoded permission set, and all other
/// pages are as before.
pub open spec fn spec_mmap(
    m: Map<nat, MapPermission>,
    start: usize,
    len: usize,
    port: usize,
) -> Map<nat, MapPermission> {
    m.union_prefer_right(
        range_map(
            page_floor(start as int),
            page_ceil(start as int + len as int),
            spec_decode(port).unwrap(),
        ),
    )
}

/// When an unmapping request over `(start, len)` is accepted against the
/// mapping state `m`: the start address is page-aligned and every page of
/// the requested range is currently mapped.
pub open spec fn spec_munmap_ok(m: Map<nat, MapPermission>, start: usize, len: usize) -> bool {
    &&& start % PAGE_SIZE == 0
    &&& forall|v: nat|
        page_floor(start as int) <= v < page_ceil(start as int + len as int)
            ==> m.contains_key(v)
}

/// The mapping state after an accepted unmapping request: every page of the
/// requested range is unmapped, and all other pages are as before.
pub open spec fn spec_munmap(
    m: Map<nat, MapPermission>,
    start: usize,
    len: usize,
) -> Map<nat, MapPermission> {
    m.remove_keys(page_range(page_floor(start as int), page_ceil(start as int + len as int)))
}

/// Maps the region `[start, start + len)` of the current task's address
/// space, rounded up to whole pages, with the permissions decoded from
/// `port`. Returns `0` exactly when the request is accepted: the start
/// address page-aligned, the port valid, and no page of the range already
/// mapped. Returns `-1` otherwise, leaving the space untouched; either the
/// whole region becomes mapped or none of it.
pub fn sys_mmap(space: &mut AddressSpace, start: usize, len: usize, port: usize) -> (r: isize)
    requires
        start + len <= usize::MAX,
    ensures
        r == 0 || r == -1,
        (r == 0) <==> spec_mmap_ok(old(space)@, start, len, port),
        r == 0 ==> final(space)@ == spec_mmap(old(space)@, start, len, port),
        r == -1 ==> *final(space) == *old(space),
{
    let range = match validate(start, len) {
        Ok(pr) => pr,
        Err(_) => {
            return -1;
        },
    };
    let perm = match change_port_to_permission(port) {
        Some(p) => p,
        None => {
            return -1;
        },
    };
    if space.insert_region(range.start_page, range.end_page, perm) {
        0
    } else {
        -1
    }
}

/// Unmaps the region `[start, start + len)` of the current task's address
/// space, rounded up to whole pages. Returns `0` exactly when the request
/// is accepted: the start address page-aligned and every page of the range
/// currently mapped. Returns `-1` otherwise, leaving the space untouched;
/// either the whole region becomes unmapped or none of it.
pub fn sys_munmap(space: &mut AddressSpace, start: usize, len: usize) -> (r: isize)
    requires
        start + len <= usize::MAX,
    ensures
        r == 0 || r == -1,
        (r == 0) <==> spec_munmap_ok(old(space)@, start, len),
        r == 0 ==> final(space)@ == spec_munmap(old(space)@, start, len),
        r == -1 ==> *final(space) == *old(space),
{
    let range = match validate(start, len) {
        Ok(pr) => pr,
        Err(_) => {
            return -1;
        },
    };
    if space.remove_region(range.start_page, range.end_page) {
        0
    } else {
        -1
    }
}

/// Terminates the current task with the given exit code. Control passes to
/// the scheduler's next-task selection and never returns to the caller; the
/// returned outcome carries the exit code to the scheduling loop.
pub fn sys_exit(exit_code: i32) -> (r: TaskOutcome)
    ensures
        r == TaskOutcome::Exit(exit_code),
{
    TaskOutcome::Exit(exit_code)
}

/// Voluntarily gives up the processor for other tasks; the scheduler
/// suspends the current task and the call returns `0` once it is resumed.
pub fn sys_yield() -> (r: isize)
    ensures
        r == 0,
{
    0
}

/// Reads the current wall-clock time into a caller-supplied sample. The
/// write of the sample awaits the user-pointer address translation of the
/// surrounding kernel: until then the call leaves the output untouched and
/// reports success with `0`.
pub fn sys_get_time(ts: &mut TimeVal, _tz: usize) -> (r: isize)
    ensures
        r == 0,
        *final(ts) == *old(ts),
{
    0
}

/// Sets the scheduling priority of the current task. Priority scheduling is
/// outside this subsystem's scope, so the call is an inert placeholder that
/// always reports failure with `-1`.
pub fn sys_set_priority(_prio: isize) -> (r: isize)
    ensures
        r == -1,
{
    -1
}

/// Reads a snapshot of the current task into a caller-supplied output. The
/// write of the snapshot awaits the user-pointer address translation of the
/// surrounding kernel: until then the call deterministically reports
/// failure with `-1` and leaves the output untouched.
pub fn sys_task_info(ti: &mut TaskInfo) -> (r: isize)
    ensures
        r == -1,
        *final(ti) == *old(ti),
{
    -1
}

} // verus!
