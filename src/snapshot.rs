//! Walking a point-in-time snapshot of processes or threads: which
//! enumeration call comes next, and how an entry's fixed-size name buffer
//! ends.
use vstd::prelude::*;

verus! {

/// A thread as a snapshot entry gives it.
#[derive(Clone, Copy, Debug, PartialEq, Eq, Structural)]
pub struct Thread {
    pub thread_id: u32,
    pub owner_process_id: u32,
}

/// The enumeration call that reads the next entry of a snapshot.
#[derive(Clone, Copy, Debug, PartialEq, Eq, Structural)]
pub enum SnapshotCall {
    /// Read the first entry.
    First,
    /// Read the entry after the one read last.
    Next,
}

/// Position of a single pass over a snapshot. The pass ends at the first
/// call that finds no entry and stays ended.
#[derive(Clone, Copy, Debug, PartialEq, Eq, Structural)]
pub struct SnapshotWalk {
    pub started: bool,
    pub done: bool,
}

impl SnapshotWalk {
    pub open spec fn spec_next_call(self) -> Option<SnapshotCall> {
        if self.done {
            None
        } else if self.started {
            Some(SnapshotCall::Next)
        } else {
            Some(SnapshotCall::First)
        }
    }

    pub open spec fn spec_after(self, found: bool) -> SnapshotWalk {
        if self.done {
            self
        } else if found {
            SnapshotWalk { started: true, done: false }
        } else {
            SnapshotWalk { started: true, done: true }
        }
    }

    /// A pass that has read nothing yet.
    pub fn new() -> (r: SnapshotWalk)
        ensures
            r == (SnapshotWalk { started: false, done: false }),
    {
        SnapshotWalk { started: false, done: false }
    }

    /// The call that reads the next entry, or `None` once the pass ended.
    pub fn next_call(&self) -> (r: Option<SnapshotCall>)
        ensures
            r == self.spec_next_call(),
    {
        if self.done {
            None
        } else if self.started {
            Some(SnapshotCall::Next)
        } else {
            Some(SnapshotCall::First)
        }
    }

    /// Takes whether the call that `next_call` named found an entry.
    pub fn record(&mut self, found: bool)
        ensures
            *final(self) == old(self).spec_after(found),
    {
        if !self.done {
            self.started = true;
            self.done = !found;
        }
    }
}

/// The length of the name held in a fixed-size, NUL-terminated buffer: the
/// index of the first NUL, or the whole buffer when there is none.
pub fn name_len(buf: &[u16]) -> (r: usize)
    ensures
        r <= buf@.len(),
        forall|j: int| 0 <= j < r ==> buf@[j] != 0,
        r < buf@.len() ==> buf@[r as int] == 0,
{
    let mut i: usize = 0;
    while i < buf.len()
        invariant
            i <= buf@.len(),
            forall|j: int| 0 <= j < i ==> buf@[j] != 0,
        decreases buf@.len() - i,
    {
        if buf[i] == 0 {
            return i;
        }
        i = i + 1;
    }
    i
}

/// Whether a snapshot thread belongs to the process `process_id`.
pub fn owned_by(thread: &Thread, process_id: u32) -> (r: bool)
    ensures
        r == (thread.owner_process_id == process_id),
{
    thread.owner_process_id == process_id
}

} // verus!
