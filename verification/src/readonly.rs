//! A task record whose counter may only be advanced from inside the
//! library.
//!
//! [`Task`] keeps its fields private; the one sanctioned mutation is
//! [`from_within_module`], which advances the counter by one. Outside
//! readers get a [`ReadOnlyTask`] copy whose counter field is public but
//! detached from the original, so no outside writer can reach the task's
//! own state.

use vstd::prelude::*;

verus! {

/// A unit of work with a private position counter and private queue state.
pub struct Task {
    index: usize,
    q: usize,
}

/// A read-only view of a [`Task`]: the counter is open for reading, and
/// writing to it cannot touch the task it was taken from.
pub struct ReadOnlyTask {
    /// The task's position counter, exposed for reading.
    pub index: usize,
    q: usize,
}

impl Task {
    /// The position counter, as a mathematical value.
    pub closed spec fn spec_index(&self) -> int {
        self.index as int
    }

    /// The queue state, as a mathematical value.
    pub closed spec fn spec_q(&self) -> int {
        self.q as int
    }

    /// A read-only detached copy of the task's state.
    pub fn read_only(&self) -> (r: ReadOnlyTask)
        ensures
            r.spec_index() == self.spec_index(),
            r.spec_q() == self.spec_q(),
    {
        ReadOnlyTask { index: self.index, q: self.q }
    }
}

impl Default for Task {
    /// A fresh task, with counter and queue state at zero.
    fn default() -> (t: Task)
        ensures
            t.spec_index() == 0,
            t.spec_q() == 0,
    {
        Task { index: 0, q: 0 }
    }
}

impl ReadOnlyTask {
    /// The position counter, as a mathematical value.
    pub closed spec fn spec_index(&self) -> int {
        self.index as int
    }

    /// The queue state, as a mathematical value.
    pub closed spec fn spec_q(&self) -> int {
        self.q as int
    }
}

/// Advance a task's position counter by one, leaving its queue state
/// unchanged. This is the only way the counter moves: the field is private,
/// so no caller outside the library can write it directly.
pub fn from_within_module(task: &mut Task)
    requires
        old(task).spec_index() < usize::MAX,
    ensures
        final(task).spec_index() == old(task).spec_index() + 1,
        final(task).spec_q() == old(task).spec_q(),
{
    task.index = task.index + 1;
}

} // verus!
