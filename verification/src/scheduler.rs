//! A FIFO queue of deferred tasks, shared between the submitting side and an
//! externally driven executor.
//!
//! Submitting a task only enqueues it: no part of the task runs during
//! `spawn`, and the queue's contract is independent of whether the host
//! event loop could be notified afterwards.  The executor drains the queue
//! in submission order through `take_next`.

use vstd::prelude::*;

verus! {

/// A first-in-first-out queue of deferred tasks.
///
/// The queue never runs a task itself: it only stores values of the task
/// type in submission order.  The front of `tasks` is the oldest entry.
pub struct TaskQueue<T> {
    /// Queued tasks, oldest first.
    pub tasks: Vec<T>,
}

impl<T> TaskQueue<T> {
    /// Creates an empty queue.
    pub fn new() -> (q: TaskQueue<T>)
        ensures
            q.tasks@.len() == 0,
    {
        TaskQueue { tasks: Vec::new() }
    }

    /// Enqueues a task at the back of the queue.
    ///
    /// The new queue is exactly the old queue with `task` appended: no entry
    /// is reordered, dropped or driven.  In particular nothing of `task`
    /// runs here, whatever becomes of the host notification that a caller
    /// may deliver afterwards.
    pub fn spawn(&mut self, task: T)
        ensures
            final(self).tasks@ == old(self).tasks@.push(task),
    {
        self.tasks.push(task);
    }

    /// Removes and returns the oldest queued task, if any.
    pub fn take_next(&mut self) -> (r: Option<T>)
        ensures
            old(self).tasks@.len() == 0 ==> r is None && final(self).tasks@ == old(self).tasks@,
            old(self).tasks@.len() > 0 ==> (r matches Some(t)
                && t == old(self).tasks@[0]
                && final(self).tasks@ == old(self).tasks@.skip(1)),
    {
        if self.tasks.len() == 0 {
            None
        } else {
            let t = self.tasks.remove(0);
            proof {
                assert(self.tasks@ =~= old(self).tasks@.skip(1));
            }
            Some(t)
        }
    }

    /// The number of tasks waiting to be driven.
    pub fn len(&self) -> (n: usize)
        ensures
            n == self.tasks@.len(),
    {
        self.tasks.len()
    }
}

} // verus!
