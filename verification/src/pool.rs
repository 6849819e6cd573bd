//! The fixed-size worker pool.
//!
//! A pool of `size` long-lived workers shares one ordered task queue:
//! first submitted, first dequeued, with no priority. Tasks are opaque
//! units of work; the pool tracks them here by caller-chosen identifiers,
//! and a driver that owns the actual closures executes them as the pool
//! hands them out. At most `size` tasks are ever running at once, and
//! shutdown drains the queue instead of dropping work.

use vstd::prelude::*;

verus! {

/// Worker-pool misuse, surfaced to the caller instead of being dropped
/// silently: a pool of size zero, or a submission after shutdown began.
#[derive(Debug, Clone, Copy, PartialEq, Eq, Structural)]
pub enum PoolError {
    InvalidSize,
    PoolClosed,
}

/// The observable state of the pool. `queue` holds submitted tasks not
/// yet taken, oldest first; `running` the tasks currently executing;
/// `done` the finished ones in completion order.
#[derive(Debug)]
pub struct ThreadPool {
    pub size: usize,
    pub queue: Vec<u64>,
    pub running: Vec<u64>,
    pub done: Vec<u64>,
    pub closed: bool,
}

impl ThreadPool {
    /// The pool's standing invariant: a positive worker count bounds how
    /// many tasks execute concurrently.
    pub open spec fn wf(&self) -> bool {
        self.size > 0 && self.running@.len() <= self.size
    }

    /// A pool with `size` workers, an empty queue and nothing running; a
    /// size of zero is rejected.
    pub fn new(size: usize) -> (r: Result<ThreadPool, PoolError>)
        ensures
            r is Ok <==> size > 0,
            match r {
                Ok(p) => p.size == size && p.queue@.len() == 0 && p.running@.len() == 0
                    && p.done@.len() == 0 && !p.closed && p.wf(),
                Err(e) => e == PoolError::InvalidSize,
            },
    {
        if size == 0 {
            Err(PoolError::InvalidSize)
        } else {
            Ok(
                ThreadPool {
                    size,
                    queue: Vec::new(),
                    running: Vec::new(),
                    done: Vec::new(),
                    closed: false,
                },
            )
        }
    }

    /// Submit a task: appended to the back of the queue without waiting
    /// for completion, unless the pool is already shutting down.
    pub fn execute(&mut self, task: u64) -> (r: Result<(), PoolError>)
        ensures
            final(self).size == old(self).size,
            final(self).running@ == old(self).running@,
            final(self).done@ == old(self).done@,
            final(self).closed == old(self).closed,
            r is Ok <==> !old(self).closed,
            match r {
                Ok(()) => final(self).queue@ == old(self).queue@.push(task),
                Err(e) => e == PoolError::PoolClosed && final(self).queue@ == old(self).queue@,
            },
            old(self).wf() ==> final(self).wf(),
    {
        if self.closed {
            Err(PoolError::PoolClosed)
        } else {
            self.queue.push(task);
            Ok(())
        }
    }

    /// A worker dequeues the oldest pending task, but only while the pool
    /// has a worker to spare; otherwise nothing changes.
    pub fn take(&mut self) -> (r: Option<u64>)
        ensures
            final(self).size == old(self).size,
            final(self).done@ == old(self).done@,
            final(self).closed == old(self).closed,
            r is Some <==> old(self).queue@.len() > 0 && old(self).running@.len() < old(self).size,
            match r {
                Some(t) => t == old(self).queue@[0] && final(self).queue@ == old(
                    self,
                ).queue@.drop_first() && final(self).running@ == old(self).running@.push(t),
                None => final(self).queue@ == old(self).queue@ && final(self).running@ == old(
                    self,
                ).running@,
            },
            old(self).wf() ==> final(self).wf(),
            old(self).wf() ==> final(self).running@.len() <= final(self).size,
    {
        if self.queue.len() > 0 && self.running.len() < self.size {
            let t = self.queue.remove(0);
            proof {
                assert(self.queue@ =~= old(self).queue@.drop_first());
            }
            self.running.push(t);
            Some(t)
        } else {
            None
        }
    }

    /// A worker reports a running task finished: its first running
    /// occurrence moves to the completion list; a task the pool never
    /// handed out is not accepted.
    pub fn complete(&mut self, task: u64) -> (r: bool)
        ensures
            final(self).size == old(self).size,
            final(self).queue@ == old(self).queue@,
            final(self).closed == old(self).closed,
            r <==> old(self).running@.contains(task),
            r ==> exists|i: int|
                {
                    &&& 0 <= i < old(self).running@.len()
                    &&& old(self).running@[i] == task
                    &&& forall|k: int| 0 <= k < i ==> old(self).running@[k] != task
                    &&& final(self).running@ == old(self).running@.remove(i)
                    &&& final(self).done@ == old(self).done@.push(task)
                },
            !r ==> final(self).running@ == old(self).running@ && final(self).done@ == old(
                self,
            ).done@,
            old(self).wf() ==> final(self).wf(),
    {
        let mut j: usize = 0;
        while j < self.running.len()
            invariant
                j <= self.running@.len(),
                self.size == old(self).size,
                self.queue@ == old(self).queue@,
                self.running@ == old(self).running@,
                self.done@ == old(self).done@,
                self.closed == old(self).closed,
                forall|k: int| 0 <= k < j ==> self.running@[k] != task,
            decreases self.running@.len() - j,
        {
            if self.running[j] == task {
                self.running.remove(j);
                self.done.push(task);
                return true;
            }
            j = j + 1;
        }
        false
    }

    /// Begin shutdown: the queue is closed to new submissions; pending and
    /// in-flight tasks are unaffected.
    pub fn close(&mut self)
        ensures
            final(self).size == old(self).size,
            final(self).queue@ == old(self).queue@,
            final(self).running@ == old(self).running@,
            final(self).done@ == old(self).done@,
            final(self).closed,
            old(self).wf() ==> final(self).wf(),
    {
        self.closed = true;
    }

    /// Graceful shutdown: in-flight tasks finish first, then the pending
    /// queue is worked off in submission order; no task is aborted or
    /// dropped, and nothing is executed twice.
    pub fn drain(&mut self)
        ensures
            final(self).size == old(self).size,
            final(self).closed == old(self).closed,
            final(self).queue@.len() == 0,
            final(self).running@.len() == 0,
            final(self).done@ == old(self).done@ + old(self).running@ + old(self).queue@,
            old(self).wf() ==> final(self).wf(),
    {
        while self.running.len() > 0
            invariant
                self.size == old(self).size,
                self.closed == old(self).closed,
                self.queue@ == old(self).queue@,
                self.done@ + self.running@ == old(self).done@ + old(self).running@,
            decreases self.running@.len(),
        {
            let t = self.running.remove(0);
            self.done.push(t);
            proof {
                assert(self.done@ + self.running@ =~= old(self).done@ + old(self).running@);
            }
        }
        proof {
            assert(self.done@ =~= old(self).done@ + old(self).running@);
        }
        while self.queue.len() > 0
            invariant
                self.size == old(self).size,
                self.closed == old(self).closed,
                self.running@.len() == 0,
                self.done@ + self.queue@ == old(self).done@ + old(self).running@ + old(
                    self,
                ).queue@,
            decreases self.queue@.len(),
        {
            let t = self.queue.remove(0);
            self.done.push(t);
            proof {
                assert(self.done@ + self.queue@ =~= old(self).done@ + old(self).running@ + old(
                    self,
                ).queue@);
            }
        }
        proof {
            assert(self.done@ =~= old(self).done@ + old(self).running@ + old(self).queue@);
        }
    }
}

/// Draining a pool completes exactly the submitted work: the completion
/// list is, as a multiset, the in-flight tasks plus the pending queue, so
/// a batch of distinct submissions is completed once each, never dropped
/// and never repeated.
pub proof fn lemma_drain_exactly_once(before: ThreadPool, after: ThreadPool)
    requires
        before.done@.len() == 0,
        after.done@ == before.done@ + before.running@ + before.queue@,
    ensures
        after.done@.to_multiset() == (before.running@ + before.queue@).to_multiset(),
        forall|t: u64|
            after.done@.to_multiset().count(t) == (before.running@
                + before.queue@).to_multiset().count(t),
{
    assert(after.done@ =~= before.running@ + before.queue@);
}

} // verus!
