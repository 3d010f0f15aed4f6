use std::collections::VecDeque;
use vstd::prelude::*;

verus! {

/// The scheduling core of the worker pool: a FIFO queue of pending tasks
/// with ghost bookkeeping of everything ever submitted and everything ever
/// handed to a worker. The pool decouples accepting connections from
/// processing them: `spawn` enqueues in constant time and never blocks,
/// workers take the oldest task and run it to completion. Every operation
/// here is what a worker or the accept loop does while holding the queue's
/// lock; the threads themselves, and the condition variable that wakes
/// them, live at the unverified edge, which runs one `take` loop per worker
/// and wakes a worker on every `spawn`.
pub struct ThreadPool<T> {
    /// The fixed number of worker threads the pool is built for. The edge
    /// spawns exactly this many, which bounds how many tasks run at once.
    pub size: usize,
    /// Pending tasks, oldest first.
    pub tasks: VecDeque<T>,
    /// Every task ever submitted, in submission order.
    pub submitted: Ghost<Seq<T>>,
    /// Every task handed to a worker, in hand-out order.
    pub started: Ghost<Seq<T>>,
}

impl<T> ThreadPool<T> {
    /// Exactly-once accounting: the tasks handed out, followed by the tasks
    /// still pending, are precisely the tasks submitted, in order. No task
    /// is dropped, none is handed out twice.
    pub open spec fn wf(&self) -> bool {
        self.started@ + self.tasks@ == self.submitted@
    }

    pub fn new(size: usize) -> (p: ThreadPool<T>)
        ensures
            p.wf(),
            p.size == size,
            p.tasks@ == Seq::<T>::empty(),
            p.submitted@ == Seq::<T>::empty(),
            p.started@ == Seq::<T>::empty(),
    {
        let p = ThreadPool {
            size,
            tasks: VecDeque::new(),
            submitted: Ghost(Seq::empty()),
            started: Ghost(Seq::empty()),
        };
        proof {
            assert(p.started@ + p.tasks@ =~= p.submitted@);
        }
        p
    }

    /// Enqueue one task behind the pending ones. Constant-time and
    /// non-blocking for the caller; safe under the queue's lock however
    /// many callers race for it.
    pub fn spawn(&mut self, task: T)
        requires
            old(self).wf(),
        ensures
            final(self).wf(),
            final(self).size == old(self).size,
            final(self).tasks@ == old(self).tasks@.push(task),
            final(self).submitted@ == old(self).submitted@.push(task),
            final(self).started@ == old(self).started@,
    {
        self.tasks.push_back(task);
        self.submitted = Ghost(self.submitted@.push(task));
        proof {
            assert(final(self).started@ + final(self).tasks@ =~= final(self).submitted@);
        }
    }

    /// Hand the oldest pending task to a worker, or report an empty queue.
    /// The taken task moves, whole, from pending to started: it is returned
    /// exactly once, and the tasks behind it keep their order.
    pub fn take(&mut self) -> (t: Option<T>)
        requires
            old(self).wf(),
        ensures
            final(self).wf(),
            final(self).size == old(self).size,
            final(self).submitted@ == old(self).submitted@,
            match t {
                Some(task) => old(self).tasks@.len() > 0 && task == old(self).tasks@[0]
                    && final(self).tasks@ == old(self).tasks@.drop_first()
                    && final(self).started@ == old(self).started@.push(task),
                None => old(self).tasks@.len() == 0 && final(self).tasks@ == old(self).tasks@
                    && final(self).started@ == old(self).started@,
            },
    {
        match self.tasks.pop_front() {
            Some(task) => {
                self.started = Ghost(self.started@.push(task));
                proof {
                    assert(final(self).tasks@ =~= old(self).tasks@.drop_first());
                    assert(final(self).started@ + final(self).tasks@ =~= final(self).submitted@);
                }
                Some(task)
            },
            None => None,
        }
    }
}

/// Law: submitting tasks loses none and duplicates none. In a well-formed
/// pool, the i-th task ever submitted is accounted for exactly once: it
/// either was the i-th task handed to a worker, or still waits in the queue
/// at position i minus the number handed out.
pub proof fn lemma_every_task_exactly_once<T>(p: &ThreadPool<T>)
    requires
        p.wf(),
    ensures
        p.submitted@.len() == p.started@.len() + p.tasks@.len(),
        forall|i: int| 0 <= i < p.started@.len() ==> p.submitted@[i] == p.started@[i],
        forall|i: int|
            p.started@.len() <= i < p.submitted@.len() ==> p.submitted@[i] == p.tasks@[i - p.started@.len()],
{
}

} // verus!
