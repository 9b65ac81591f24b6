//! The bounded work queue feeding the dispatcher: a first-in-first-out
//! sequence of tasks with a fixed capacity. A full queue refuses the next
//! task rather than dropping one; the producer holds it and tries again —
//! back-pressure, decided here, waited out by the caller.

use crate::bot_cmd::{BotTask, BotTaskView};
use vstd::prelude::*;

verus! {

/// The most tasks the queue holds at once.
pub const QUEUE_CAPACITY: usize = 32;

/// The bounded first-in-first-out task queue.
pub struct TaskQueue {
    tasks: Vec<BotTask>,
}

impl View for TaskQueue {
    type V = Seq<BotTaskView>;

    closed spec fn view(&self) -> Seq<BotTaskView> {
        Seq::new(self.tasks@.len(), |i: int| self.tasks@[i]@)
    }
}

impl TaskQueue {
    /// The queue never holds more than its capacity.
    pub open spec fn wf(&self) -> bool {
        self@.len() <= QUEUE_CAPACITY
    }

    pub fn new() -> (q: TaskQueue)
        ensures
            q@ == Seq::<BotTaskView>::empty(),
            q.wf(),
    {
        let q = TaskQueue { tasks: Vec::new() };
        proof {
            assert(q@ =~= Seq::<BotTaskView>::empty());
        }
        q
    }

    pub fn len(&self) -> (n: usize)
        ensures
            n == self@.len(),
    {
        self.tasks.len()
    }

    /// Appends the task where there is room; a full queue refuses it and
    /// stays as it was, so the producer must keep the task and wait.
    pub fn try_push(&mut self, t: BotTask) -> (accepted: bool)
        requires
            old(self).wf(),
        ensures
            final(self).wf(),
            accepted == (old(self)@.len() < QUEUE_CAPACITY),
            accepted ==> final(self)@ == old(self)@.push(t@),
            !accepted ==> final(self)@ == old(self)@,
    {
        let ghost tv = t@;
        if self.tasks.len() < QUEUE_CAPACITY {
            self.tasks.push(t);
            proof {
                assert(self@ =~= old(self)@.push(tv));
            }
            true
        } else {
            false
        }
    }

    /// Removes and returns the oldest task; the rest keep their order.
    pub fn pop_front(&mut self) -> (t: Option<BotTask>)
        requires
            old(self).wf(),
        ensures
            final(self).wf(),
            match t {
                Some(task) => old(self)@.len() > 0 && task@ == old(self)@[0] && final(self)@ == old(
                    self,
                )@.drop_first(),
                None => old(self)@.len() == 0 && final(self)@ == old(self)@,
            },
    {
        if self.tasks.len() == 0 {
            None
        } else {
            let t = self.tasks.remove(0);
            proof {
                assert(self@ =~= old(self)@.drop_first());
            }
            Some(t)
        }
    }
}

} // verus!
