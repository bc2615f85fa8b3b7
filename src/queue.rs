use vstd::prelude::*;
use std::collections::VecDeque;
use crate::memory::MemoryStore;
use crate::store::{apply_all, StoreModel};
use crate::task::{Task, TaskView};

verus! {

/// The queue as its operations see it: the pending tasks in order, or `None`
/// once it has been ended.
pub type QueueView = Option<Seq<TaskView>>;

/// The queue after `t` was pushed; pushing onto an ended queue changes
/// nothing.
pub open spec fn pushed(q: QueueView, t: TaskView) -> QueueView {
    match q {
        Some(s) => Some(s.push(t)),
        None => None,
    }
}

/// The queue after it was ended: whatever it held is gone.
pub open spec fn ended(q: QueueView) -> QueueView {
    None
}

/// The queue after `ts` were pushed onto it, one after another.
pub open spec fn pushed_all(q: QueueView, ts: Seq<TaskView>) -> QueueView
    decreases ts.len(),
{
    if ts.len() == 0 {
        q
    } else {
        pushed(pushed_all(q, ts.drop_last()), ts.last())
    }
}

/// What a look at the queue finds.
#[derive(Debug)]
pub enum NextTask {
    /// the oldest pending task, now taken out of the queue
    Ready(Task),
    /// the queue is open and holds nothing
    Empty,
    /// the queue has ended
    End,
}

pub enum NextView {
    Ready(TaskView),
    Empty,
    End,
}

impl View for NextTask {
    type V = NextView;

    open spec fn view(&self) -> NextView {
        match self {
            NextTask::Ready(t) => NextView::Ready(t@),
            NextTask::Empty => NextView::Empty,
            NextTask::End => NextView::End,
        }
    }
}

/// The queue after a look at it, and what the look found.
pub open spec fn next_of(q: QueueView) -> (QueueView, NextView) {
    match q {
        None => (None, NextView::End),
        Some(s) => if s.len() == 0 {
            (q, NextView::Empty)
        } else {
            (Some(s.drop_first()), NextView::Ready(s[0]))
        },
    }
}

/// The objects after the queued tasks of `q` were carried out in order on
/// `m`: an ended queue carries out nothing.
pub open spec fn drained(m: StoreModel, q: QueueView) -> StoreModel {
    match q {
        Some(s) => apply_all(m, s).0,
        None => m,
    }
}

/// The tasks that wait to be carried out, first in, first out. Ending the
/// queue drops whatever it still holds, and it then accepts nothing.
pub struct FileTaskQueue {
    jobs: Option<VecDeque<Task>>,
}

impl View for FileTaskQueue {
    type V = QueueView;

    closed spec fn view(&self) -> QueueView {
        match self.jobs {
            Some(d) => Some(d@.map_values(|t: Task| t@)),
            None => None,
        }
    }
}

impl FileTaskQueue {
    /// An open queue with no task.
    pub fn new() -> (r: FileTaskQueue)
        ensures
            r@ == Some(Seq::<TaskView>::empty()),
    {
        let r = FileTaskQueue { jobs: Some(VecDeque::new()) };
        assert(r@->Some_0 =~= Seq::<TaskView>::empty());
        r
    }

    /// Appends `t` to the queue; returns whether it was accepted, which it is
    /// exactly when the queue has not ended.
    pub fn push_task(&mut self, t: Task) -> (accepted: bool)
        ensures
            accepted == old(self)@ is Some,
            final(self)@ == pushed(old(self)@, t@),
    {
        match &mut self.jobs {
            Some(queue) => {
                let ghost before = queue@;
                queue.push_back(t);
                assert(queue@.map_values(|t: Task| t@) =~= before.map_values(|t: Task| t@).push(t@));
                true
            },
            None => false,
        }
    }

    /// Takes the oldest pending task out of the queue, or says that there is
    /// none, or that the queue has ended.
    pub fn next_task(&mut self) -> (r: NextTask)
        ensures
            (final(self)@, r@) == next_of(old(self)@),
    {
        match &mut self.jobs {
            Some(queue) => {
                let ghost before = queue@;
                match queue.pop_front() {
                    Some(t) => {
                        assert(queue@.map_values(|t: Task| t@) =~= before.map_values(|t: Task| t@).drop_first());
                        NextTask::Ready(t)
                    },
                    None => NextTask::Empty,
                }
            },
            None => NextTask::End,
        }
    }

    /// Ends the queue: the tasks still in it are dropped, never carried out,
    /// and their submitters see the handles close.
    pub fn end(&mut self)
        ensures
            final(self)@ == ended(old(self)@),
    {
        self.jobs = None;
    }

    /// Whether the queue has ended.
    pub fn has_ended(&self) -> (r: bool)
        ensures
            r == self@ is None,
    {
        self.jobs.is_none()
    }
}

/// Carries out the pending tasks one by one, in queue order, on `store`,
/// until the queue is empty or ended.
pub fn drain(queue: &mut FileTaskQueue, store: &mut MemoryStore)
    requires
        old(store).wf(),
    ensures
        final(store).wf(),
        final(store)@ == drained(old(store)@, old(queue)@),
        final(queue)@ == match old(queue)@ {
            Some(_) => Some(Seq::<TaskView>::empty()),
            None => None,
        },
{
    let ghost q0 = queue@;
    let ghost m0 = store@;
    let ghost mut n: int = 0;
    loop
        invariant
            store.wf(),
            match q0 {
                Some(s) => {
                    &&& 0 <= n <= s.len()
                    &&& queue@ == Some(s.subrange(n, s.len() as int))
                    &&& store@ == apply_all(m0, s.take(n)).0
                },
                None => queue@ is None && store@ == m0,
            },
        ensures
            store.wf(),
            store@ == drained(m0, q0),
            queue@ == match q0 {
                Some(_) => Some(Seq::<TaskView>::empty()),
                None => None,
            },
        decreases
            match queue@ {
                Some(s) => s.len(),
                None => 0,
            },
    {
        match queue.next_task() {
            NextTask::Ready(t) => {
                let ghost s = q0->Some_0;
                t.execute_on(store);
                proof {
                    assert(s.take(n + 1).drop_last() =~= s.take(n));
                    assert(s.subrange(n, s.len() as int)[0] == s.take(n + 1).last());
                    assert(s.subrange(n, s.len() as int).drop_first() =~= s.subrange(n + 1, s.len() as int));
                    n = n + 1;
                }
            },
            NextTask::Empty => {
                proof {
                    let s = q0->Some_0;
                    assert(s.take(n) =~= s);
                    assert(queue@->Some_0 =~= Seq::<TaskView>::empty());
                }
                break;
            },
            NextTask::End => {
                break;
            },
        }
    }
}

} // verus!
