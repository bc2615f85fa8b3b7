use vstd::prelude::*;
use crate::queue::{drained, ended, next_of, pushed_all, NextView, QueueView};
use crate::store::{apply_all, apply_task, StoreModel};
use crate::task::{ReturnView, TaskView};
use crate::types::{entry_of, ProjectView};

verus! {

/// Tasks leave the queue in the order in which they were pushed, and the
/// worker carries each out before it takes the next: draining a queue into
/// which `ts` were pushed leaves the objects exactly as applying `ts` one
/// after another does.
pub proof fn lemma_serializable(m: StoreModel, ts: Seq<TaskView>)
    ensures
        pushed_all(Some(Seq::empty()), ts) == Some(ts),
        drained(m, pushed_all(Some(Seq::empty()), ts)) == apply_all(m, ts).0,
    decreases ts.len(),
{
    if ts.len() > 0 {
        lemma_serializable(m, ts.drop_last());
        assert(ts.drop_last().push(ts.last()) =~= ts);
    }
}

/// Creating a project twice: the first create succeeds and stores its data,
/// the second answers `false` and leaves the stored data as it was.
pub proof fn lemma_create_twice(m: StoreModel, ts1: u128, p1: ProjectView, ts2: u128, p2: ProjectView)
    requires
        p1.name == p2.name,
        !m.contains_key(p1.name),
    ensures
        ({
            let (m1, r1) = apply_task(m, TaskView::Create(ts1, p1));
            let (m2, r2) = apply_task(m1, TaskView::Create(ts2, p2));
            &&& r1 == ReturnView::CreateReturn(Ok(true))
            &&& m1 == m.insert(p1.name, entry_of(ts1, p1))
            &&& r2 == ReturnView::CreateReturn(Ok(false))
            &&& m2 == m1
        }),
{
}

/// Updating a project that does not exist answers `false` and creates nothing.
pub proof fn lemma_update_missing(m: StoreModel, ts: u128, p: ProjectView)
    requires
        !m.contains_key(p.name),
    ensures
        apply_task(m, TaskView::Update(ts, p)) == (m, ReturnView::UpdateReturn(Ok(false))),
{
}

/// Deleting a project that does not exist answers `false` and changes nothing.
pub proof fn lemma_delete_missing(m: StoreModel, name: Seq<char>)
    requires
        !m.contains_key(name),
    ensures
        apply_task(m, TaskView::Delete(name)) == (m, ReturnView::DeleteReturn(Ok(false))),
{
}

/// A read after a successful create gives back exactly the timestamp, path
/// and variables that were written.
pub proof fn lemma_create_then_read(m: StoreModel, ts: u128, p: ProjectView)
    requires
        !m.contains_key(p.name),
    ensures
        apply_task(apply_task(m, TaskView::Create(ts, p)).0, TaskView::Read(p.name)).1
            == ReturnView::ReadReturn(Ok(Some(entry_of(ts, p)))),
{
}

/// Two creates of one name in the queue: the first one dequeued wins, the
/// other answers `false`, and what is stored is the winner's entry alone.
pub proof fn lemma_one_create_wins(m: StoreModel, ts1: u128, p1: ProjectView, ts2: u128, p2: ProjectView)
    requires
        p1.name == p2.name,
        !m.contains_key(p1.name),
    ensures
        apply_all(m, seq![TaskView::Create(ts1, p1), TaskView::Create(ts2, p2)]) == (
            m.insert(p1.name, entry_of(ts1, p1)),
            seq![ReturnView::CreateReturn(Ok(true)), ReturnView::CreateReturn(Ok(false))],
        ),
{
    let ts = seq![TaskView::Create(ts1, p1), TaskView::Create(ts2, p2)];
    assert(ts.drop_last() =~= seq![TaskView::Create(ts1, p1)]);
    assert(ts.drop_last().drop_last() =~= Seq::<TaskView>::empty());
    let one = ts.drop_last();
    assert(apply_all(m, one.drop_last()) == (m, Seq::<ReturnView>::empty()));
    let m1 = m.insert(p1.name, entry_of(ts1, p1));
    assert(apply_all(m, one) == (m1, Seq::<ReturnView>::empty().push(ReturnView::CreateReturn(Ok(true)))));
    assert(apply_all(m, ts).0 == m1);
    assert(apply_all(m, ts).1 =~= seq![ReturnView::CreateReturn(Ok(true)), ReturnView::CreateReturn(Ok(false))]);
}

/// Ending a queue, whatever it holds: the worker's next look finds the end,
/// and none of the tasks that were waiting reaches the objects.
pub proof fn lemma_shutdown_abandons(m: StoreModel, q: QueueView)
    ensures
        next_of(ended(q)) == (ended(q), NextView::End),
        drained(m, ended(q)) == m,
{
}

/// After the queue has ended, every push is refused and no task pushed
/// later is ever carried out.
pub proof fn lemma_nothing_after_shutdown(m: StoreModel, q: QueueView, ts: Seq<TaskView>)
    ensures
        pushed_all(ended(q), ts) is None,
        drained(m, pushed_all(ended(q), ts)) == m,
    decreases ts.len(),
{
    if ts.len() > 0 {
        lemma_nothing_after_shutdown(m, q, ts.drop_last());
    }
}

} // verus!
