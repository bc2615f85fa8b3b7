use vstd::prelude::*;
use crate::memory::MemoryStore;
use crate::store::{apply_task, fits, lemma_plan_then_finish, plan, plans, finish, FsEvent, StorageAction};
use crate::types::{EntryView, Project, ProjectEntry, ProjectView};
use tokio::sync::oneshot::Sender;

verus! {

/// Why the storage engine could not complete an operation.
#[derive(Debug, Clone, Copy, PartialEq, Eq, Structural)]
pub enum StoreError {
    /// the object could not be opened, read, written or removed
    Io,
    /// the object's contents could not be encoded or decoded
    Encoding,
}

/// An operation on one project entry, with the arguments of the storage call.
#[derive(Debug)]
pub enum FileTask {
    CreateConfig(u128, Project),
    ReadConfig(String),
    UpdateConfig(u128, Project),
    DeleteConfig(String),
}

pub enum TaskView {
    Create(u128, ProjectView),
    Read(Seq<char>),
    Update(u128, ProjectView),
    Delete(Seq<char>),
}

impl View for FileTask {
    type V = TaskView;

    open spec fn view(&self) -> TaskView {
        match self {
            FileTask::CreateConfig(ts, p) => TaskView::Create(*ts, p@),
            FileTask::ReadConfig(n) => TaskView::Read(n@),
            FileTask::UpdateConfig(ts, p) => TaskView::Update(*ts, p@),
            FileTask::DeleteConfig(n) => TaskView::Delete(n@),
        }
    }
}

/// Which of the four operations a task is.
#[derive(Debug, Clone, Copy, PartialEq, Eq, Structural)]
pub enum FileTaskKind {
    Create,
    Read,
    Update,
    Delete,
}

pub open spec fn kind_of(t: TaskView) -> FileTaskKind {
    match t {
        TaskView::Create(..) => FileTaskKind::Create,
        TaskView::Read(..) => FileTaskKind::Read,
        TaskView::Update(..) => FileTaskKind::Update,
        TaskView::Delete(..) => FileTaskKind::Delete,
    }
}

impl FileTask {
    pub fn kind(&self) -> (r: FileTaskKind)
        ensures
            r == kind_of(self@),
    {
        match self {
            FileTask::CreateConfig(..) => FileTaskKind::Create,
            FileTask::ReadConfig(..) => FileTaskKind::Read,
            FileTask::UpdateConfig(..) => FileTaskKind::Update,
            FileTask::DeleteConfig(..) => FileTaskKind::Delete,
        }
    }
}

/// The result of a task, one variant for each kind of task.
#[derive(Debug)]
pub enum FileTaskReturnType {
    CreateReturn(Result<bool, StoreError>),
    ReadReturn(Result<Option<ProjectEntry>, StoreError>),
    UpdateReturn(Result<bool, StoreError>),
    DeleteReturn(Result<bool, StoreError>),
}

pub enum ReturnView {
    CreateReturn(Result<bool, StoreError>),
    ReadReturn(Result<Option<EntryView>, StoreError>),
    UpdateReturn(Result<bool, StoreError>),
    DeleteReturn(Result<bool, StoreError>),
}

impl View for FileTaskReturnType {
    type V = ReturnView;

    open spec fn view(&self) -> ReturnView {
        match self {
            FileTaskReturnType::CreateReturn(r) => ReturnView::CreateReturn(*r),
            FileTaskReturnType::ReadReturn(r) => ReturnView::ReadReturn(
                match r {
                    Ok(Some(e)) => Ok(Some(e@)),
                    Ok(None) => Ok(None),
                    Err(e) => Err(*e),
                },
            ),
            FileTaskReturnType::UpdateReturn(r) => ReturnView::UpdateReturn(*r),
            FileTaskReturnType::DeleteReturn(r) => ReturnView::DeleteReturn(*r),
        }
    }
}

/// The kind of task that a result answers.
pub open spec fn answers(r: ReturnView) -> FileTaskKind {
    match r {
        ReturnView::CreateReturn(..) => FileTaskKind::Create,
        ReturnView::ReadReturn(..) => FileTaskKind::Read,
        ReturnView::UpdateReturn(..) => FileTaskKind::Update,
        ReturnView::DeleteReturn(..) => FileTaskKind::Delete,
    }
}

#[verifier::external_type_specification]
#[verifier::external_body]
#[verifier::reject_recursive_types(T)]
pub struct ExSender<T>(Sender<T>);

/// Relies on tokio's `oneshot::Sender::send`: where the receiver is gone, the
/// value comes back in the error.
pub assume_specification<T>[ Sender::<T>::send ](sender: Sender<T>, t: T) -> (r: Result<(), T>)
    ensures
        r is Err ==> r->Err_0 == t,
;

/// A task for the queue: an operation and the handle through which its
/// result goes back to whoever submitted it.
#[derive(Debug)]
pub struct Task {
    task: FileTask,
    chan: Sender<FileTaskReturnType>,
}

impl View for Task {
    type V = TaskView;

    closed spec fn view(&self) -> TaskView {
        self.task@
    }
}

impl Task {
    pub fn new(task: FileTask, chan: Sender<FileTaskReturnType>) -> (r: Task)
        ensures
            r@ == task@,
    {
        Task { task, chan }
    }

    /// Starts the task: the storage action that carries it out, and the
    /// handle that will take its result.
    pub fn start(self) -> (r: (StorageAction, PendingResult))
        ensures
            plans(self@, r.0),
            r.1.kind() == kind_of(self@),
    {
        let kind = self.task.kind();
        let action = plan(self.task);
        (action, PendingResult { kind, chan: self.chan })
    }

    /// Carries out the task on `store` and sends the result back; returns
    /// whether the submitter was still there to take it.
    pub fn execute_on(self, store: &mut MemoryStore) -> (delivered: bool)
        requires
            old(store).wf(),
        ensures
            final(store).wf(),
            final(store)@ == apply_task(old(store)@, self@).0,
    {
        let ghost t = self@;
        let (action, pending) = self.start();
        proof {
            lemma_plan_then_finish(store@, t, action);
        }
        let ev = store.perform(action);
        pending.finish(ev)
    }
}

/// The handle of a started task: it takes the task's result exactly once.
#[derive(Debug)]
pub struct PendingResult {
    kind: FileTaskKind,
    chan: Sender<FileTaskReturnType>,
}

impl PendingResult {
    pub closed spec fn kind(&self) -> FileTaskKind {
        self.kind
    }

    /// The kind of the task whose result this handle takes.
    pub fn task_kind(&self) -> (r: FileTaskKind)
        ensures
            r == self.kind(),
    {
        self.kind
    }

    /// Turns the answer to the task's action into the task's result and
    /// sends it; returns whether the submitter was still there to take it.
    pub fn finish(self, ev: FsEvent) -> (delivered: bool)
        requires
            fits(self.kind(), ev@),
    {
        let r = finish(self.kind, ev);
        self.chan.send(r).is_ok()
    }
}

} // verus!
