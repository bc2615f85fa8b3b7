use vstd::prelude::*;
use crate::task::{answers, kind_of, FileTask, FileTaskKind, FileTaskReturnType, ReturnView, StoreError, TaskView};
use crate::types::{entry_of, EntryView, ProjectEntry};

verus! {

/// What the stored objects hold, by project name.
pub type StoreModel = Map<Seq<char>, EntryView>;

/// What one task does to the stored objects, and what it answers.
///
/// A create succeeds only where no object of that name exists; a read finds
/// the stored entry or nothing; an update overwrites only an existing object;
/// a delete removes only an existing one. Where the operation does not
/// apply, the objects stay as they were and the answer is `false` (`None`
/// for a read).
pub open spec fn apply_task(m: StoreModel, t: TaskView) -> (StoreModel, ReturnView) {
    match t {
        TaskView::Create(ts, p) => if m.contains_key(p.name) {
            (m, ReturnView::CreateReturn(Ok(false)))
        } else {
            (m.insert(p.name, entry_of(ts, p)), ReturnView::CreateReturn(Ok(true)))
        },
        TaskView::Read(n) => if m.contains_key(n) {
            (m, ReturnView::ReadReturn(Ok(Some(m[n]))))
        } else {
            (m, ReturnView::ReadReturn(Ok(None)))
        },
        TaskView::Update(ts, p) => if m.contains_key(p.name) {
            (m.insert(p.name, entry_of(ts, p)), ReturnView::UpdateReturn(Ok(true)))
        } else {
            (m, ReturnView::UpdateReturn(Ok(false)))
        },
        TaskView::Delete(n) => if m.contains_key(n) {
            (m.remove(n), ReturnView::DeleteReturn(Ok(true)))
        } else {
            (m, ReturnView::DeleteReturn(Ok(false)))
        },
    }
}

/// The tasks applied one after another, in order: the objects at the end and
/// the answer of each task.
pub open spec fn apply_all(m: StoreModel, ts: Seq<TaskView>) -> (StoreModel, Seq<ReturnView>)
    decreases ts.len(),
{
    if ts.len() == 0 {
        (m, Seq::empty())
    } else {
        let (m1, rs) = apply_all(m, ts.drop_last());
        let (m2, r) = apply_task(m1, ts.last());
        (m2, rs.push(r))
    }
}

/// What the storage engine asks of the place where objects are kept.
#[derive(Debug)]
pub enum StorageAction {
    /// create the object exclusively and write the entry into it
    CreateNew(String, ProjectEntry),
    /// read the object
    Load(String),
    /// overwrite the existing object with the entry
    Overwrite(String, ProjectEntry),
    /// remove the existing object
    Remove(String),
}

/// What the place where objects are kept answered.
#[derive(Debug)]
pub enum FsEvent {
    /// the object was created, overwritten or removed
    Done,
    /// the object was read and held this entry
    Loaded(ProjectEntry),
    /// an exclusive create found the object there already
    Exists,
    /// the object was not there
    Missing,
    /// the operation failed
    Failed(StoreError),
}

pub enum EventView {
    Done,
    Loaded(EntryView),
    Exists,
    Missing,
    Failed(StoreError),
}

impl View for FsEvent {
    type V = EventView;

    open spec fn view(&self) -> EventView {
        match self {
            FsEvent::Done => EventView::Done,
            FsEvent::Loaded(e) => EventView::Loaded(e@),
            FsEvent::Exists => EventView::Exists,
            FsEvent::Missing => EventView::Missing,
            FsEvent::Failed(e) => EventView::Failed(*e),
        }
    }
}

/// The action that carries out a task.
pub open spec fn plans(t: TaskView, a: StorageAction) -> bool {
    match t {
        TaskView::Create(ts, p) => a matches StorageAction::CreateNew(n, e) && n@ == p.name
            && e@ == entry_of(ts, p),
        TaskView::Read(name) => a matches StorageAction::Load(n) && n@ == name,
        TaskView::Update(ts, p) => a matches StorageAction::Overwrite(n, e) && n@ == p.name
            && e@ == entry_of(ts, p),
        TaskView::Delete(name) => a matches StorageAction::Remove(n) && n@ == name,
    }
}

/// How a faithful object store answers an action, and what it then holds.
pub open spec fn respond(m: StoreModel, a: StorageAction) -> (StoreModel, EventView) {
    match a {
        StorageAction::CreateNew(n, e) => if m.contains_key(n@) {
            (m, EventView::Exists)
        } else {
            (m.insert(n@, e@), EventView::Done)
        },
        StorageAction::Load(n) => if m.contains_key(n@) {
            (m, EventView::Loaded(m[n@]))
        } else {
            (m, EventView::Missing)
        },
        StorageAction::Overwrite(n, e) => if m.contains_key(n@) {
            (m.insert(n@, e@), EventView::Done)
        } else {
            (m, EventView::Missing)
        },
        StorageAction::Remove(n) => if m.contains_key(n@) {
            (m.remove(n@), EventView::Done)
        } else {
            (m, EventView::Missing)
        },
    }
}

/// The answers that can come back for a task of kind `k`.
pub open spec fn fits(k: FileTaskKind, ev: EventView) -> bool {
    match ev {
        EventView::Done => k != FileTaskKind::Read,
        EventView::Loaded(_) => k == FileTaskKind::Read,
        EventView::Exists => k == FileTaskKind::Create,
        EventView::Missing => k != FileTaskKind::Create,
        EventView::Failed(_) => true,
    }
}

/// The result of a task of kind `k` whose action was answered with `ev`.
pub open spec fn finished(k: FileTaskKind, ev: EventView) -> ReturnView {
    match k {
        FileTaskKind::Create => ReturnView::CreateReturn(
            match ev {
                EventView::Failed(e) => Err(e),
                EventView::Exists => Ok(false),
                _ => Ok(true),
            },
        ),
        FileTaskKind::Read => ReturnView::ReadReturn(
            match ev {
                EventView::Failed(e) => Err(e),
                EventView::Loaded(e) => Ok(Some(e)),
                _ => Ok(None),
            },
        ),
        FileTaskKind::Update => ReturnView::UpdateReturn(
            match ev {
                EventView::Failed(e) => Err(e),
                EventView::Missing => Ok(false),
                _ => Ok(true),
            },
        ),
        FileTaskKind::Delete => ReturnView::DeleteReturn(
            match ev {
                EventView::Failed(e) => Err(e),
                EventView::Missing => Ok(false),
                _ => Ok(true),
            },
        ),
    }
}

/// Where the objects are kept: one file per project, under this directory.
pub const DATA_DIR: &'static str = "data/";

pub open spec fn object_path_of(name: Seq<char>) -> Seq<char> {
    DATA_DIR@ + name
}

/// The path of the file that holds the object of project `name`.
pub fn object_path(name: &str) -> (r: String)
    ensures
        r@ == object_path_of(name@),
{
    let mut r = String::from_str(DATA_DIR);
    r.append(name);
    r
}

/// The action that carries out `task`.
pub fn plan(task: FileTask) -> (r: StorageAction)
    ensures
        plans(task@, r),
{
    match task {
        FileTask::CreateConfig(ts, p) => {
            let name = p.name.clone();
            StorageAction::CreateNew(name, ProjectEntry::from_project(ts, p))
        },
        FileTask::ReadConfig(n) => StorageAction::Load(n),
        FileTask::UpdateConfig(ts, p) => {
            let name = p.name.clone();
            StorageAction::Overwrite(name, ProjectEntry::from_project(ts, p))
        },
        FileTask::DeleteConfig(n) => StorageAction::Remove(n),
    }
}

impl FsEvent {
    /// Whether this answer can come back for a task of kind `k`.
    pub fn fits(&self, k: FileTaskKind) -> (r: bool)
        ensures
            r == fits(k, self@),
    {
        match self {
            FsEvent::Done => k != FileTaskKind::Read,
            FsEvent::Loaded(_) => k == FileTaskKind::Read,
            FsEvent::Exists => k == FileTaskKind::Create,
            FsEvent::Missing => k != FileTaskKind::Create,
            FsEvent::Failed(_) => true,
        }
    }
}

/// The result of a task of kind `k` whose action was answered with `ev`: a
/// failure is passed on; a create that found the object, or another
/// operation that did not, answers `false` (`None` for a read); otherwise
/// `true` (the entry for a read).
pub fn finish(k: FileTaskKind, ev: FsEvent) -> (r: FileTaskReturnType)
    requires
        fits(k, ev@),
    ensures
        r@ == finished(k, ev@),
        answers(r@) == k,
{
    match k {
        FileTaskKind::Create => FileTaskReturnType::CreateReturn(
            match ev {
                FsEvent::Failed(e) => Err(e),
                FsEvent::Exists => Ok(false),
                _ => Ok(true),
            },
        ),
        FileTaskKind::Read => FileTaskReturnType::ReadReturn(
            match ev {
                FsEvent::Failed(e) => Err(e),
                FsEvent::Loaded(e) => Ok(Some(e)),
                _ => Ok(None),
            },
        ),
        FileTaskKind::Update => FileTaskReturnType::UpdateReturn(
            match ev {
                FsEvent::Failed(e) => Err(e),
                FsEvent::Missing => Ok(false),
                _ => Ok(true),
            },
        ),
        FileTaskKind::Delete => FileTaskReturnType::DeleteReturn(
            match ev {
                FsEvent::Failed(e) => Err(e),
                FsEvent::Missing => Ok(false),
                _ => Ok(true),
            },
        ),
    }
}

/// Carrying out a task's action on a faithful object store gives what the
/// task itself does, and an answer that fits the task.
pub proof fn lemma_plan_then_finish(m: StoreModel, t: TaskView, a: StorageAction)
    requires
        plans(t, a),
    ensures
        respond(m, a).0 == apply_task(m, t).0,
        fits(kind_of(t), respond(m, a).1),
        finished(kind_of(t), respond(m, a).1) == apply_task(m, t).1,
{
}

} // verus!
