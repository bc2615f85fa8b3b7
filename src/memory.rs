use vstd::prelude::*;
use crate::store::{apply_task, lemma_plan_then_finish, respond, finish, plan, FsEvent, StorageAction, StoreModel};
use crate::task::{FileTask, FileTaskReturnType};
use crate::types::ProjectEntry;

verus! {

/// An object store held in memory: it answers storage actions as the data
/// directory does, one object per project name.
pub struct MemoryStore {
    objects: Vec<(String, ProjectEntry)>,
    model: Ghost<StoreModel>,
}

impl View for MemoryStore {
    type V = StoreModel;

    closed spec fn view(&self) -> StoreModel {
        self.model@
    }
}

impl MemoryStore {
    /// The objects are listed once each, and the model holds exactly them.
    pub closed spec fn wf(&self) -> bool {
        &&& forall|i: int|
            0 <= i < self.objects.len() ==> {
                &&& self.model@.contains_key(#[trigger] self.objects@[i].0@)
                &&& self.model@[self.objects@[i].0@] == self.objects@[i].1@
            }
        &&& forall|k: Seq<char>|
            #[trigger] self.model@.contains_key(k) ==> exists|i: int|
                0 <= i < self.objects.len() && #[trigger] self.objects@[i].0@ == k
        &&& forall|i: int, j: int|
            0 <= i < j < self.objects.len() ==> self.objects@[i].0@ != self.objects@[j].0@
    }

    /// An empty store.
    pub fn new() -> (r: MemoryStore)
        ensures
            r.wf(),
            r@ == StoreModel::empty(),
    {
        MemoryStore { objects: Vec::new(), model: Ghost(Map::empty()) }
    }

    /// The number of stored objects.
    pub fn len(&self) -> (r: usize)
        requires
            self.wf(),
        ensures
            r == self@.len(),
    {
        proof {
            self.lemma_len();
        }
        self.objects.len()
    }

    proof fn lemma_len(&self)
        requires
            self.wf(),
        ensures
            self@.len() == self.objects.len(),
    {
        let names = Seq::new(self.objects.len() as nat, |i: int| self.objects@[i].0@);
        assert(names.no_duplicates());
        names.unique_seq_to_set();
        assert(self.model@.dom() =~= names.to_set()) by {
            assert forall|k: Seq<char>| self.model@.dom().contains(k) implies names.to_set().contains(k) by {
                let i = choose|i: int| 0 <= i < self.objects.len() && self.objects@[i].0@ == k;
                assert(names[i] == k);
            }
            assert forall|k: Seq<char>| names.to_set().contains(k) implies self.model@.dom().contains(k) by {
                let i = choose|i: int| 0 <= i < names.len() && names[i] == k;
                assert(self.model@.contains_key(self.objects@[i].0@));
            }
        }
    }

    fn find(&self, name: &String) -> (r: Option<usize>)
        requires
            self.wf(),
        ensures
            match r {
                Some(i) => i < self.objects.len() && self.objects@[i as int].0@ == name@,
                None => !self@.contains_key(name@),
            },
    {
        let mut i: usize = 0;
        while i < self.objects.len()
            invariant
                self.wf(),
                i <= self.objects.len(),
                forall|j: int| 0 <= j < i ==> self.objects@[j].0@ != name@,
            decreases self.objects.len() - i,
        {
            if self.objects[i].0 == *name {
                return Some(i);
            }
            i = i + 1;
        }
        None
    }

    /// Answers a storage action as a faithful object store does.
    pub fn perform(&mut self, a: StorageAction) -> (ev: FsEvent)
        requires
            old(self).wf(),
        ensures
            final(self).wf(),
            (final(self)@, ev@) == respond(old(self)@, a),
    {
        match a {
            StorageAction::CreateNew(n, e) => {
                match self.find(&n) {
                    Some(_) => FsEvent::Exists,
                    None => {
                        proof {
                            self.model@ = self.model@.insert(n@, e@);
                        }
                        let ghost old_objects = self.objects@;
                        self.objects.push((n, e));
                        assert forall|k: Seq<char>| #[trigger] self.model@.contains_key(k) implies exists|j: int|
                            0 <= j < self.objects.len() && #[trigger] self.objects@[j].0@ == k by {
                            if k != self.objects@[old_objects.len() as int].0@ {
                                let j = choose|j: int| 0 <= j < old_objects.len() && old_objects[j].0@ == k;
                                assert(self.objects@[j].0@ == k);
                            }
                        }
                        FsEvent::Done
                    },
                }
            },
            StorageAction::Load(n) => {
                match self.find(&n) {
                    Some(i) => FsEvent::Loaded(self.objects[i].1.duplicate()),
                    None => FsEvent::Missing,
                }
            },
            StorageAction::Overwrite(n, e) => {
                match self.find(&n) {
                    Some(i) => {
                        proof {
                            self.model@ = self.model@.insert(n@, e@);
                        }
                        let ghost old_objects = self.objects@;
                        self.objects.set(i, (n, e));
                        assert forall|k: Seq<char>| #[trigger] self.model@.contains_key(k) implies exists|j: int|
                            0 <= j < self.objects.len() && #[trigger] self.objects@[j].0@ == k by {
                            let j = choose|j: int| 0 <= j < old_objects.len() && old_objects[j].0@ == k;
                            assert(self.objects@[j].0@ == k);
                        }
                        FsEvent::Done
                    },
                    None => FsEvent::Missing,
                }
            },
            StorageAction::Remove(n) => {
                match self.find(&n) {
                    Some(i) => {
                        let ghost old_objects = self.objects@;
                        proof {
                            self.model@ = self.model@.remove(n@);
                        }
                        self.objects.remove(i);
                        assert forall|j: int| 0 <= j < self.objects.len() implies #[trigger] self.objects@[j]
                            == if j < i { old_objects[j] } else { old_objects[j + 1] } by {}
                        assert forall|k: Seq<char>| #[trigger] self.model@.contains_key(k) implies exists|j: int|
                            0 <= j < self.objects.len() && #[trigger] self.objects@[j].0@ == k by {
                            let j = choose|j: int| 0 <= j < old_objects.len() && old_objects[j].0@ == k;
                            if j < i {
                                assert(self.objects@[j].0@ == k);
                            } else {
                                assert(self.objects@[j - 1].0@ == k);
                            }
                        }
                        FsEvent::Done
                    },
                    None => FsEvent::Missing,
                }
            },
        }
    }

    /// Carries out a task on this store and returns its result.
    pub fn execute(&mut self, task: FileTask) -> (r: FileTaskReturnType)
        requires
            old(self).wf(),
        ensures
            final(self).wf(),
            (final(self)@, r@) == apply_task(old(self)@, task@),
    {
        let kind = task.kind();
        let ghost t = task@;
        let action = plan(task);
        proof {
            lemma_plan_then_finish(self@, t, action);
        }
        let ev = self.perform(action);
        finish(kind, ev)
    }
}

} // verus!
