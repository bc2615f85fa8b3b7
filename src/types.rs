use vstd::prelude::*;

verus! {

/// A name and value pair: one environment variable.
#[derive(Debug, Clone, PartialEq)]
pub struct Var {
    pub name: String,
    pub value: String,
}

impl View for Var {
    type V = (Seq<char>, Seq<char>);

    open spec fn view(&self) -> (Seq<char>, Seq<char>) {
        (self.name@, self.value@)
    }
}

/// The variables of a list, as plain text pairs.
pub open spec fn vars_view(vars: Seq<Var>) -> Seq<(Seq<char>, Seq<char>)> {
    vars.map_values(|v: Var| v@)
}

/// What a client sends to create or update a project entry.
#[derive(Debug, Clone, PartialEq)]
pub struct Project {
    /// project name, also the name of its stored object
    pub name: String,
    pub path: String,
    pub vars: Vec<Var>,
}

pub struct ProjectView {
    pub name: Seq<char>,
    pub path: Seq<char>,
    pub vars: Seq<(Seq<char>, Seq<char>)>,
}

impl View for Project {
    type V = ProjectView;

    open spec fn view(&self) -> ProjectView {
        ProjectView { name: self.name@, path: self.path@, vars: vars_view(self.vars@) }
    }
}

/// What is stored for a project: its variables, the path hint and the
/// timestamp of the last accepted write.
#[derive(Debug, Clone, PartialEq)]
pub struct ProjectEntry {
    /// timestamp of the last change
    pub timestamp: u128,
    pub path: String,
    pub vars: Vec<Var>,
}

pub struct EntryView {
    pub timestamp: u128,
    pub path: Seq<char>,
    pub vars: Seq<(Seq<char>, Seq<char>)>,
}

impl View for ProjectEntry {
    type V = EntryView;

    open spec fn view(&self) -> EntryView {
        EntryView { timestamp: self.timestamp, path: self.path@, vars: vars_view(self.vars@) }
    }
}

/// The entry that a write with timestamp `ts` of project `p` stores.
pub open spec fn entry_of(ts: u128, p: ProjectView) -> EntryView {
    EntryView { timestamp: ts, path: p.path, vars: p.vars }
}

/// The client's local configuration.
#[derive(Debug, Clone, PartialEq)]
pub struct Config {
    /// full url of the server
    pub remote_url: String,
    /// timestamp of the version that the client last saw
    pub last_version: u128,
    /// path to the variable file
    pub path: String,
    /// name of the project
    pub name: String,
}

impl ProjectEntry {
    /// The entry that a write of `project` at time `timestamp` stores: the
    /// project's path and variables, stamped with the given time.
    pub fn from_project(timestamp: u128, project: Project) -> (r: ProjectEntry)
        ensures
            r@ == entry_of(timestamp, project@),
    {
        ProjectEntry { timestamp, path: project.path, vars: project.vars }
    }
}

impl Var {
    /// A copy of this variable.
    pub fn duplicate(&self) -> (r: Var)
        ensures
            r@ == self@,
    {
        Var { name: self.name.clone(), value: self.value.clone() }
    }
}

/// A copy of a list of variables, in the same order.
pub fn copy_vars(vars: &Vec<Var>) -> (r: Vec<Var>)
    ensures
        vars_view(r@) == vars_view(vars@),
{
    let mut r: Vec<Var> = Vec::new();
    let mut i: usize = 0;
    while i < vars.len()
        invariant
            i <= vars.len(),
            r.len() == i,
            forall|j: int| 0 <= j < i ==> r@[j]@ == vars@[j]@,
        decreases vars.len() - i,
    {
        r.push(vars[i].duplicate());
        i = i + 1;
    }
    assert(vars_view(r@) =~= vars_view(vars@));
    r
}

impl ProjectEntry {
    /// A copy of this entry.
    pub fn duplicate(&self) -> (r: ProjectEntry)
        ensures
            r@ == self@,
    {
        ProjectEntry { timestamp: self.timestamp, path: self.path.clone(), vars: copy_vars(&self.vars) }
    }
}

} // verus!
