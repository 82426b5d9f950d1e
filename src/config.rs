//! Settings read at startup: the last project used and the registered
//! projects, each a name bound to a directory.
use vstd::prelude::*;

verus! {

/// What the editor knows of a project.
#[derive(Debug, Clone)]
pub struct Project {
    pub path: String,
}

impl Default for Project {
    fn default() -> (r: Project)
        ensures
            r.path@ == Seq::<char>::empty(),
    {
        Project { path: String::new() }
    }
}

/// The path bound to `name` in a list of (name, path) pairs; the first pair
/// with that name counts.
pub open spec fn lookup(entries: Seq<(Seq<char>, Seq<char>)>, name: Seq<char>) -> Option<Seq<char>>
    decreases entries.len(),
{
    if entries.len() == 0 {
        None
    } else if entries[0].0 == name {
        Some(entries[0].1)
    } else {
        lookup(entries.drop_first(), name)
    }
}

/// Runtime settings. `projects` is a map from project name to project, held
/// as pairs whose names are pairwise distinct.
#[derive(Debug)]
pub struct Settings {
    pub last_project: String,
    pub projects: Vec<(String, Project)>,
}

impl Default for Settings {
    fn default() -> (r: Settings)
        ensures
            r.is_default(),
            r.wf(),
    {
        Settings { last_project: String::new(), projects: Vec::new() }
    }
}

impl Settings {
    /// The registered projects as (name, path) pairs.
    pub open spec fn entries(&self) -> Seq<(Seq<char>, Seq<char>)> {
        self.projects@.map_values(|e: (String, Project)| (e.0@, e.1.path@))
    }

    pub open spec fn wf(&self) -> bool {
        forall|i: int, j: int|
            0 <= i < j < self.projects@.len() ==> self.projects@[i].0@ != self.projects@[j].0@
    }

    /// The path registered under `name`, if any.
    pub open spec fn path_of(&self, name: Seq<char>) -> Option<Seq<char>> {
        lookup(self.entries(), name)
    }

    /// No last project and no registered project.
    pub open spec fn is_default(&self) -> bool {
        &&& self.last_project@ == Seq::<char>::empty()
        &&& self.projects@.len() == 0
    }

    /// Settings as a parse of the settings file left them, or the defaults
    /// where that parse failed.
    pub fn from_parsed<E>(parsed: Result<Settings, E>) -> (r: Settings)
        ensures
            parsed matches Ok(s) ==> r == s,
            parsed is Err ==> r.is_default() && r.wf(),
    {
        match parsed {
            Ok(s) => s,
            Err(_) => Settings::default(),
        }
    }

    /// The position of the pair named `name`, if there is one.
    fn find(&self, name: &String) -> (r: Option<usize>)
        requires
            self.wf(),
        ensures
            r matches Some(i) ==> i < self.projects@.len() && self.projects@[i as int].0@ == name@,
            r is None ==> forall|i: int|
                0 <= i < self.projects@.len() ==> self.projects@[i].0@ != name@,
    {
        let mut i: usize = 0;
        while i < self.projects.len()
            invariant
                i <= self.projects@.len(),
                forall|k: int| 0 <= k < i ==> self.projects@[k].0@ != name@,
            decreases self.projects@.len() - i,
        {
            if self.projects[i].0 == *name {
                return Some(i);
            }
            i = i + 1;
        }
        None
    }

    /// Whether a project is registered under `name`.
    pub fn contains_project(&self, name: &String) -> (r: bool)
        requires
            self.wf(),
        ensures
            r == (self.path_of(name@) is Some),
    {
        let found = self.find(name);
        proof {
            self.lemma_lookup_at(name@, found);
        }
        found.is_some()
    }

    /// The directory of the project registered under `name`, if any.
    pub fn project_path(&self, name: &String) -> (r: Option<String>)
        requires
            self.wf(),
        ensures
            r matches Some(p) ==> self.path_of(name@) == Some(p@),
            r is None ==> self.path_of(name@) is None,
    {
        let found = self.find(name);
        proof {
            self.lemma_lookup_at(name@, found);
        }
        match found {
            Some(i) => Some(self.projects[i].1.path.clone()),
            None => None,
        }
    }

    /// Registers `project` under `name`, in place of any project of that
    /// name; the other names keep their projects.
    pub fn insert_project(&mut self, name: String, project: Project)
        requires
            old(self).wf(),
        ensures
            final(self).wf(),
            final(self).last_project == old(self).last_project,
            final(self).path_of(name@) == Some(project.path@),
            forall|n: Seq<char>| n != name@ ==> final(self).path_of(n) == old(self).path_of(n),
    {
        let found = self.find(&name);
        let ghost before = self.entries();
        match found {
            Some(i) => {
                let ghost key = name@;
                self.projects.set(i, (name, project));
                proof {
                    assert(self.entries() =~= before.update(i as int, (key, project.path@)));
                    assert forall|n: Seq<char>| #[trigger] self.path_of(n) == if n == key {
                        Some(project.path@)
                    } else {
                        lookup(before, n)
                    } by {
                        lemma_lookup_update(before, i as int, key, project.path@, n);
                    }
                }
            },
            None => {
                let ghost key = name@;
                self.projects.push((name, project));
                proof {
                    assert(self.entries() =~= before.push((key, project.path@)));
                    assert forall|n: Seq<char>| #[trigger] self.path_of(n) == if n == key {
                        Some(project.path@)
                    } else {
                        lookup(before, n)
                    } by {
                        lemma_lookup_push(before, key, project.path@, n);
                    }
                }
            },
        }
    }

    /// The names of the registered projects, in the order they are held.
    pub fn project_names(&self) -> (r: Vec<String>)
        ensures
            r@.len() == self.projects@.len(),
            forall|i: int| 0 <= i < r@.len() ==> r@[i]@ == self.projects@[i].0@,
    {
        let mut names: Vec<String> = Vec::new();
        let mut i: usize = 0;
        while i < self.projects.len()
            invariant
                i <= self.projects@.len(),
                names@.len() == i,
                forall|k: int| 0 <= k < i ==> names@[k]@ == self.projects@[k].0@,
            decreases self.projects@.len() - i,
        {
            names.push(self.projects[i].0.clone());
            i = i + 1;
        }
        names
    }

    proof fn lemma_lookup_at(&self, name: Seq<char>, found: Option<usize>)
        requires
            self.wf(),
            found matches Some(i) ==> i < self.projects@.len() && self.projects@[i as int].0@
                == name,
            found is None ==> forall|i: int|
                0 <= i < self.projects@.len() ==> self.projects@[i].0@ != name,
        ensures
            found matches Some(i) ==> self.path_of(name) == Some(self.projects@[i as int].1.path@),
            found is None ==> self.path_of(name) is None,
    {
        let es = self.entries();
        assert forall|i: int, j: int| 0 <= i < j < es.len() implies es[i].0 != es[j].0 by {
            assert(es[i].0 == self.projects@[i].0@);
        }
        match found {
            Some(i) => lemma_lookup_unique(es, i as int),
            None => lemma_lookup_absent(es, name),
        }
    }
}

proof fn lemma_lookup_absent(es: Seq<(Seq<char>, Seq<char>)>, name: Seq<char>)
    requires
        forall|i: int| 0 <= i < es.len() ==> es[i].0 != name,
    ensures
        lookup(es, name) is None,
    decreases es.len(),
{
    if es.len() > 0 {
        assert(es[0].0 != name);
        lemma_lookup_absent(es.drop_first(), name);
    }
}

proof fn lemma_lookup_unique(es: Seq<(Seq<char>, Seq<char>)>, i: int)
    requires
        0 <= i < es.len(),
        forall|a: int, b: int| 0 <= a < b < es.len() ==> es[a].0 != es[b].0,
    ensures
        lookup(es, es[i].0) == Some(es[i].1),
    decreases es.len(),
{
    if i > 0 {
        assert(es[0].0 != es[i].0);
        let rest = es.drop_first();
        assert(rest[i - 1] == es[i]);
        lemma_lookup_unique(rest, i - 1);
    }
}

proof fn lemma_lookup_push(es: Seq<(Seq<char>, Seq<char>)>, key: Seq<char>, v: Seq<char>, n: Seq<char>)
    requires
        forall|i: int| 0 <= i < es.len() ==> es[i].0 != key,
    ensures
        lookup(es.push((key, v)), n) == if n == key {
            Some(v)
        } else {
            lookup(es, n)
        },
    decreases es.len(),
{
    let es2 = es.push((key, v));
    if es.len() == 0 {
        assert(es2[0] == (key, v));
        assert(es2.drop_first() =~= seq![]);
    } else {
        let rest = es.drop_first();
        assert(es2.drop_first() =~= rest.push((key, v)));
        assert(es2[0] == es[0]);
        assert(es[0].0 != key);
        lemma_lookup_push(rest, key, v, n);
    }
}

proof fn lemma_lookup_update(
    es: Seq<(Seq<char>, Seq<char>)>,
    i: int,
    key: Seq<char>,
    v: Seq<char>,
    n: Seq<char>,
)
    requires
        0 <= i < es.len(),
        es[i].0 == key,
        forall|a: int, b: int| 0 <= a < b < es.len() ==> es[a].0 != es[b].0,
    ensures
        lookup(es.update(i, (key, v)), n) == if n == key {
            Some(v)
        } else {
            lookup(es, n)
        },
    decreases es.len(),
{
    let es2 = es.update(i, (key, v));
    if i == 0 {
        assert(es2[0] == (key, v));
        assert(es2.drop_first() =~= es.drop_first());
    } else {
        let rest = es.drop_first();
        assert(es2.drop_first() =~= rest.update(i - 1, (key, v)));
        assert(es2[0] == es[0]);
        assert(es[0].0 != es[i].0);
        assert forall|a: int, b: int| 0 <= a < b < rest.len() implies rest[a].0 != rest[b].0 by {
            assert(rest[a] == es[a + 1]);
            assert(rest[b] == es[b + 1]);
        }
        lemma_lookup_update(rest, i - 1, key, v, n);
    }
}

} // verus!
