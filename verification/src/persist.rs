use vstd::prelude::*;
use crate::state::ProjectMeta;

verus! {

/// A recent project as it is saved.
pub struct ProjectEntry {
    pub id: String,
    pub name: String,
    pub last_opened_secs: u64,
}

/// The saved list of recent projects.
pub struct SaveData {
    pub recent_projects: Vec<ProjectEntry>,
}

/// The seconds saved for an opening time: zero when it lies before the epoch.
pub open spec fn saved_secs(t: Option<u64>) -> u64 {
    match t {
        Some(s) => s,
        None => 0,
    }
}

/// `e` is how the recent project `p` is saved.
pub open spec fn entry_saves(e: ProjectEntry, p: ProjectMeta) -> bool {
    &&& e.id@ == p.id@
    &&& e.name@ == p.name@
    &&& e.last_opened_secs == saved_secs(p.last_opened)
}

/// `p` is the recent project read back from the entry `e`: it has no path,
/// and it was opened the saved number of seconds after the epoch.
pub open spec fn entry_loads(e: ProjectEntry, p: ProjectMeta) -> bool {
    &&& p.id@ == e.id@
    &&& p.name@ == e.name@
    &&& p.path@.len() == 0
    &&& p.last_opened == Some(e.last_opened_secs)
}

/// `d` is how the list `ps` is saved, entry for entry and in order.
pub open spec fn saved_as(ps: Seq<ProjectMeta>, d: SaveData) -> bool {
    &&& d.recent_projects@.len() == ps.len()
    &&& forall|i: int| 0 <= i < ps.len() ==> entry_saves(#[trigger] d.recent_projects@[i], ps[i])
}

/// `ps` is the list read back from `d`; nothing was read when `d` is missing.
pub open spec fn loaded_as(d: Option<SaveData>, ps: Seq<ProjectMeta>) -> bool {
    match d {
        None => ps.len() == 0,
        Some(d) => {
            &&& ps.len() == d.recent_projects@.len()
            &&& forall|i: int|
                0 <= i < ps.len() ==> entry_loads(#[trigger] d.recent_projects@[i], ps[i])
        },
    }
}

/// The recent projects read from the saved list; `data` is `None` when there
/// was no saved list or it could not be read, and then there are none.
pub fn load_recent_projects(data: Option<SaveData>) -> (r: Vec<ProjectMeta>)
    ensures
        loaded_as(data, r@),
{
    match data {
        None => Vec::new(),
        Some(d) => {
            let entries = &d.recent_projects;
            let mut r: Vec<ProjectMeta> = Vec::new();
            let mut i: usize = 0;
            while i < entries.len()
                invariant
                    i <= entries@.len(),
                    r@.len() == i,
                    forall|j: int| 0 <= j < i ==> entry_loads(#[trigger] entries@[j], r@[j]),
                decreases entries@.len() - i,
            {
                let e = &entries[i];
                r.push(
                    ProjectMeta {
                        id: e.id.clone(),
                        name: e.name.clone(),
                        path: String::new(),
                        last_opened: Some(e.last_opened_secs),
                    },
                );
                i = i + 1;
            }
            r
        },
    }
}

/// The saved form of the list of recent projects.
pub fn save_recent_projects(projects: &[ProjectMeta]) -> (r: SaveData)
    ensures
        saved_as(projects@, r),
{
    let mut entries: Vec<ProjectEntry> = Vec::new();
    let mut i: usize = 0;
    while i < projects.len()
        invariant
            i <= projects@.len(),
            entries@.len() == i,
            forall|j: int| 0 <= j < i ==> entry_saves(#[trigger] entries@[j], projects@[j]),
        decreases projects@.len() - i,
    {
        let p = &projects[i];
        let secs = match p.last_opened {
            Some(s) => s,
            None => 0,
        };
        entries.push(ProjectEntry { id: p.id.clone(), name: p.name.clone(), last_opened_secs: secs });
        i = i + 1;
    }
    SaveData { recent_projects: entries }
}

/// Saving a list of recent projects and reading it back gives the same
/// projects in the same order, each without a path and opened at the saved
/// second (the epoch itself for one opened before it).
pub proof fn lemma_save_then_load(ps: Seq<ProjectMeta>, d: SaveData, qs: Seq<ProjectMeta>)
    requires
        saved_as(ps, d),
        loaded_as(Some(d), qs),
    ensures
        qs.len() == ps.len(),
        forall|i: int|
            0 <= i < ps.len() ==> {
                &&& (#[trigger] qs[i]).id@ == ps[i].id@
                &&& qs[i].name@ == ps[i].name@
                &&& qs[i].path@.len() == 0
                &&& qs[i].last_opened == Some(saved_secs(ps[i].last_opened))
            },
{
    assert forall|i: int| 0 <= i < ps.len() implies {
        &&& (#[trigger] qs[i]).id@ == ps[i].id@
        &&& qs[i].name@ == ps[i].name@
        &&& qs[i].path@.len() == 0
        &&& qs[i].last_opened == Some(saved_secs(ps[i].last_opened))
    } by {
        assert(entry_saves(d.recent_projects@[i], ps[i]));
        assert(entry_loads(d.recent_projects@[i], qs[i]));
    }
}

/// Reading a saved list and saving it again writes the same entries.
pub proof fn lemma_load_then_save(d: SaveData, qs: Seq<ProjectMeta>, d2: SaveData)
    requires
        loaded_as(Some(d), qs),
        saved_as(qs, d2),
    ensures
        d2.recent_projects@.len() == d.recent_projects@.len(),
        forall|i: int|
            0 <= i < d.recent_projects@.len() ==> {
                &&& (#[trigger] d2.recent_projects@[i]).id@ == d.recent_projects@[i].id@
                &&& d2.recent_projects@[i].name@ == d.recent_projects@[i].name@
                &&& d2.recent_projects@[i].last_opened_secs == d.recent_projects@[i].last_opened_secs
            },
{
    assert forall|i: int| 0 <= i < d.recent_projects@.len() implies {
        &&& (#[trigger] d2.recent_projects@[i]).id@ == d.recent_projects@[i].id@
        &&& d2.recent_projects@[i].name@ == d.recent_projects@[i].name@
        &&& d2.recent_projects@[i].last_opened_secs == d.recent_projects@[i].last_opened_secs
    } by {
        assert(entry_loads(d.recent_projects@[i], qs[i]));
        assert(entry_saves(d2.recent_projects@[i], qs[i]));
    }
}

} // verus!
