use vstd::prelude::*;

verus! {

/// `dir` joined with the relative or absolute path `name`, with `/` as the
/// separator: an absolute `name` replaces `dir`; otherwise a separator is put
/// between them unless `dir` is empty or already ends with one.
pub open spec fn joined(dir: Seq<char>, name: Seq<char>) -> Seq<char> {
    if name.len() > 0 && name[0] == '/' {
        name
    } else if dir.len() == 0 || dir.last() == '/' {
        dir + name
    } else {
        dir + seq!['/'] + name
    }
}

/// The file that holds the list of recent projects.
pub open spec fn save_file_name() -> Seq<char> {
    "projects.json"@
}

/// The file that holds the data of the project `id`.
pub open spec fn project_file_name(id: Seq<char>) -> Seq<char> {
    id + ".json"@
}

/// Joins `name` onto `dir` as `PathBuf::push` does with `/` separators.
pub fn join_path(dir: &str, name: &str) -> (r: String)
    ensures
        r@ == joined(dir@, name@),
{
    let n = name.unicode_len();
    let d = dir.unicode_len();
    if n > 0 && name.get_char(0) == '/' {
        return name.to_owned();
    }
    let mut s = dir.to_owned();
    if d > 0 && dir.get_char(d - 1) != '/' {
        s.append("/");
        proof { reveal_strlit("/"); }
    }
    s.append(name);
    assert(s@ =~= joined(dir@, name@));
    s
}

/// Where the recent projects are saved, within the data directory `data_dir`.
pub fn save_path(data_dir: &str) -> (r: String)
    ensures
        r@ == joined(data_dir@, save_file_name()),
{
    join_path(data_dir, "projects.json")
}

/// Where the project `id` is saved, within the data directory `data_dir`.
pub fn project_path(data_dir: &str, id: &str) -> (r: String)
    ensures
        r@ == joined(data_dir@, project_file_name(id@)),
{
    let mut file = id.to_owned();
    file.append(".json");
    join_path(data_dir, file.as_str())
}

/// The data directory's path below the directory named by `APPDATA`, or the
/// fallback below the working directory when that variable is unset.
pub open spec fn data_dir_text(appdata: Option<Seq<char>>) -> Seq<char> {
    match appdata {
        Some(a) => joined(a, "velocis"@),
        None => "./.velocis"@,
    }
}

/// Chooses the data directory from the value of `APPDATA`, if it is set.
pub fn data_dir_path(appdata: Option<&str>) -> (r: String)
    ensures
        r@ == data_dir_text(match appdata { Some(a) => Some(a@), None => None }),
{
    match appdata {
        Some(a) => join_path(a, "velocis"),
        None => "./.velocis".to_owned(),
    }
}

/// A relative, non-empty name joined onto a directory is the end of the joined path.
pub proof fn lemma_joined_ends_with(dir: Seq<char>, name: Seq<char>)
    requires
        name.len() > 0,
        name[0] != '/',
    ensures
        joined(dir, name).len() >= name.len(),
        joined(dir, name).subrange(
            joined(dir, name).len() - name.len(),
            joined(dir, name).len() as int,
        ) == name,
{
    let j = joined(dir, name);
    if dir.len() == 0 || dir.last() == '/' {
        assert(j.subrange(j.len() - name.len(), j.len() as int) =~= name);
    } else {
        assert(j.subrange(j.len() - name.len(), j.len() as int) =~= name);
    }
}

/// The file of a project is the file of the recent-projects list only for
/// the identifier `projects`.
pub proof fn lemma_project_file_is_save_file(id: Seq<char>)
    ensures
        (project_file_name(id) == save_file_name()) == (id == "projects"@),
{
    reveal_strlit("projects.json");
    reveal_strlit(".json");
    reveal_strlit("projects");
    assert("projects.json"@.len() == 13);
    assert(".json"@.len() == 5);
    if project_file_name(id) == save_file_name() {
        assert(id.len() == 8);
        assert(id =~= project_file_name(id).subrange(0, 8));
        assert(id =~= "projects"@);
    }
    if id == "projects"@ {
        assert(project_file_name(id) =~= save_file_name());
    }
}

} // verus!
