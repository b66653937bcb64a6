use vstd::prelude::*;

verus! {

/// A saved project: its name and its source text.
#[derive(Debug, Clone)]
pub struct ProjectFile {
    pub name: String,
    pub content: String,
}

/// The file name that a project is saved under.
pub fn project_file_name(name: &str) -> (r: String)
    ensures
        r@ == name@ + ".hduino"@,
{
    let mut r = String::from_str(name);
    r.append(".hduino");
    r
}

/// The project that an opened file holds: named after the file's stem, or
/// `untitled` when the path has no readable stem.
pub fn open_project(stem: Option<&str>, content: String) -> (r: ProjectFile)
    ensures
        stem is Some ==> r.name@ == stem->Some_0@,
        stem is None ==> r.name@ == "untitled"@,
        r.content == content,
{
    let name = match stem {
        Some(s) => String::from_str(s),
        None => String::from_str("untitled"),
    };
    ProjectFile { name, content }
}

} // verus!
