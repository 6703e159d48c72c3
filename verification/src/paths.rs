//! Paths as text, with `/` as the only separator.

use vstd::prelude::*;
use vstd::string::*;

verus! {

/// The directory, relative to the directory of the running executable, in
/// which installed templates live.
pub const INSTALLED_TEMPLATES: &'static str = "../templates";

/// The directory, relative to the working directory, in which templates live
/// during development.
pub const LOCAL_TEMPLATES: &'static str = "templates";

/// `segment` appended to `base`.
///
/// A segment that starts at the root stands for itself. Otherwise exactly one
/// separator is put between the two, unless `base` is empty or already ends
/// with one.
pub open spec fn spec_join(base: Seq<char>, segment: Seq<char>) -> Seq<char> {
    if segment.len() > 0 && segment[0] == '/' {
        segment
    } else if base.len() == 0 || base.last() == '/' {
        base + segment
    } else {
        base + seq!['/'] + segment
    }
}

/// Where the template called `name` is looked for first: beside the
/// executable whose directory is `exe_dir`.
pub open spec fn spec_installed_candidate(exe_dir: Seq<char>, name: Seq<char>) -> Seq<char> {
    spec_join(spec_join(exe_dir, INSTALLED_TEMPLATES@), name)
}

/// Where the template called `name` is looked for second: below the working
/// directory.
pub open spec fn spec_local_candidate(name: Seq<char>) -> Seq<char> {
    spec_join(LOCAL_TEMPLATES@, name)
}

/// Where the copy of the template called `name` goes in the project
/// `project_name`.
pub open spec fn spec_destination(project_name: Seq<char>, name: Seq<char>) -> Seq<char> {
    spec_join(project_name, name)
}

/// Appends `segment` to `base`.
pub fn join(base: &str, segment: &str) -> (path: String)
    ensures
        path@ == spec_join(base@, segment@),
{
    let segment_len: usize = segment.unicode_len();
    if segment_len > 0 && segment.get_char(0) == '/' {
        return String::from_str(segment);
    }
    let base_len: usize = base.unicode_len();
    let mut path = String::from_str(base);
    if base_len > 0 && base.get_char(base_len - 1) != '/' {
        proof {
            reveal_strlit("/");
            assert("/"@ =~= seq!['/']);
        }
        path.append("/");
    }
    path.append(segment);
    path
}

/// The first place to look for the template called `name`.
pub fn installed_candidate(exe_dir: &str, name: &str) -> (path: String)
    ensures
        path@ == spec_installed_candidate(exe_dir@, name@),
{
    let templates = join(exe_dir, INSTALLED_TEMPLATES);
    join(templates.as_str(), name)
}

/// The second place to look for the template called `name`.
pub fn local_candidate(name: &str) -> (path: String)
    ensures
        path@ == spec_local_candidate(name@),
{
    join(LOCAL_TEMPLATES, name)
}

/// The path at which the template called `name` is placed in the project.
pub fn destination(project_name: &str, name: &str) -> (path: String)
    ensures
        path@ == spec_destination(project_name@, name@),
{
    join(project_name, name)
}

} // verus!
