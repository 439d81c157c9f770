//! Paths as text. The library never touches a file system; it only takes
//! paths apart and puts them together, which `std::path` does for it, by the
//! rules of the platform the library is built for.

use vstd::prelude::*;

use std::path::Path;
use vstd::string::StringExecFns;

verus! {

/// What `Path::file_name` gives for the path `path`: its final component,
/// unless the path ends in `..` or is a root.
pub uninterp spec fn path_file_name(path: Seq<char>) -> Option<Seq<char>>;

/// What `Path::parent` gives for the path `path`: the path without its final
/// component, unless the path is a root or empty.
pub uninterp spec fn path_parent(path: Seq<char>) -> Option<Seq<char>>;

/// What `Path::join` gives for the path `base` and the path `name`.
pub uninterp spec fn path_joined(base: Seq<char>, name: Seq<char>) -> Seq<char>;

/// `Path::file_name` on a path held as text. The component it hands out is a
/// piece of that text, so it is text too.
#[verifier::external_body]
fn file_name(path: &str) -> (name: Option<String>)
    ensures
        match name {
            Some(text) => path_file_name(path@) == Some(text@),
            None => path_file_name(path@) is None,
        },
{
    Path::new(path).file_name().map(|name| name.to_string_lossy().into_owned())
}

/// `Path::parent` on a path held as text.
#[verifier::external_body]
pub(crate) fn parent(path: &str) -> (dir: Option<String>)
    ensures
        match dir {
            Some(text) => path_parent(path@) == Some(text@),
            None => path_parent(path@) is None,
        },
{
    Path::new(path).parent().map(|dir| dir.to_string_lossy().into_owned())
}

/// `Path::join` on paths held as text.
#[verifier::external_body]
fn join(base: &str, name: &str) -> (joined: String)
    ensures
        joined@ == path_joined(base@, name@),
{
    Path::new(base).join(name).to_string_lossy().into_owned()
}

/// The path `path` with `suffix` appended to its file name.
///
/// Where the path has no file name, the whole path stands for it.
pub open spec fn suffixed(path: Seq<char>, suffix: Seq<char>) -> Seq<char> {
    let name = match path_file_name(path) {
        Some(name) => name,
        None => path,
    } + suffix;
    match path_parent(path) {
        Some(dir) => path_joined(dir, name),
        None => name,
    }
}

/// The path of the sibling of `path` whose file name is that of `path` with
/// `suffix` appended.
pub fn append_suffix(path: &String, suffix: &str) -> (sibling: String)
    ensures
        sibling@ == suffixed(path@, suffix@),
{
    let name = match file_name(path.as_str()) {
        Some(name) => name,
        None => path.clone(),
    };
    let name = name.concat(suffix);
    match parent(path.as_str()) {
        Some(dir) => join(dir.as_str(), name.as_str()),
        None => name,
    }
}

} // verus!
