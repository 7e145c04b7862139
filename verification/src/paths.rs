//! Paths as text: whether one is relative, and where it leads from a
//! directory.

use vstd::prelude::*;

verus! {

/// Whether the path is relative, as `Path::is_relative` tells on the target
/// that the library is built for.
pub uninterp spec fn is_relative_path(path: Seq<char>) -> bool;

/// The path that `Path::join` makes of a base and a path, on the target that
/// the library is built for.
pub uninterp spec fn joined_path(base: Seq<char>, path: Seq<char>) -> Seq<char>;

/// Calls `Path::is_relative` on the text taken as a path. Assumed: the answer
/// depends on the text alone.
#[verifier::external_body]
pub(crate) fn is_relative(path: &str) -> (relative: bool)
    ensures
        relative == is_relative_path(path@),
{
    std::path::Path::new(path).is_relative()
}

/// Calls `Path::join` on the two texts taken as paths and gives the result as
/// text. Assumed: the result depends on the two texts alone.
#[verifier::external_body]
pub(crate) fn join(base: &str, path: &str) -> (whole: String)
    ensures
        whole@ == joined_path(base@, path@),
{
    std::path::Path::new(base).join(path).to_string_lossy().into_owned()
}

/// The path seen from the directory `cwd`: a relative path is joined to the
/// directory, any other stays as it is.
pub open spec fn absolute_path(path: Seq<char>, cwd: Seq<char>) -> Seq<char> {
    if is_relative_path(path) {
        joined_path(cwd, path)
    } else {
        path
    }
}

/// What `absolute` does with each answer of the two questions it asks of a
/// path: `joined` where the path is relative, the path itself where not.
pub fn choose_path(path: String, relative: bool, joined: String) -> (whole: String)
    ensures
        whole@ == (if relative {
            joined@
        } else {
            path@
        }),
{
    if relative {
        joined
    } else {
        path
    }
}

/// Makes a path absolute: a relative path is joined to the directory `cwd`,
/// any other stays as it is.
pub fn absolute(path: String, cwd: &str) -> (whole: String)
    ensures
        whole@ == absolute_path(path@, cwd@),
{
    let relative = is_relative(path.as_str());
    let joined = join(cwd, path.as_str());
    choose_path(path, relative, joined)
}

} // verus!
