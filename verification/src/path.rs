//! Virtual paths and their resolution against a root directory.
//!
//! Paths are texts in the path syntax of the platform. Nothing here touches
//! the file system: every function is lexical.

use vstd::prelude::*;

verus! {

/// The normal form of a virtual path: rooted, without `.` components, and with
/// `..` only where it would leave the root.
pub uninterp spec fn normalized(path: Seq<char>) -> Seq<char>;

/// Where a virtual path lies below a root directory, or `None` if it
/// lexically leaves the root.
pub uninterp spec fn resolved(vpath: Seq<char>, root: Seq<char>) -> Option<Seq<char>>;

/// The virtual path of a real path below a root directory, or `None` if the
/// root is not a lexical prefix of the path.
pub uninterp spec fn rooted_in(path: Seq<char>, root: Seq<char>) -> Option<Seq<char>>;

/// Calls `typst::syntax::VirtualPath::new` and hands back the rooted path it
/// holds. The contract only names the result: it depends on the text of
/// `path` alone.
#[verifier::external_body]
pub(crate) fn normalize(path: &str) -> (vpath: String)
    ensures
        vpath@ == normalized(path@),
{
    let vpath = typst::syntax::VirtualPath::new(path);
    vpath.as_rooted_path().to_string_lossy().into_owned()
}

/// Calls `typst::syntax::VirtualPath::resolve` for the virtual path `vpath`
/// and the directory `root`. It joins the two without touching the file
/// system and gives `None` where a `..` would lead above the root. The
/// contract only names the result.
#[verifier::external_body]
pub(crate) fn resolve(vpath: &str, root: &str) -> (path: Option<String>)
    ensures
        match path {
            Some(p) => resolved(vpath@, root@) == Some(p@),
            None => resolved(vpath@, root@) is None,
        },
{
    let vpath = typst::syntax::VirtualPath::new(vpath);
    match vpath.resolve(std::path::Path::new(root)) {
        Some(path) => Some(path.to_string_lossy().into_owned()),
        None => None,
    }
}

/// Calls `typst::syntax::VirtualPath::within_root` for a real path and a
/// root. It strips the root from the front of the path, lexically, and gives
/// `None` where the path does not start with it. The contract only names the
/// result.
#[verifier::external_body]
pub(crate) fn within_root(path: &str, root: &str) -> (vpath: Option<String>)
    ensures
        match vpath {
            Some(v) => rooted_in(path@, root@) == Some(v@),
            None => rooted_in(path@, root@) is None,
        },
{
    let inner = std::path::Path::new(path);
    match typst::syntax::VirtualPath::within_root(inner, std::path::Path::new(root)) {
        Some(vpath) => Some(vpath.as_rooted_path().to_string_lossy().into_owned()),
        None => None,
    }
}

/// The path of `sub` below the directory `base`.
pub uninterp spec fn joined(base: Seq<char>, sub: Seq<char>) -> Seq<char>;

/// Calls `std::path::Path::join`, which appends `sub` to `base` with a
/// separator between them, or gives `sub` alone where it is absolute. The
/// contract only names the result.
#[verifier::external_body]
pub(crate) fn join(base: &str, sub: &str) -> (path: String)
    ensures
        path@ == joined(base@, sub@),
{
    let path = std::path::Path::new(base).join(sub);
    path.to_string_lossy().into_owned()
}

/// The virtual path without the separator at its front.
pub uninterp spec fn rootless(vpath: Seq<char>) -> Seq<char>;

/// Calls `typst::syntax::VirtualPath::as_rootless_path` on the virtual path
/// `vpath`, which strips the leading separator. The contract only names the
/// result.
#[verifier::external_body]
pub(crate) fn without_root(vpath: &str) -> (path: String)
    ensures
        path@ == rootless(vpath@),
{
    let vpath = typst::syntax::VirtualPath::new(vpath);
    vpath.as_rootless_path().to_string_lossy().into_owned()
}

/// The way from the directory `base` to `path`, as a relative path, or
/// `None` where there is none: from an absolute base to a relative path.
pub uninterp spec fn relative_to(path: Seq<char>, base: Seq<char>) -> Option<Seq<char>>;

/// Calls `pathdiff::diff_paths`, which compares the two paths component by
/// component, lexically, and builds the relative path from `base` to
/// `path`. The contract only names the result.
#[verifier::external_body]
pub(crate) fn diff_paths(path: &str, base: &str) -> (relative: Option<String>)
    ensures
        match relative {
            Some(way) => relative_to(path@, base@) == Some(way@),
            None => relative_to(path@, base@) is None,
        },
{
    match pathdiff::diff_paths(path, base) {
        Some(way) => Some(way.to_string_lossy().into_owned()),
        None => None,
    }
}

} // verus!
