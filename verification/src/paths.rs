//! File-system paths held as text: the parts of `std::path::Path` the
//! library reasons about.
use vstd::prelude::*;

use crate::text::str_eq;

verus! {

/// What `std::path::Path::parent` returns for the path `p`: the path without
/// its final component (`Some("")` for a single relative component), or
/// `None` for a root, a prefix or the empty path.
pub uninterp spec fn path_parent(p: Seq<char>) -> Option<Seq<char>>;

/// What `std::path::Path::extension` returns for the path `p`: the text
/// after the last `.` of its file name, if it has one past the first
/// character.
pub uninterp spec fn path_extension(p: Seq<char>) -> Option<Seq<char>>;

/// `std::path::Path::parent` on a path given as text. The contract claims
/// only that the result is what [`path_parent`] names for `p` (a parent of a
/// path held as text is itself valid text); Rust's component rules are not
/// restated.
#[verifier::external_body]
pub(crate) fn parent_of(p: &str) -> (parent: Option<String>)
    ensures
        match parent {
            Some(q) => path_parent(p@) == Some(q@),
            None => path_parent(p@) is None,
        },
{
    std::path::Path::new(p).parent().and_then(|q| q.to_str()).map(String::from)
}

/// `std::path::Path::extension` on a path given as text. The contract
/// claims only that the result is what [`path_extension`] names for `p` (the
/// extension of a path held as text is itself valid text); Rust's file-name
/// rules are not restated.
#[verifier::external_body]
pub(crate) fn extension_of(p: &str) -> (ext: Option<String>)
    ensures
        match ext {
            Some(e) => path_extension(p@) == Some(e@),
            None => path_extension(p@) is None,
        },
{
    std::path::Path::new(p).extension().and_then(|e| e.to_str()).map(String::from)
}

/// Whether a Unix path is absolute: it starts at the root.
pub open spec fn is_absolute_spec(p: Seq<char>) -> bool {
    p.len() > 0 && p[0] == '/'
}

/// Whether a Unix path is absolute.
pub fn is_absolute(p: &str) -> (b: bool)
    ensures
        b == is_absolute_spec(p@),
{
    p.unicode_len() > 0 && p.get_char(0) == '/'
}

/// Whether a path may name an engine manifest: a `.toml` file, given as an
/// absolute path where one is required.
pub open spec fn manifest_path_acceptable_spec(p: Seq<char>, require_absolute: bool) -> bool {
    &&& (require_absolute ==> is_absolute_spec(p))
    &&& path_extension(p) == Some("toml"@)
}

/// Whether `path` may name an engine manifest (before it is resolved on
/// disk): a `.toml` file, absolute when `require_absolute`.
pub fn manifest_path_acceptable(path: &str, require_absolute: bool) -> (ok: bool)
    ensures
        ok == manifest_path_acceptable_spec(path@, require_absolute),
{
    if require_absolute && !is_absolute(path) {
        return false;
    }
    match extension_of(path) {
        Some(e) => str_eq(e.as_str(), "toml"),
        None => false,
    }
}

/// `rel` appended to the directory `base` with one separator between them.
pub open spec fn join_path(base: Seq<char>, rel: Seq<char>) -> Seq<char> {
    if base.len() == 0 || base.last() == '/' {
        base + rel
    } else {
        base + "/"@ + rel
    }
}

/// Append the relative path `rel` to `base`, as `Path::join` does.
pub fn join_path_str(base: &str, rel: &str) -> (p: String)
    ensures
        p@ == join_path(base@, rel@),
{
    let n = base.unicode_len();
    if n == 0 || base.get_char(n - 1) == '/' {
        String::from_str(base).concat(rel)
    } else {
        String::from_str(base).concat("/").concat(rel)
    }
}

} // verus!
