//! Path arithmetic on textual paths, by `std::path` (Unix semantics).

use vstd::prelude::*;

verus! {

/// `std::path::Path::file_stem` of a path, as text.
pub uninterp spec fn std_file_stem(path: Seq<char>) -> Option<Seq<char>>;

/// `std::path::Path::parent` of a path, as text.
pub uninterp spec fn std_parent(path: Seq<char>) -> Option<Seq<char>>;

/// `std::path::Path::join` of a base path and a further component, as text.
pub uninterp spec fn std_join(base: Seq<char>, name: Seq<char>) -> Seq<char>;

/// The views of an optional owned string.
pub open spec fn text_opt(o: Option<String>) -> Option<Seq<char>> {
    match o {
        Some(s) => Some(s@),
        None => None,
    }
}

/// The file stem of `path` (`std::path::Path::file_stem`): the final
/// component without its last extension, `None` when there is no final
/// component.
#[verifier::external_body]
pub(crate) fn file_stem(path: &str) -> (r: Option<String>)
    ensures
        text_opt(r) == std_file_stem(path@),
{
    std::path::Path::new(path).file_stem().map(|s| s.to_string_lossy().into_owned())
}

/// The parent of `path` (`std::path::Path::parent`), `None` for a root or
/// empty path.
#[verifier::external_body]
pub(crate) fn parent(path: &str) -> (r: Option<String>)
    ensures
        text_opt(r) == std_parent(path@),
{
    std::path::Path::new(path).parent().map(|p| p.to_string_lossy().into_owned())
}

/// `base` joined with `name` (`std::path::Path::join`).
#[verifier::external_body]
pub(crate) fn join(base: &str, name: &str) -> (r: String)
    ensures
        r@ == std_join(base@, name@),
{
    std::path::Path::new(base).join(name).to_string_lossy().into_owned()
}

} // verus!
