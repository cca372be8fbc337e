//! Paths as text, joined and split by the standard library.

use std::path::Path;
use vstd::prelude::*;

verus! {

/// The text of `Path::new(base).join(segment)`, as the standard library
/// joins paths on the platform that this library is built for.
pub uninterp spec fn joined(base: Seq<char>, segment: Seq<char>) -> Seq<char>;

/// The text of `Path::new(path).parent()`: the path without its last
/// component, or `None` where the standard library finds no parent.
pub uninterp spec fn parent_of(path: Seq<char>) -> Option<Seq<char>>;

/// Calls `std::path::Path::join`. Not proved: the result is the standard
/// library's, named [`joined`]. Both arguments are valid UTF-8, and so is
/// whatever `join` makes of them, so turning the result back into a `String`
/// loses nothing.
#[verifier::external_body]
pub(crate) fn join(base: &str, segment: &str) -> (result: String)
    ensures
        result@ == joined(base@, segment@),
{
    Path::new(base).join(segment).to_string_lossy().into_owned()
}

/// Calls `std::path::Path::parent`. Not proved: the result is the standard
/// library's, named [`parent_of`]. The parent of a path is a leading part of
/// it, so it is valid UTF-8 where the path is.
#[verifier::external_body]
pub(crate) fn parent(path: &str) -> (result: Option<String>)
    ensures
        match result {
            Some(parent) => parent_of(path@) == Some(parent@),
            None => parent_of(path@) is None,
        },
{
    match Path::new(path).parent() {
        Some(parent) => Some(parent.to_string_lossy().into_owned()),
        None => None,
    }
}

} // verus!
