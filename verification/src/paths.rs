//! Filesystem paths as the resolver handles them: values of
//! `std::path::PathBuf` that are made from text and carried through unread.

use vstd::prelude::*;
use std::path::PathBuf;
use std::str::FromStr;

verus! {

/// `std::path::PathBuf`, carried through the resolver as an opaque value.
#[verifier::external_type_specification]
#[verifier::external_body]
pub struct ExPathBuf(PathBuf);

/// The path that `PathBuf::from_str` makes of a text.
pub uninterp spec fn path_of(text: Seq<char>) -> PathBuf;

/// Interprets `text` as a filesystem path by `PathBuf::from_str`.
///
/// Not proved: that the conversion succeeds for every text (std declares its
/// error type as `Infallible`) and that the path depends on the characters of
/// the text alone, so that it can go by the name [`path_of`].
#[verifier::external_body]
pub(crate) fn path_from_text(text: &str) -> (path: Option<PathBuf>)
    ensures
        path == Some(path_of(text@)),
{
    PathBuf::from_str(text).ok()
}

/// `PathBuf::clone`. Not proved: that the copy equals the path it was made
/// from.
pub assume_specification[ <PathBuf as Clone>::clone ](path: &PathBuf) -> (copy: PathBuf)
    ensures
        copy == *path,
;

} // verus!
