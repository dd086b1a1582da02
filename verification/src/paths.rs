//! Paths of the file system, as std holds them.

use std::path::PathBuf;
use vstd::prelude::*;

verus! {

/// A path of the file system as std holds it. The library carries such a
/// value and never looks inside.
#[verifier::external_type_specification]
#[verifier::external_body]
pub struct ExPathBuf(PathBuf);

/// `PathBuf::clone`: the copy is the same path.
pub assume_specification[ <PathBuf as Clone>::clone ](path: &PathBuf) -> (copy: PathBuf)
    ensures
        copy == *path,
;

/// `PathBuf::from` on a string slice: the path that the text spells.
#[verifier::external_body]
pub(crate) fn path_from(text: &str) -> PathBuf {
    PathBuf::from(text)
}

} // verus!
