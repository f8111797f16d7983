//! Filesystem paths as the library sees them: values that can be told apart.

use std::path::{Path, PathBuf};
use vstd::prelude::*;

verus! {

/// Declares `std::path::Path`, a borrowed path, as an opaque type.
#[verifier::external_type_specification]
#[verifier::external_body]
pub struct ExPath(Path);

/// Declares `std::path::PathBuf`, an owned path, as an opaque type.
#[verifier::external_type_specification]
#[verifier::external_body]
pub struct ExPathBuf(PathBuf);

/// The components that a borrowed path holds, each by what sets it apart from
/// others. Two spellings of one path, such as `/a/b` and `/a//b/`, have the same
/// components.
pub uninterp spec fn path_components(path: &Path) -> Seq<Seq<u8>>;

/// The components that an owned path holds, in the terms of `path_components`.
pub uninterp spec fn path_buf_components(path: &PathBuf) -> Seq<Seq<u8>>;

/// Calls `<PathBuf as PartialEq<Path>>::eq` of `std::path`, which compares an
/// owned and a borrowed path by their components. Claimed of it: it answers
/// whether the two hold the same components. Which components a spelling has is
/// left unsaid, since separators and prefixes differ from platform to platform.
#[verifier::external_body]
pub(crate) fn same_path(left: &PathBuf, right: &Path) -> (same: bool)
    ensures
        same == (path_buf_components(left) == path_components(right)),
{
    left == right
}

} // verus!
