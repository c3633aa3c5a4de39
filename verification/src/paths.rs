//! Filesystem paths as opaque values, with the few conversions the library makes.
use vstd::prelude::*;
use std::path::PathBuf;

verus! {

#[verifier::external_type_specification]
#[verifier::external_body]
pub struct ExPathBuf(std::path::PathBuf);

/// `PathBuf::clone` yields the same path.
pub assume_specification[ <PathBuf as Clone>::clone ](p: &PathBuf) -> (r: PathBuf)
    ensures
        r == *p,
;

/// What `PathBuf::from` builds from a string: named, as the platform's
/// path representation is not modelled.
pub uninterp spec fn pathbuf_from(s: Seq<char>) -> PathBuf;

/// Calls `PathBuf::from` on a string slice.
#[verifier::external_body]
pub(crate) fn pathbuf_from_str(s: &str) -> (p: PathBuf)
    ensures
        p == pathbuf_from(s@),
{
    PathBuf::from(s)
}

} // verus!
