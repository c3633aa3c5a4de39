//! Compact, pre-keyed directory entries used for sorting and display, and
//! the identifiers of filesystem objects.
use vstd::prelude::*;
use std::hash::{Hash, Hasher};
use std::path::PathBuf;

verus! {

pub type ObjectId = u64;

/// Lightweight sortable entry with pre-computed sort keys.
#[derive(Debug, Clone, Copy, PartialEq, Eq)]
pub struct SortableEntry {
    /// registry lookup key
    pub id: ObjectId,
    /// fast name comparison
    pub sort_name_hash: u32,
    /// size in bytes
    pub size: u64,
    /// modification time in milliseconds
    pub modified: u64,
    /// directories sort first by name
    pub is_dir: bool,
}

/// Feeds a name to a default `ahash::AHasher` (`Hash::hash`) and returns
/// `Hasher::finish`. The hasher's keys are drawn once per process, so
/// nothing is stated of the value.
#[verifier::external_body]
fn ahash_of_str(name: &str) -> u64 {
    let mut h = ahash::AHasher::default();
    name.hash(&mut h);
    h.finish()
}

/// Feeds a path to a default `ahash::AHasher` (`Hash::hash`) and returns
/// `Hasher::finish`. The hasher's keys are drawn once per process, so
/// nothing is stated of the value.
#[verifier::external_body]
fn ahash_of_path(path: &PathBuf) -> u64 {
    let mut h = ahash::AHasher::default();
    path.hash(&mut h);
    h.finish()
}

impl SortableEntry {
    /// An entry with its sort keys: the low 32 bits of the name's hash (an
    /// arbitrary order that is the same for equal names within a process),
    /// the size, the modification time and whether it is a directory.
    pub fn from_parts(id: ObjectId, name: &str, size: u64, modified: u64, is_dir: bool) -> (r: Self)
        ensures
            r.id == id,
            r.size == size,
            r.modified == modified,
            r.is_dir == is_dir,
    {
        let h = ahash_of_str(name);
        let low: u32 = (h % 0x1_0000_0000) as u32;
        SortableEntry { id, sort_name_hash: low, size, modified, is_dir }
    }
}

/// The identifier of the object at `path`: the path's hash. Nothing is
/// stated of it, as the hasher's keys are drawn once per process.
pub fn generate_id(path: &PathBuf) -> (r: ObjectId) {
    ahash_of_path(path)
}

} // verus!
