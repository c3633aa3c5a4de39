use std::path::PathBuf;

use fsm_core::object_registry::{generate_id, SortableEntry};

#[test]
fn entries_keep_their_keys() {
    let a = SortableEntry::from_parts(7, "notes.txt", 120, 1_700_000, false);
    assert_eq!((a.id, a.size, a.modified, a.is_dir), (7, 120, 1_700_000, false));
    let b = SortableEntry::from_parts(8, "notes.txt", 0, 0, true);
    assert_eq!(a.sort_name_hash, b.sort_name_hash);
}

#[test]
fn ids_are_stable_within_a_process() {
    let p = PathBuf::from("/tmp/a/b.txt");
    assert_eq!(generate_id(&p), generate_id(&p.clone()));
    assert_ne!(generate_id(&p), generate_id(&PathBuf::from("/tmp/a/c.txt")));
}
