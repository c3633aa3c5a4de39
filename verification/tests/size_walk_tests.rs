use std::path::PathBuf;

use fsm_core::size_walk::{SizeWalk, WalkEntry};

#[test]
fn sizes_count_all_files_items_only_direct_children() {
    let root = PathBuf::from("/data");
    let mut w = SizeWalk::new(root.clone());
    assert_eq!(w.next_dir(), Some(root));
    w.record_entry(WalkEntry::File(100));
    w.record_entry(WalkEntry::Dir(PathBuf::from("/data/a")));
    w.record_entry(WalkEntry::Dir(PathBuf::from("/data/b")));
    w.record_entry(WalkEntry::Other);
    w.finish_dir();
    assert_eq!((w.total_size, w.direct_items), (100, 4));
    assert_eq!(w.next_dir(), Some(PathBuf::from("/data/b")));
    w.record_entry(WalkEntry::File(20));
    w.record_entry(WalkEntry::Dir(PathBuf::from("/data/b/c")));
    w.finish_dir();
    assert_eq!(w.next_dir(), Some(PathBuf::from("/data/b/c")));
    w.record_entry(WalkEntry::File(3));
    w.finish_dir();
    assert_eq!(w.next_dir(), Some(PathBuf::from("/data/a")));
    w.finish_dir();
    assert_eq!(w.next_dir(), None);
    assert_eq!((w.total_size, w.direct_items), (123, 4));
}

#[test]
fn an_unreadable_root_counts_nothing() {
    let mut w = SizeWalk::new(PathBuf::from("/nope"));
    assert!(w.next_dir().is_some());
    assert_eq!(w.next_dir(), None);
    assert_eq!((w.total_size, w.direct_items), (0, 0));
    assert!(w.in_root);
}

#[test]
fn cached_sizes() {
    assert!(SizeWalk::cached_size_usable(1, 0));
    assert!(SizeWalk::cached_size_usable(0, 2));
    assert!(!SizeWalk::cached_size_usable(0, 0));
}
