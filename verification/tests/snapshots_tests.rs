use fsm_core::snapshots::{ClipboardItemSnapshot, ClipboardItemType, ClipboardSnapshot, OperationStatus};
use std::path::PathBuf;
use std::time::SystemTime;

fn item(id: u64, size: u64) -> ClipboardItemSnapshot {
    ClipboardItemSnapshot {
        id,
        path: PathBuf::from(format!("/f{id}")),
        size,
        is_cut: false,
        item_type: ClipboardItemType::File,
        timestamp: SystemTime::now(),
    }
}

#[test]
fn empty_snapshot() {
    let s = ClipboardSnapshot::empty();
    assert!(s.is_empty);
    assert_eq!(s.item_count, 0);
    assert_eq!(s.total_size, 0);
    assert_eq!(s.selected_idx, 0);
}

#[test]
fn snapshot_from_items_clamps_selection() {
    let s = ClipboardSnapshot::from_items(vec![item(1, 10), item(2, 20), item(3, 5)], 9);
    assert_eq!(s.item_count, 3);
    assert!(!s.is_empty);
    assert_eq!(s.total_size, 35);
    assert_eq!(s.selected_idx, 2);
    let s = ClipboardSnapshot::from_items(vec![item(1, 10)], 0);
    assert_eq!(s.selected_idx, 0);
    let s = ClipboardSnapshot::from_items(Vec::new(), 4);
    assert_eq!(s.selected_idx, 0);
    assert!(s.is_empty);
    assert_eq!(OperationStatus::Paused, OperationStatus::Paused);
    assert_ne!(ClipboardItemType::File, ClipboardItemType::Symlink);
}
