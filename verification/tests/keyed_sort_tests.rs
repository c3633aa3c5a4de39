use fsm_core::keyed_sort::{sort_dirs_first, KeyedEntry};
use fsm_core::object_registry::SortableEntry;

fn e(id: u64) -> SortableEntry {
    SortableEntry { id, sort_name_hash: 0, size: 0, modified: 0, is_dir: false }
}

#[test]
fn keys_are_ascii_lowercase() {
    let k = KeyedEntry::new(e(1), false, "ReadMe.MD");
    assert_eq!(k.name_key, "readme.md");
    let k = KeyedEntry::new(e(1), false, "ÉCOLE");
    assert_eq!(k.name_key, "ÉCOLE".to_ascii_lowercase());
    assert_eq!(k.name_key, "École");
}

#[test]
fn directories_first_then_names_stably() {
    let entries = vec![
        KeyedEntry::new(e(1), false, "b.txt"),
        KeyedEntry::new(e(2), true, "zeta"),
        KeyedEntry::new(e(3), false, "A.txt"),
        KeyedEntry::new(e(4), true, "Alpha"),
        KeyedEntry::new(e(5), false, "a.TXT"),
    ];
    let ids: Vec<u64> = sort_dirs_first(&entries).iter().map(|x| x.id).collect();
    assert_eq!(ids, vec![4, 2, 3, 5, 1]);
    assert!(sort_dirs_first(&[]).is_empty());
}

#[test]
fn order_matches_string_comparison() {
    let names = ["b", "ab", "a", "", "aa", "z", "é", "e", "B", "_x", "10", "9"];
    let entries: Vec<KeyedEntry> =
        names.iter().enumerate().map(|(i, n)| KeyedEntry::new(e(i as u64), i % 3 == 0, n)).collect();
    let mut expected: Vec<(bool, String, u64)> =
        entries.iter().map(|k| (!k.is_dir, k.name_key.clone(), k.entry.id)).collect();
    expected.sort_by(|a, b| (a.0, &a.1).cmp(&(b.0, &b.1)));
    let got: Vec<u64> = sort_dirs_first(&entries).iter().map(|x| x.id).collect();
    assert_eq!(got, expected.iter().map(|t| t.2).collect::<Vec<_>>());
}
