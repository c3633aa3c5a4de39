use fsm_core::fs_state::PaneState;
use fsm_core::object_registry::SortableEntry;
use fsm_core::overlays::{ContentSearchOverlay, FileOperationsOverlay, LoadingOverlay, ObjectTable};
use fsm_core::ui::{ScreenArea, View};
use std::path::PathBuf;

fn area(x: u16, y: u16, width: u16, height: u16) -> ScreenArea {
    ScreenArea { x, y, width, height }
}

#[test]
fn progress_overlay_sits_above_the_status_bar() {
    let a = View::progress_overlay_area(area(0, 0, 100, 30), 2);
    assert_eq!(a, area(1, 21, 98, 7));
    let b = View::progress_overlay_area(area(0, 0, 100, 12), 10);
    assert_eq!(b, area(1, 6, 98, 4));
    let c = View::progress_overlay_area(area(0, 0, 1, 2), 1);
    assert_eq!(c, area(1, 0, 0, 0));
}

#[test]
fn operation_rows_share_the_height() {
    let rows = FileOperationsOverlay::calculate_layout(area(1, 10, 50, 13), 2);
    assert_eq!(rows, vec![area(1, 10, 50, 6), area(1, 16, 50, 6)]);
    let rows = FileOperationsOverlay::calculate_layout(area(0, 0, 20, 4), 3);
    assert_eq!(rows, vec![area(0, 0, 20, 3), area(0, 3, 20, 3), area(0, 6, 20, 3)]);
    assert_eq!(FileOperationsOverlay::cancel_instruction_area(&rows), Some(area(0, 9, 20, 1)));
    assert_eq!(FileOperationsOverlay::cancel_instruction_area(&[]), None);
}

#[test]
fn loading_texts() {
    assert_eq!(LoadingOverlay::inset_rect(area(10, 5, 40, 10), 2, 2), area(12, 7, 36, 6));
    assert_eq!(LoadingOverlay::inset_rect(area(0, 0, 3, 3), 2, 2), area(2, 2, 0, 0));
    assert_eq!(
        LoadingOverlay::loading_lines("Scanning", 10, Some("a.txt"), Some(3), Some(9)),
        vec!["⠃ Scanning".to_string(), "Current: a.txt".to_string(), "Completed: 3/9".to_string(), String::new()]
    );
    assert_eq!(LoadingOverlay::loading_lines("x", 0, None, Some(1), None), vec!["⠁ x".to_string(), String::new()]);
}

#[test]
fn content_search_texts() {
    let lines = vec![
        "\x1b[35msrc/a.rs\x1b[0m".to_string(),
        "3:fn a()".to_string(),
        "4-context".to_string(),
        "--".to_string(),
        "src/b.rs".to_string(),
        "10:fn b()".to_string(),
        "11:fn c()".to_string(),
    ];
    assert_eq!(
        ContentSearchOverlay::search_status_text("fn", Some(&lines), 0, None, false),
        "Found 3 matches in 3 files for 'fn'"
    );
    assert_eq!(
        ContentSearchOverlay::search_status_text("", Some(&lines), 0, None, false),
        "Ready to search • Type pattern and press Enter"
    );
    assert_eq!(ContentSearchOverlay::search_status_text("x", None, 4, None, false), "Found 4 files matching 'x'");
    assert_eq!(
        ContentSearchOverlay::search_status_text("x", None, 0, Some("Searching files"), true),
        "Searching for 'x'..."
    );
    assert_eq!(ContentSearchOverlay::search_status_text("x", None, 0, Some("Loading"), true), "No matches found for 'x'");
    assert_eq!(ContentSearchOverlay::search_status_text("x", None, 0, None, false), "Press Enter to search for 'x'");
    assert_eq!(ContentSearchOverlay::search_input_title(true, false, false), " Content Search (ripgrep) ");
    assert_eq!(ContentSearchOverlay::search_input_title(false, true, true), " 🔍 Searching... ");
    assert_eq!(ContentSearchOverlay::search_input_title(false, false, true), " Content Search - Results Found ");
    assert!(ContentSearchOverlay::search_help_text(false, true).starts_with("↑↓ Navigate"));
}

fn entry(id: u64) -> SortableEntry {
    SortableEntry { id, sort_name_hash: id as u32, size: 0, modified: 0, is_dir: false }
}

#[test]
fn object_table_texts() {
    assert_eq!(ObjectTable::column_headers(10), vec!["Name"]);
    assert_eq!(ObjectTable::column_headers(30), vec!["Name", "Type"]);
    assert_eq!(ObjectTable::column_headers(60), vec!["Name", "Type", "Size"]);
    assert_eq!(ObjectTable::column_headers(120), vec!["Name", "Type", "Items", "Size", "Modified"]);
    assert_eq!(ObjectTable::highlight_symbol(10), ">");
    assert_eq!(ObjectTable::column_spacing(60), 2);
    let mut pane = PaneState::new(PathBuf::from("/home/user/docs"));
    pane.set_entries((0..50).map(entry).collect());
    pane.set_viewport_height(13);
    assert_eq!(ObjectTable::table_title(&pane, 10), "docs");
    assert_eq!(ObjectTable::table_title(&pane, 30), " docs ");
    assert_eq!(ObjectTable::table_title(&pane, 60), " docs (1/50) ");
    assert_eq!(ObjectTable::table_title(&pane, 100), " /home/user/docs (1/50) ");
    let mut small = PaneState::new(PathBuf::from("/home/user/docs"));
    small.set_entries((0..3).map(entry).collect());
    assert_eq!(ObjectTable::table_title(&small, 60), " /home/user/docs ");
}
