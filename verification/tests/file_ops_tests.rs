use fsm_core::file_ops::ProgressGate;
use std::time::{Duration, Instant};
use fsm_core::file_ops::{is_batch_boundary, is_hidden_name, keeps_entry, scan_progress_message};
use fsm_core::file_ops::{
    CommandArg, FileOperation, FileSystemOperation, FilenameSearchTask, ScanMode,
};
use std::path::PathBuf;
use std::sync::Arc;

#[test]
fn operation_names() {
    let p = PathBuf::from("/tmp/x");
    assert_eq!(FileSystemOperation::Delete { path: p.clone() }.operation_name(), "delete");
    assert_eq!(FileSystemOperation::CreateFile { path: p.clone() }.operation_name(), "create_file");
    assert_eq!(
        FileSystemOperation::CreateDirectory { path: p.clone() }.operation_name(),
        "create_directory"
    );
    assert_eq!(
        FileSystemOperation::Rename { source: p.clone(), new_name: "y".into() }.operation_name(),
        "rename"
    );
    let scan = |m| FileSystemOperation::ScanDirectory { path: p.clone(), show_hidden: false, scan_mode: m };
    assert_eq!(scan(ScanMode::Fast).operation_name(), "scan_directory_fast");
    assert_eq!(scan(ScanMode::Streaming { batch_size: 3 }).operation_name(), "scan_directory_streaming");
    assert_eq!(scan(ScanMode::TwoPhase).operation_name(), "scan_directory_two_phase");
}

#[test]
fn primary_path_is_the_source_of_a_rename() {
    let op = FileSystemOperation::Rename { source: PathBuf::from("/a/b"), new_name: "c".into() };
    assert_eq!(op.primary_path(), &PathBuf::from("/a/b"));
    let op = FileSystemOperation::ScanDirectory {
        path: PathBuf::from("/d"),
        show_hidden: true,
        scan_mode: ScanMode::Fast,
    };
    assert_eq!(op.primary_path(), &PathBuf::from("/d"));
}

#[test]
fn operation_descriptions() {
    let op = FileSystemOperation::Rename { source: PathBuf::from("/a/b"), new_name: "c".into() };
    assert_eq!(op.describe(), "Rename(/a/b -> c)");
    let op = FileSystemOperation::ScanDirectory {
        path: PathBuf::from("/d"),
        show_hidden: true,
        scan_mode: ScanMode::Streaming { batch_size: 64 },
    };
    assert_eq!(op.describe(), "ScanDirectory(/d, hidden: true, mode: Streaming { batch_size: 64 })");
    assert_eq!(FileSystemOperation::Delete { path: PathBuf::from("/x") }.describe(), "Delete(/x)");
}

#[test]
fn file_operation_labels() {
    let a = Arc::new(PathBuf::from("/a"));
    let b = Arc::new(PathBuf::from("/b"));
    assert_eq!(FileOperation::Copy { source: a.clone(), dest: b.clone() }.label(), "Copy");
    assert_eq!(FileOperation::Move { source: a.clone(), dest: b }.label(), "Move");
    assert_eq!(FileOperation::Rename { source: a, new_name: "n".into() }.label(), "Rename");
}

fn lit(s: &str) -> CommandArg {
    CommandArg::Literal(s.to_string())
}

#[test]
fn search_command_arguments() {
    assert_eq!(FilenameSearchTask::search_command_candidates(), vec!["fd", "find"]);
    let fd = FilenameSearchTask::search_command_args("fd", "main").unwrap();
    assert_eq!(
        fd,
        vec![
            lit("--type"), lit("f"), lit("--type"), lit("d"), lit("--hidden"), lit("--follow"),
            lit("--case-sensitive"), lit("main"), CommandArg::SearchPath
        ]
    );
    let find = FilenameSearchTask::search_command_args("find", "main").unwrap();
    assert_eq!(find[0], CommandArg::SearchPath);
    assert_eq!(find[9], lit("*main*"));
    assert_eq!(find.len(), 10);
    assert_eq!(FilenameSearchTask::search_command_args("rg", "main"), None);
}

#[test]
fn blank_patterns_are_rejected() {
    assert!(!FilenameSearchTask::pattern_is_valid("   \t"));
    assert!(!FilenameSearchTask::pattern_is_valid(""));
    assert!(FilenameSearchTask::pattern_is_valid("  x "));
}

#[test]
fn hidden_entries_and_scan_batches() {
    assert!(is_hidden_name(".git"));
    assert!(!is_hidden_name("src"));
    assert!(!keeps_entry(Some(".env"), false));
    assert!(keeps_entry(Some(".env"), true));
    assert!(keeps_entry(None, false));
    assert!(is_batch_boundary(64, 32));
    assert!(!is_batch_boundary(65, 32));
    assert_eq!(scan_progress_message(128), "Scanned 128 entries");
}

#[test]
fn progress_reports_are_batched() {
    let t0 = Instant::now();
    let mut g = ProgressGate::new(t0);
    assert!(!g.should_report(1000, t0));
    assert!(g.should_report(1024 * 1024, t0));
    assert_eq!(g.last_bytes, 1024 * 1024);
    assert!(!g.should_report(1024 * 1024 + 10, t0 + Duration::from_millis(50)));
    assert!(g.should_report(1024 * 1024 + 10, t0 + Duration::from_millis(100)));
}

#[test]
fn prompt_and_result_headers() {
    assert_eq!(fsm_core::overlays::PromptBar::prompt_label(fsm_core::ui_state::UIOverlay::Prompt), "Command:");
    assert_eq!(fsm_core::overlays::PromptBar::prompt_label(fsm_core::ui_state::UIOverlay::Search), "Search:");
    assert_eq!(fsm_core::overlays::PromptBar::prompt_label(fsm_core::ui_state::UIOverlay::Help), "Input:");
    assert_eq!(
        fsm_core::overlays::SearchResultsOverlay::header_lines(0),
        vec!["Search Results".to_string(), "No results found.".to_string()]
    );
    assert_eq!(
        fsm_core::overlays::SearchResultsOverlay::header_lines(2),
        vec!["Search Results".to_string(), "Found 2 results:".to_string(), String::new()]
    );
    assert!(fsm_core::overlays::ObjectTable::footer_hotkeys(10).is_empty());
    assert_eq!(fsm_core::overlays::ObjectTable::footer_hotkeys(30).len(), 3);
    assert_eq!(fsm_core::overlays::ObjectTable::footer_hotkeys(100)[3], (":grep", "Content Search"));
}
