use fsm_core::overlays::{
    build_display, display_with_size, fmt_size, FileOperationsOverlay, OptimizedHelpOverlay,
    OptimizedNotificationOverlay, StatusBar, StatusTone,
};
use fsm_core::ui_state::NotificationLevel;
use std::path::PathBuf;
use std::time::{Duration, Instant};

#[test]
fn throughput_texts() {
    assert_eq!(FileOperationsOverlay::format_throughput(None), "Calculating...");
    assert_eq!(FileOperationsOverlay::format_throughput(Some(512)), "512.0B/s");
    assert_eq!(FileOperationsOverlay::format_throughput(Some(1536)), "1.5KB/s");
    assert_eq!(FileOperationsOverlay::format_throughput(Some(10 * 1024 * 1024)), "10.0MB/s");
    let big = 5u64 * 1024 * 1024 * 1024 * 1024 * 1024;
    assert_eq!(FileOperationsOverlay::format_throughput(Some(big)), "5120.0TB/s");
}

#[test]
fn throughput_matches_float_formatting() {
    let units = ["B", "KB", "MB", "GB", "TB"];
    for &b in &[0u64, 1, 1023, 1024, 1025, 1_000_000, 123_456_789, u64::MAX] {
        let mut f = b as f64;
        let mut i = 0;
        while f >= 1024.0 && i < units.len() - 1 {
            f /= 1024.0;
            i += 1;
        }
        assert_eq!(FileOperationsOverlay::format_throughput(Some(b)), format!("{f:.1}{}/s", units[i]));
    }
}

#[test]
fn eta_texts() {
    let now = Instant::now();
    assert_eq!(FileOperationsOverlay::eta_text_at(None, now), "Calculating...");
    assert_eq!(FileOperationsOverlay::eta_text_at(Some(now), now), "Finishing...");
    let later = now + Duration::from_millis(12_500);
    assert_eq!(FileOperationsOverlay::eta_text_at(Some(later), now), "12s remaining");
    assert_eq!(FileOperationsOverlay::eta_text_at(Some(now), later), "Finishing...");
    assert_eq!(FileOperationsOverlay::format_eta(None), "Calculating...");
}

#[test]
fn truncation_keeps_the_end_of_long_paths() {
    assert_eq!(FileOperationsOverlay::truncate_text("short", 35), "short");
    assert_eq!(FileOperationsOverlay::truncate_text("abcdefghij", 8), "...fghij");
    assert_eq!(FileOperationsOverlay::truncate_text("abcdefghij", 10), "abcdefghij");
    let p = PathBuf::from("/very/long/path/to/some/deeply/nested/file.txt");
    assert_eq!(FileOperationsOverlay::truncate_path(&p, 20), "...y/nested/file.txt");
    assert_eq!(FileOperationsOverlay::truncate_path_checked(&p, 20), Some("...y/nested/file.txt".to_string()));
    // the cut would fall inside the two-byte 'é'
    let q = PathBuf::from("ééééé");
    assert_eq!(FileOperationsOverlay::truncate_path_checked(&q, 6), None);
    assert_eq!(FileOperationsOverlay::truncate_path_checked(&q, 7), Some("...éé".to_string()));
    assert_eq!(FileOperationsOverlay::truncate_path_checked(&PathBuf::from("abcdef"), 2), None);
}

#[test]
fn sizes_in_binary_units() {
    assert_eq!(fmt_size(0), "0 B");
    assert_eq!(fmt_size(1023), "1023 B");
    assert_eq!(fmt_size(1024), "1 KiB");
    assert_eq!(fmt_size(1536), "1 KiB");
    assert_eq!(fmt_size(5 * 1024 * 1024), "5 MiB");
    assert_eq!(fmt_size(u64::MAX), "16777215 TiB");
}

#[test]
fn display_of_search_hits() {
    assert_eq!(display_with_size("a/b.txt", 0), "a/b.txt");
    assert_eq!(display_with_size("a/b.txt", 2048), "a/b.txt (2 KiB)");
    let cwd = PathBuf::from("/home/u");
    assert_eq!(build_display("b.txt", &PathBuf::from("/home/u/a/b.txt"), 10, &cwd), "a/b.txt (10 B)");
    assert_eq!(build_display("b.txt", &PathBuf::from("/etc/b.txt"), 0, &cwd), "b.txt");
}

#[test]
fn help_tabs_cycle() {
    let mut h = OptimizedHelpOverlay::new();
    assert_eq!(h.selected_tab(), 0);
    h.prev_tab();
    assert_eq!(h.selected_tab(), 3);
    h.next_tab();
    assert_eq!(h.selected_tab(), 0);
    for _ in 0..4 {
        h.next_tab();
    }
    assert_eq!(h.selected_tab(), 0);
    h.next_tab();
    h.prev_tab();
    assert_eq!(h.selected_tab(), 0);
    assert_eq!(OptimizedHelpOverlay::default().selected_tab(), 0);
}

#[test]
fn notification_titles() {
    let _ = OptimizedNotificationOverlay::new();
    assert_eq!(OptimizedNotificationOverlay::notification_title(NotificationLevel::Info), " ℹ Info ");
    assert_eq!(OptimizedNotificationOverlay::notification_title(NotificationLevel::Error), " ✕ Error ");
    assert_eq!(OptimizedNotificationOverlay::notification_title(NotificationLevel::Success), " ✓ Success ");
    assert_eq!(OptimizedNotificationOverlay::notification_title(NotificationLevel::Warning), " ⚠ Warning ");
}

#[test]
fn status_messages() {
    assert_eq!(StatusBar::status_message(None, None), ("Ready".to_string(), StatusTone::Muted));
    assert_eq!(StatusBar::status_message(None, Some("Copied")), ("Copied".to_string(), StatusTone::Success));
    assert_eq!(StatusBar::status_message(Some("boom"), Some("x")), ("Error: boom".to_string(), StatusTone::Error));
}

#[test]
fn status_line_degrades_with_width() {
    let l = StatusBar::status_line(10, Some("disk full now"), None, 3);
    assert_eq!((l.left.as_str(), l.right.as_str(), l.tone), ("ERR: disk ", "", StatusTone::Error));
    let l = StatusBar::status_line(10, None, None, 3);
    assert_eq!(l.left, "OK");
    let l = StatusBar::status_line(25, None, Some("a fairly long status message here"), 3);
    assert_eq!(l.left, " a fairly long status me");
    assert_eq!(l.left.chars().count(), 24);
    let l = StatusBar::status_line(50, None, None, 7);
    assert_eq!(l.left, " Ready | 7 items");
    let l = StatusBar::status_line(100, Some("bad"), None, 2);
    assert_eq!(l.left, " 🔥 Error: bad ");
    assert_eq!(l.right, "2 items ");
    assert_eq!(l.tone, StatusTone::Error);
}

#[test]
fn help_tabs_hold_their_sections() {
    let titles = fsm_core::overlays::OptimizedHelpOverlay::tab_titles();
    assert_eq!(titles, vec!["Navigation", "Commands", "Search", "Advanced"]);
    let nav = fsm_core::overlays::OptimizedHelpOverlay::tab_lines(0);
    assert_eq!(nav.len(), 25);
    assert_eq!(nav[0], (fsm_core::overlays::HelpLineKind::Title, "🗂  Navigation & Movement"));
    assert_eq!(nav[2], (fsm_core::overlays::HelpLineKind::Section, "Basic Movement:"));
    assert_eq!(nav[24], (fsm_core::overlays::HelpLineKind::Text, "  h/?            Toggle this help"));
    assert_eq!(fsm_core::overlays::OptimizedHelpOverlay::tab_lines(7), nav);
    let adv = fsm_core::overlays::OptimizedHelpOverlay::tab_lines(3);
    assert_eq!(adv.len(), 29);
    assert_eq!(adv[26], (fsm_core::overlays::HelpLineKind::Aside, "Version Info:"));
    assert_eq!(fsm_core::overlays::OptimizedHelpOverlay::tab_lines(2)[0].1, "🔍 Search & Filtering");
    assert_eq!(fsm_core::overlays::OptimizedHelpOverlay::tab_lines(1)[0].1, "⌨  Command Mode & Operations");
    assert_eq!(
        fsm_core::overlays::OptimizedHelpOverlay::footer_text(),
        "←→ Switch tabs • Esc/h/? Close help • Enter Open section"
    );
}
