use std::time::{Duration, Instant};

use fsm_core::ui_state::{
    poll_notification, ClipboardSearchState, Notification, NotificationLevel, RedrawFlag, UIMode, UIOverlay,
};

#[test]
fn redraw_flags_are_distinct_bits() {
    assert_eq!(RedrawFlag::Main.bits(), 1);
    assert_eq!(RedrawFlag::StatusBar.bits(), 2);
    assert_eq!(RedrawFlag::Overlay.bits(), 4);
    assert_eq!(RedrawFlag::Notification.bits(), 8);
    assert_eq!(RedrawFlag::All.bits(), 0x0F);
    let union = RedrawFlag::Main.bits()
        | RedrawFlag::StatusBar.bits()
        | RedrawFlag::Overlay.bits()
        | RedrawFlag::Notification.bits();
    assert_eq!(union, RedrawFlag::All.bits());
}

#[test]
fn defaults_are_browse_and_no_overlay() {
    assert_eq!(UIMode::default(), UIMode::Browse);
    assert_eq!(UIOverlay::default(), UIOverlay::NoOverlay);
    assert_ne!(NotificationLevel::Info, NotificationLevel::Error);
}

#[test]
fn clipboard_search_cursor_moves_within_results() {
    let mut s = ClipboardSearchState::default();
    assert!(s.use_simd);
    assert!(!s.case_sensitive);
    assert_eq!(s.selected_item_id(), None);
    s.next_result();
    assert_eq!(s.selected_result_idx, 0);
    s.set_results(vec![7, 8, 9], 42);
    assert_eq!(s.search_duration_us, 42);
    assert_eq!(s.selected_item_id(), Some(7));
    s.next_result();
    s.next_result();
    s.next_result();
    assert_eq!(s.selected_result_idx, 2);
    assert_eq!(s.selected_item_id(), Some(9));
    s.prev_result();
    assert_eq!(s.selected_item_id(), Some(8));
    s.prev_result();
    s.prev_result();
    assert_eq!(s.selected_result_idx, 0);
}

#[test]
fn next_then_prev_returns_to_the_same_result() {
    let mut s = ClipboardSearchState::default();
    s.set_results(vec![1, 2, 3, 4], 0);
    s.next_result();
    let at = s.selected_result_idx;
    s.next_result();
    s.prev_result();
    assert_eq!(s.selected_result_idx, at);
}

#[test]
fn clear_forgets_pattern_and_results() {
    let mut s = ClipboardSearchState::default();
    s.pattern = "abc".to_string();
    s.set_results(vec![5], 10);
    s.regex_mode = true;
    s.clear();
    assert_eq!(s.pattern, "");
    assert!(s.results.is_empty());
    assert_eq!(s.selected_result_idx, 0);
    assert_eq!(s.search_duration_us, 0);
    assert!(s.regex_mode);
}

#[test]
fn notifications_expire_after_their_delay() {
    let shown = Instant::now();
    let n = Notification::new("saved".to_string(), NotificationLevel::Success, shown, Some(3000));
    assert!(!n.expired_at(&shown));
    assert!(!n.expired_at(&(shown + Duration::from_millis(3000))));
    assert!(!n.expired_at(&(shown + Duration::from_micros(3_000_999))));
    assert!(n.expired_at(&(shown + Duration::from_millis(3001))));
    let sticky = Notification::new("error".to_string(), NotificationLevel::Error, shown, None);
    assert!(!sticky.expired_at(&(shown + Duration::from_secs(3600))));

    let mut slot = Some(n);
    assert!(!poll_notification(&mut slot, &(shown + Duration::from_millis(10))));
    assert!(slot.is_some());
    assert!(poll_notification(&mut slot, &(shown + Duration::from_secs(4))));
    assert!(slot.is_none());
    assert!(!poll_notification(&mut slot, &(shown + Duration::from_secs(5))));
}
