use std::time::{Duration, Instant};

use fsm_core::search_stream::{
    completion_message, performance_category, ChildStatus, SearchStream, StreamAction, StreamEvent,
};

fn read_next(a: &StreamAction) -> Option<Option<String>> {
    match a {
        StreamAction::ReadNext(p) => Some(p.clone()),
        _ => None,
    }
}

#[test]
fn blank_lines_are_skipped_and_paths_checked() {
    let start = Instant::now();
    let mut s = SearchStream::new(start);
    let a = s.step(StreamEvent::Line("   ".to_string()), start);
    assert_eq!(read_next(&a), Some(None));
    assert_eq!(s.processed, 0);
    let a = s.step(StreamEvent::Line("  /tmp/a.txt \t".to_string()), start);
    match a {
        StreamAction::CheckPath(p) => assert_eq!(p, "/tmp/a.txt"),
        other => panic!("unexpected {other:?}"),
    }
    assert_eq!(s.processed, 1);
    assert!(s.awaiting_path);
    let a = s.step(StreamEvent::PathMissing, start);
    assert_eq!(read_next(&a), Some(None));
    assert_eq!((s.processed, s.errors, s.found), (1, 1, 0));
    assert!(!s.awaiting_path);
}

#[test]
fn progress_is_reported_after_the_interval() {
    let start = Instant::now();
    let mut s = SearchStream::new(start);
    s.step(StreamEvent::Line("a".to_string()), start);
    let a = s.step(StreamEvent::InfoLoaded, start + Duration::from_millis(100));
    assert_eq!(read_next(&a), Some(None));
    s.step(StreamEvent::Line("b".to_string()), start);
    let later = start + Duration::from_millis(600);
    let a = s.step(StreamEvent::InfoLoaded, later);
    assert_eq!(read_next(&a), Some(Some("Found 2 matches (processed 2, 0 errors)".to_string())));
    assert_eq!(s.last_progress, later);
    s.step(StreamEvent::Line("c".to_string()), later);
    let a = s.step(StreamEvent::InfoFailed, later + Duration::from_millis(700));
    assert_eq!(read_next(&a), Some(None));
    assert_eq!(s.progress_message(), "Found 2 matches (processed 3, 1 errors)");
}

#[test]
fn reading_stops_on_end_failure_exit_or_timeout() {
    let start = Instant::now();
    let mut s = SearchStream::new(start);
    assert!(matches!(s.step(StreamEvent::EndOfOutput, start), StreamAction::Finish(None)));
    assert!(matches!(s.step(StreamEvent::ReadFailed, start), StreamAction::Finish(None)));
    assert_eq!(s.errors, 1);
    assert!(matches!(s.step(StreamEvent::ReadTimedOut(ChildStatus::Exited), start), StreamAction::Finish(None)));
    assert!(matches!(s.step(StreamEvent::ReadTimedOut(ChildStatus::Unknown), start), StreamAction::Finish(None)));
    let a = s.step(StreamEvent::ReadTimedOut(ChildStatus::Running), start + Duration::from_secs(10));
    assert_eq!(read_next(&a), Some(None));
    let late = start + Duration::from_secs(31);
    assert!(matches!(s.step(StreamEvent::ReadTimedOut(ChildStatus::Running), late), StreamAction::Finish(None)));
    assert!(matches!(s.step(StreamEvent::Line(" ".to_string()), late), StreamAction::Finish(None)));
    s.step(StreamEvent::Line("x".to_string()), late);
    match s.step(StreamEvent::InfoLoaded, late) {
        StreamAction::Finish(Some(m)) => assert_eq!(m, "Found 1 matches (processed 1, 1 errors)"),
        other => panic!("unexpected {other:?}"),
    }
}

#[test]
fn completion_reports() {
    assert_eq!(performance_category(&Duration::from_millis(500)), "fast");
    assert_eq!(performance_category(&Duration::from_secs(1)), "fast");
    assert_eq!(performance_category(&Duration::from_millis(1001)), "moderate");
    assert_eq!(performance_category(&Duration::from_secs(6)), "slow");
    assert_eq!(
        completion_message(3, &Duration::from_millis(1500), 0, 0),
        "Found 3 matches in 1.5s (processed 0 entries, 0 errors)"
    );
}
