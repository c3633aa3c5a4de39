use fsm_core::debounce::{DebounceConfig, DebounceSlot, EventBatcher, Throttler};
use std::time::{Duration, Instant};

#[test]
fn leading_edge_fires_once_per_burst() {
    let cfg = DebounceConfig::redraw_throttle();
    let now = Instant::now();
    let mut slot: DebounceSlot<u32> = DebounceSlot::new(now);
    assert!(slot.submit(&cfg, 1, now));
    assert!(!slot.submit(&cfg, 2, now));
    assert_eq!(slot.take_pending(), Some(2));
    assert_eq!(slot.take_pending(), None);
    let later = now + Duration::from_millis(5);
    assert!(slot.submit(&cfg, 3, later));
    assert_eq!(slot.last_leading, later);
}

#[test]
fn trailing_deadline_is_capped_by_the_maximum_delay() {
    let cfg = DebounceConfig::search_input();
    let start = Instant::now();
    let slot: DebounceSlot<u8> = DebounceSlot::new(start);
    let now = start + Duration::from_millis(900);
    assert_eq!(slot.trailing_deadline(&cfg, now), Some(start + Duration::from_millis(1000)));
    let early = start + Duration::from_millis(100);
    assert_eq!(slot.trailing_deadline(&cfg, early), Some(early + Duration::from_millis(300)));
    let no_trailing = DebounceConfig::redraw_throttle();
    assert_eq!(slot.trailing_deadline(&no_trailing, now), None);
}

#[test]
fn search_input_does_not_fire_on_the_leading_edge() {
    let cfg = DebounceConfig::search_input();
    let now = Instant::now();
    let mut slot: DebounceSlot<&str> = DebounceSlot::new(now);
    assert!(!slot.submit(&cfg, "a", now));
    assert_eq!(slot.last_event, Some("a"));
}

#[test]
fn throttler_refuses_a_second_trigger_at_once() {
    let mut t = Throttler::new(Duration::from_millis(50));
    let now = Instant::now();
    assert!(t.should_trigger_at(now));
    assert!(!t.should_trigger_at(now));
    assert!(t.should_trigger_at(now + Duration::from_millis(50)));
    t.reset();
    assert!(t.should_trigger_at(now));
}

#[test]
fn batches_go_out_when_full_or_old() {
    let t0 = Instant::now();
    let mut b: EventBatcher<u32> = EventBatcher::new(3, Duration::from_millis(100), t0);
    assert_eq!(b.add(1, t0), None);
    assert_eq!(b.add(2, t0 + Duration::from_millis(10)), None);
    assert_eq!(b.add(3, t0 + Duration::from_millis(20)), Some(vec![1, 2, 3]));
    let t1 = t0 + Duration::from_millis(20);
    assert_eq!(b.add(4, t1 + Duration::from_millis(50)), None);
    assert_eq!(b.add(5, t1 + Duration::from_millis(100)), Some(vec![4, 5]));
    assert_eq!(b.flush(t1 + Duration::from_millis(150)), None);
    assert_eq!(b.add(6, t1 + Duration::from_millis(160)), None);
    assert_eq!(b.flush(t1 + Duration::from_millis(170)), Some(vec![6]));
    assert_eq!(b.flush(t1 + Duration::from_millis(180)), None);
}

#[test]
fn a_batch_of_one_when_the_limit_is_one() {
    let t0 = Instant::now();
    let mut b: EventBatcher<&str> = EventBatcher::new(1, Duration::from_secs(60), t0);
    assert_eq!(b.add("a", t0), Some(vec!["a"]));
    assert_eq!(b.add("b", t0), Some(vec!["b"]));
}
