//! Debounce configurations and a simple rate limiter (throttler).
use vstd::prelude::*;
use std::time::{Duration, Instant};

verus! {

#[verifier::external_type_specification]
#[verifier::external_body]
pub struct ExInstant(std::time::Instant);

/// `Duration` is `Copy`; its `clone` returns the same duration.
pub assume_specification[ <Duration as Clone>::clone ](d: &Duration) -> (r: Duration)
    ensures
        r == *d,
;

/// `Instant` is `Copy`; its `clone` returns the same instant.
pub assume_specification[ <Instant as Clone>::clone ](i: &Instant) -> (r: Instant)
    ensures
        r == *i,
;

/// The length of a duration in nanoseconds (`Duration::as_nanos`).
pub uninterp spec fn duration_as_nanos(d: Duration) -> u128;

/// Calls `Duration::as_nanos`.
#[verifier::external_body]
pub(crate) fn duration_nanos(d: &Duration) -> (r: u128)
    ensures
        r == duration_as_nanos(*d),
{
    d.as_nanos()
}

/// Calls `Duration::from_millis`: a duration of `ms` milliseconds.
#[verifier::external_body]
pub(crate) fn duration_from_millis(ms: u64) -> (d: Duration)
    ensures
        duration_as_nanos(d) == ms as u128 * 1_000_000,
{
    Duration::from_millis(ms)
}

/// Calls `Instant::now`: the clock's current reading; nothing is known of it.
#[verifier::external_body]
pub(crate) fn instant_now() -> (i: Instant) {
    Instant::now()
}

/// What `Instant::duration_since` returns for a later and an earlier instant
/// (zero when `earlier` is in fact later).
pub uninterp spec fn instant_elapsed(later: Instant, earlier: Instant) -> Duration;

/// Calls `Instant::duration_since`; no time elapses from an instant to
/// itself.
#[verifier::external_body]
pub(crate) fn instant_duration_since(later: &Instant, earlier: &Instant) -> (d: Duration)
    ensures
        d == instant_elapsed(*later, *earlier),
        *later == *earlier ==> duration_as_nanos(d) == 0,
{
    later.duration_since(*earlier)
}

/// Whether one instant is strictly later than another (`Instant`'s `>`).
pub uninterp spec fn instant_later_than(a: Instant, b: Instant) -> bool;

/// Compares two instants with `>`.
#[verifier::external_body]
pub(crate) fn instant_is_later(a: &Instant, b: &Instant) -> (r: bool)
    ensures
        r == instant_later_than(*a, *b),
{
    *a > *b
}

/// Calls `Duration::as_secs`: the whole seconds of the duration, that is its
/// nanoseconds divided by one billion.
#[verifier::external_body]
pub(crate) fn duration_secs(d: &Duration) -> (r: u64)
    ensures
        r as nat == duration_as_nanos(*d) as nat / 1_000_000_000,
{
    d.as_secs()
}

/// What `Instant::checked_add` gives: the instant a duration later, or
/// nothing when that instant cannot be represented.
pub uninterp spec fn instant_plus(i: Instant, d: Duration) -> Option<Instant>;

/// Calls `Instant::checked_add`.
#[verifier::external_body]
pub(crate) fn instant_checked_add(i: &Instant, d: &Duration) -> (r: Option<Instant>)
    ensures
        r == instant_plus(*i, *d),
{
    i.checked_add(*d)
}

/* ======================== DebounceConfig ============================ */

#[derive(Debug, Clone)]
pub struct DebounceConfig {
    pub delay: Duration,
    pub max_delay: Option<Duration>,
    pub leading: bool,
    pub trailing: bool,
}

/// The configuration has the given delays (in milliseconds) and edges.
pub open spec fn config_is(
    c: DebounceConfig,
    delay_ms: u128,
    max_delay_ms: u128,
    leading: bool,
    trailing: bool,
) -> bool {
    &&& duration_as_nanos(c.delay) == delay_ms * 1_000_000
    &&& c.max_delay matches Some(m) && duration_as_nanos(m) == max_delay_ms * 1_000_000
    &&& c.leading == leading
    &&& c.trailing == trailing
}

impl Default for DebounceConfig {
    fn default() -> (r: Self)
        ensures
            config_is(r, 300, 1000, false, true),
    {
        Self {
            delay: duration_from_millis(300),
            max_delay: Some(duration_from_millis(1000)),
            leading: false,
            trailing: true,
        }
    }
}

impl DebounceConfig {
    /// Quick config for search input debouncing
    pub fn search_input() -> (r: Self)
        ensures
            config_is(r, 300, 1000, false, true),
    {
        Self {
            delay: duration_from_millis(300),
            max_delay: Some(duration_from_millis(1000)),
            leading: false,
            trailing: true,
        }
    }

    /// Quick config for UI redraw throttling
    pub fn redraw_throttle() -> (r: Self)
        ensures
            config_is(r, 16, 100, true, false),
    {
        Self {
            delay: duration_from_millis(16),
            max_delay: Some(duration_from_millis(100)),
            leading: true,
            trailing: false,
        }
    }

    /// Quick config for file system watching
    pub fn fs_watch() -> (r: Self)
        ensures
            config_is(r, 500, 2000, false, true),
    {
        Self {
            delay: duration_from_millis(500),
            max_delay: Some(duration_from_millis(2000)),
            leading: false,
            trailing: true,
        }
    }
}

/* ============================ Throttler ============================ */

/// Simple rate-limiter for infrequent operations.
#[derive(Debug)]
pub struct Throttler {
    /// Moment when the previous trigger occurred.
    last: Option<Instant>,
    /// Minimum interval required between triggers.
    interval: Duration,
}

/// Whether a trigger at `now` is allowed after the previous one at `last`.
pub open spec fn may_trigger(last: Option<Instant>, interval: Duration, now: Instant) -> bool {
    match last {
        None => true,
        Some(prev) => duration_as_nanos(instant_elapsed(now, prev)) >= duration_as_nanos(interval),
    }
}

impl Throttler {
    /// The instant of the previous trigger, if any.
    pub closed spec fn last_trigger(&self) -> Option<Instant> {
        self.last
    }

    /// The minimum interval between triggers.
    pub closed spec fn min_interval(&self) -> Duration {
        self.interval
    }

    /// Create a new throttler.
    pub fn new(interval: Duration) -> (r: Self)
        ensures
            r.last_trigger() is None,
            r.min_interval() == interval,
    {
        Self { last: None, interval }
    }

    /// Decides a trigger at the instant `now`: allowed on the first call and
    /// whenever at least the interval has passed since the previous trigger,
    /// which then becomes `now`.
    pub fn should_trigger_at(&mut self, now: Instant) -> (r: bool)
        ensures
            r == may_trigger(old(self).last_trigger(), old(self).min_interval(), now),
            final(self).last_trigger() == (if r {
                Some(now)
            } else {
                old(self).last_trigger()
            }),
            final(self).min_interval() == old(self).min_interval(),
    {
        match self.last {
            None => {
                self.last = Some(now);
                true
            },
            Some(prev) => {
                let elapsed = instant_duration_since(&now, &prev);
                if duration_nanos(&elapsed) >= duration_nanos(&self.interval) {
                    self.last = Some(now);
                    true
                } else {
                    false
                }
            },
        }
    }

    /// Returns true when an operation may run, reading the clock once.
    pub fn should_trigger(&mut self) -> (r: bool)
        ensures
            exists|now: Instant|
                #![trigger may_trigger(old(self).last_trigger(), old(self).min_interval(), now)]
                r == may_trigger(old(self).last_trigger(), old(self).min_interval(), now)
                    && final(self).last_trigger() == (if r {
                    Some(now)
                } else {
                    old(self).last_trigger()
                }),
            old(self).last_trigger() is None ==> r,
            final(self).min_interval() == old(self).min_interval(),
    {
        let now = instant_now();
        let r = self.should_trigger_at(now);
        assert(r == may_trigger(old(self).last_trigger(), old(self).min_interval(), now));
        r
    }

    /// Reset the internal timer to allow the next call immediately.
    pub fn reset(&mut self)
        ensures
            final(self).last_trigger() is None,
            final(self).min_interval() == old(self).min_interval(),
    {
        self.last = None;
    }
}

/// Right after a trigger, a second one at the same instant is refused
/// whenever the interval is not zero.
pub proof fn law_no_double_trigger(interval: Duration, now: Instant)
    requires
        duration_as_nanos(interval) > 0,
        duration_as_nanos(instant_elapsed(now, now)) == 0,
    ensures
        !may_trigger(Some(now), interval, now),
{
}

/// After `reset`, the next trigger is always allowed.
pub proof fn law_reset_allows_trigger(interval: Duration, now: Instant)
    ensures
        may_trigger(None, interval, now),
{
}

/* ========================== Event batches =========================== */

/// Collects events into batches that are handed out once enough events
/// are waiting or the last batch is old enough. The caller delivers each
/// batch it is handed.
#[derive(Debug)]
pub struct EventBatcher<T> {
    /// Events waiting for the next batch.
    buf: Vec<T>,
    /// A batch is handed out once this many events wait.
    max_size: usize,
    /// A batch is handed out once this long has passed since the last one.
    max_age: Duration,
    /// When the last batch was handed out (at first: when created).
    last_flush: Instant,
}

/// Whether `len` waiting events make a batch at `now`: enough of them, or
/// at least one and the last batch old enough.
pub open spec fn batch_due(len: nat, max_size: usize, max_age: Duration, last_flush: Instant, now: Instant) -> bool {
    len >= max_size || (duration_as_nanos(instant_elapsed(now, last_flush)) >= duration_as_nanos(max_age) && len > 0)
}

/// Adding `e` to the waiting events `p`: the batch handed out (empty when
/// none is) and the events left waiting.
pub open spec fn add_step<T>(p: Seq<T>, e: T, due: bool) -> (Seq<T>, Seq<T>) {
    if due {
        (p.push(e), Seq::empty())
    } else {
        (Seq::empty(), p.push(e))
    }
}

/// The events of a batch that may not have been handed out.
pub open spec fn batch_events<T>(b: Option<Vec<T>>) -> Seq<T> {
    match b {
        Some(v) => v@,
        None => Seq::empty(),
    }
}

/// Events added one by one, each with whether a batch was due after it:
/// everything handed out, in order, and what is left waiting.
pub open spec fn add_run<T>(p: Seq<T>, events: Seq<(T, bool)>) -> (Seq<T>, Seq<T>)
    decreases events.len(),
{
    if events.len() == 0 {
        (Seq::empty(), p)
    } else {
        let before = add_run(p, events.drop_last());
        let step = add_step(before.1, events.last().0, events.last().1);
        (before.0 + step.0, step.1)
    }
}

impl<T> EventBatcher<T> {
    /// The events waiting for the next batch.
    pub closed spec fn pending(&self) -> Seq<T> {
        self.buf@
    }

    /// How many waiting events make a batch.
    pub closed spec fn batch_limit(&self) -> usize {
        self.max_size
    }

    /// How old the last batch may get before the waiting events go out.
    pub closed spec fn age_limit(&self) -> Duration {
        self.max_age
    }

    /// When the last batch was handed out.
    pub closed spec fn flushed_at(&self) -> Instant {
        self.last_flush
    }

    /// A batcher with nothing waiting, whose last batch counts as handed
    /// out at `now`.
    pub fn new(max_size: usize, max_age: Duration, now: Instant) -> (r: Self)
        ensures
            r.pending() == Seq::<T>::empty(),
            r.batch_limit() == max_size,
            r.age_limit() == max_age,
            r.flushed_at() == now,
    {
        EventBatcher { buf: Vec::new(), max_size, max_age, last_flush: now }
    }

    /// Adds an event at `now`; hands out the waiting events as a batch when
    /// one is due.
    pub fn add(&mut self, ev: T, now: Instant) -> (r: Option<Vec<T>>)
        ensures
            (batch_events(r), final(self).pending()) == add_step(
                old(self).pending(),
                ev,
                batch_due(
                    (old(self).pending().len() + 1) as nat,
                    old(self).batch_limit(),
                    old(self).age_limit(),
                    old(self).flushed_at(),
                    now,
                ),
            ),
            r is Some <==> batch_due(
                (old(self).pending().len() + 1) as nat,
                old(self).batch_limit(),
                old(self).age_limit(),
                old(self).flushed_at(),
                now,
            ),
            final(self).flushed_at() == (if r is Some {
                now
            } else {
                old(self).flushed_at()
            }),
            final(self).batch_limit() == old(self).batch_limit(),
            final(self).age_limit() == old(self).age_limit(),
    {
        self.buf.push(ev);
        let age = instant_duration_since(&now, &self.last_flush);
        let full = self.buf.len() >= self.max_size;
        if full || (duration_nanos(&age) >= duration_nanos(&self.max_age) && self.buf.len() > 0) {
            self.flush(now)
        } else {
            None
        }
    }

    /// Hands out the waiting events as a batch at `now`, if there are any.
    pub fn flush(&mut self, now: Instant) -> (r: Option<Vec<T>>)
        ensures
            old(self).pending().len() == 0 ==> r is None && final(self).flushed_at() == old(self).flushed_at(),
            old(self).pending().len() > 0 ==> r is Some && r.unwrap()@ == old(self).pending()
                && final(self).flushed_at() == now,
            final(self).pending() == Seq::<T>::empty(),
            final(self).batch_limit() == old(self).batch_limit(),
            final(self).age_limit() == old(self).age_limit(),
    {
        if self.buf.len() == 0 {
            return None;
        }
        let mut batch: Vec<T> = Vec::new();
        std::mem::swap(&mut batch, &mut self.buf);
        self.last_flush = now;
        Some(batch)
    }
}

/// Over any run of additions, the batches handed out followed by what is
/// left waiting are exactly the events that were waiting and those added,
/// in order: no event is lost, repeated or reordered.
pub proof fn law_batches_keep_every_event<T>(p: Seq<T>, events: Seq<(T, bool)>)
    ensures
        add_run(p, events).0 + add_run(p, events).1 == p + events.map_values(|e: (T, bool)| e.0),
    decreases events.len(),
{
    let all = events.map_values(|e: (T, bool)| e.0);
    if events.len() == 0 {
        assert(all =~= Seq::<T>::empty());
        assert(Seq::<T>::empty() + p =~= p + all);
    } else {
        let front = events.drop_last();
        let e = events.last().0;
        law_batches_keep_every_event(p, front);
        let front_all = front.map_values(|x: (T, bool)| x.0);
        assert(all =~= front_all.push(e));
        let before = add_run(p, front);
        let step = add_step(before.1, e, events.last().1);
        assert(add_run(p, events) == (before.0 + step.0, step.1));
        assert(before.0 + step.0 + step.1 =~= (before.0 + before.1).push(e));
        assert((p + front_all).push(e) =~= p + all);
    }
}

/* ========================= Debounce slots =========================== */

/// The state the debouncer keeps for one key: when it last fired on the
/// leading edge, and the latest event not yet delivered.
pub struct DebounceSlot<T> {
    pub last_leading: Instant,
    pub last_event: Option<T>,
}

/// The earlier of two instants (`Ord::min`, the first when equal).
pub open spec fn earlier(a: Instant, b: Instant) -> Instant {
    if instant_later_than(a, b) { b } else { a }
}

/// When the trailing event of a slot is due after a submission at `now`:
/// after the delay, but no later than the maximum delay after the last
/// leading edge. `None` when no trailing edge is configured.
pub open spec fn trailing_deadline_spec(cfg: DebounceConfig, last_leading: Instant, now: Instant) -> Option<Instant> {
    if !cfg.trailing {
        None
    } else {
        let soft = instant_plus(now, cfg.delay)->0;
        match cfg.max_delay {
            Some(m) => Some(earlier(soft, instant_plus(last_leading, m)->0)),
            None => Some(soft),
        }
    }
}

/// Whether the deadline can be computed without leaving the clock's range.
pub open spec fn deadline_defined(cfg: DebounceConfig, last_leading: Instant, now: Instant) -> bool {
    cfg.trailing ==> {
        &&& instant_plus(now, cfg.delay) is Some
        &&& (cfg.max_delay matches Some(m) ==> instant_plus(last_leading, m) is Some)
    }
}

impl<T> DebounceSlot<T> {
    /// A fresh slot, created at `now`.
    pub fn new(now: Instant) -> (r: Self)
        ensures
            r.last_leading == now,
            r.last_event is None,
    {
        DebounceSlot { last_leading: now, last_event: None }
    }

    /// Records an event submitted at `now`. Returns whether it is to be
    /// delivered at once, on the leading edge: when that edge is configured
    /// and no event is pending. The event then becomes the pending one.
    pub fn submit(&mut self, cfg: &DebounceConfig, ev: T, now: Instant) -> (fire_leading: bool)
        ensures
            fire_leading == fires_leading(*cfg, old(self).last_event),
            final(self).last_leading == (if fire_leading { now } else { old(self).last_leading }),
            final(self).last_event == Some(ev),
    {
        let fire = cfg.leading && self.last_event.is_none();
        if fire {
            self.last_leading = now;
        }
        self.last_event = Some(ev);
        fire
    }

    /// When the pending event is due, after a submission at `now`.
    pub fn trailing_deadline(&self, cfg: &DebounceConfig, now: Instant) -> (r: Option<Instant>)
        requires
            deadline_defined(*cfg, self.last_leading, now),
        ensures
            r == trailing_deadline_spec(*cfg, self.last_leading, now),
    {
        if !cfg.trailing {
            return None;
        }
        let soft = match instant_checked_add(&now, &cfg.delay) {
            Some(t) => t,
            None => now,
        };
        match &cfg.max_delay {
            Some(m) => {
                let hard = match instant_checked_add(&self.last_leading, m) {
                    Some(t) => t,
                    None => now,
                };
                if instant_is_later(&soft, &hard) {
                    Some(hard)
                } else {
                    Some(soft)
                }
            },
            None => Some(soft),
        }
    }

    /// Takes the pending event for delivery on the trailing edge (or when
    /// flushing); nothing is pending afterwards.
    pub fn take_pending(&mut self) -> (r: Option<T>)
        ensures
            r == old(self).last_event,
            final(self).last_event is None,
            final(self).last_leading == old(self).last_leading,
    {
        self.last_event.take()
    }
}

/// Whether a submission fires on the leading edge, given the pending event.
pub open spec fn fires_leading<T>(cfg: DebounceConfig, pending: Option<T>) -> bool {
    cfg.leading && pending is None
}

/// While an event is pending, no submission fires on the leading edge; once
/// it has been taken for delivery, the next submission does, whenever the
/// leading edge is configured.
pub proof fn law_leading_edge_once_per_burst<T>(cfg: DebounceConfig, ev: T)
    ensures
        !fires_leading(cfg, Some(ev)),
        fires_leading(cfg, None::<T>) == cfg.leading,
{
}

} // verus!
