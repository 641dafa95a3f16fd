//! Measuring time: a stopwatch, and a counter of frames per second.

use vstd::prelude::*;
use std::collections::VecDeque;
use std::sync::atomic::AtomicUsize;
use std::sync::atomic::Ordering;
use std::sync::Arc;
use std::time::Instant;

verus! {

/// The number of nanoseconds in a microsecond.
pub const NANOSECONDS_PER_MICROSECOND: u64 = 1_000;

/// The number of nanoseconds in a millisecond.
pub const NANOSECONDS_PER_MILLISECOND: u64 = 1_000_000;

/// The number of nanoseconds in seconds.
pub const NANOSECONDS_PER_SECOND: u64 = 1_000_000_000;

/// The number of microseconds per second.
pub const MICROSECONDS_PER_SECOND: u64 = 1_000_000;

/// The number of milliseconds per second.
pub const MILLISECONDS_PER_SECOND: u64 = 1_000;

/// The number of seconds in a minute.
pub const SECONDS_PER_MINUTE: u64 = 60;

/// The number of seconds in an hour.
pub const SECONDS_PER_HOUR: u64 = 3_600;

/// The number of (non-leap) seconds in days.
pub const SECONDS_PER_DAY: u64 = 86_400;

/// The number of (non-leap) seconds in a week.
pub const SECONDS_PER_WEEK: u64 = 604_800;

/// A span of time: whole seconds and the nanoseconds of the second begun.
#[derive(Clone, Copy, Debug, PartialEq, Eq)]
pub struct Span {
    secs: u64,
    nanos: u32,
}

/// The longest span, in nanoseconds.
pub open spec fn longest_span() -> nat {
    (u64::MAX as nat) * 1_000_000_000 + 999_999_999
}

impl Span {
    #[verifier::type_invariant]
    spec fn well_formed(self) -> bool {
        self.nanos < 1_000_000_000
    }

    /// The length of the span in nanoseconds.
    pub closed spec fn total(self) -> nat {
        (self.secs as nat) * 1_000_000_000 + (self.nanos as nat)
    }

    /// The span of `secs` seconds and `nanos` nanoseconds, where `nanos` is
    /// less than a second.
    pub fn new(secs: u64, nanos: u32) -> (r: Option<Span>)
        ensures
            nanos < 1_000_000_000 ==> r is Some && r.unwrap().total() == secs * 1_000_000_000
                + nanos,
            nanos >= 1_000_000_000 ==> r is None,
    {
        if nanos < 1_000_000_000 {
            Some(Span { secs, nanos })
        } else {
            None
        }
    }

    /// The span of no time.
    pub fn zero() -> (r: Span)
        ensures
            r.total() == 0,
    {
        Span { secs: 0, nanos: 0 }
    }

    /// The two spans one after the other; the longest span where that
    /// would be longer still.
    pub fn saturating_add(self, other: Span) -> (r: Span)
        ensures
            r.total() == if self.total() + other.total() <= longest_span() {
                self.total() + other.total()
            } else {
                longest_span()
            },
    {
        proof {
            use_type_invariant(self);
            use_type_invariant(other);
        }
        let mut nanos = self.nanos + other.nanos;
        let mut carry: u64 = 0;
        if nanos >= 1_000_000_000 {
            nanos = nanos - 1_000_000_000;
            carry = 1;
        }
        match self.secs.checked_add(other.secs) {
            Some(secs) => match secs.checked_add(carry) {
                Some(secs) => Span { secs, nanos },
                None => Span { secs: u64::MAX, nanos: 999_999_999 },
            },
            None => Span { secs: u64::MAX, nanos: 999_999_999 },
        }
    }

    /// The whole seconds of the span.
    pub fn as_secs(&self) -> (r: u64)
        ensures
            r == self.total() / 1_000_000_000,
    {
        proof {
            use_type_invariant(self);
        }
        self.secs
    }

    /// The nanoseconds of the second begun.
    pub fn subsec_nanos(&self) -> (r: u32)
        ensures
            r == self.total() % 1_000_000_000,
    {
        proof {
            use_type_invariant(self);
        }
        self.nanos
    }

    /// The whole milliseconds of the span.
    pub fn as_millis(&self) -> (r: u128)
        ensures
            r == self.total() / 1_000_000,
    {
        proof {
            use_type_invariant(self);
        }
        (self.secs as u128) * 1_000 + ((self.nanos / 1_000_000) as u128)
    }

    /// The whole microseconds of the span.
    pub fn as_micros(&self) -> (r: u128)
        ensures
            r == self.total() / 1_000,
    {
        proof {
            use_type_invariant(self);
        }
        (self.secs as u128) * 1_000_000 + ((self.nanos / 1_000) as u128)
    }

    /// The nanoseconds of the span.
    pub fn as_nanos(&self) -> (r: u128)
        ensures
            r == self.total(),
    {
        proof {
            use_type_invariant(self);
        }
        (self.secs as u128) * 1_000_000_000 + (self.nanos as u128)
    }
}

/// `std::time::Instant`, a moment on the clock. Nothing of its inside is
/// known here.
#[verifier::external_type_specification]
#[verifier::external_body]
pub struct ExInstant(Instant);

/// `Instant::now` reads the clock: nothing is known of the moment it gives.
#[verifier::external_body]
fn now() -> Instant {
    Instant::now()
}

/// `Instant::elapsed` gives the time that has passed since the instant,
/// in whole seconds and less than a second of nanoseconds.
#[verifier::external_body]
fn since(start: &Instant) -> Span {
    let passed = start.elapsed();
    Span { secs: passed.as_secs(), nanos: passed.subsec_nanos() }
}

/// The text that `std::time::Duration` shows for debugging, of a duration
/// of `nanos` nanoseconds.
pub uninterp spec fn duration_debug_text(nanos: nat) -> Seq<char>;

/// The `Debug` form of the `std::time::Duration` of the same length as the
/// span, which `Duration::new` makes from its seconds and nanoseconds.
#[verifier::external_body]
fn span_text(span: Span) -> (r: String)
    ensures
        r@ == duration_debug_text(span.total()),
{
    format!("{:?}", std::time::Duration::new(span.secs, span.nanos))
}

/// A stopwatch: it adds up the time over which it ran.
#[derive(Debug, Clone, Copy)]
pub struct Stopwatch {
    elapsed: Span,  // the recorded elapsed span before the most recent stopwatch start.
    started: Option<Instant>,  // the instant at which it was started. when none, stopwatch is not running.
}

impl Stopwatch {
    /// Whether the stopwatch is running.
    pub closed spec fn is_running(&self) -> bool {
        self.started is Some
    }

    /// The time recorded before the stopwatch was last started.
    pub closed spec fn recorded(&self) -> Span {
        self.elapsed
    }

    /// A stopwatch at rest, with no time on it.
    pub fn new() -> (r: Stopwatch)
        ensures
            !r.is_running(),
            r.recorded().total() == 0,
    {
        Stopwatch { elapsed: Span::zero(), started: None }
    }

    /// Starts the stopwatch. One that is running stays as it is.
    pub fn start(&mut self)
        ensures
            final(self).is_running(),
            final(self).recorded() == old(self).recorded(),
            old(self).is_running() ==> *final(self) == *old(self),
    {
        if self.started.is_none() {
            self.started = Some(now());
        }
    }

    /// A running stopwatch, with no time on it.
    pub fn started() -> (r: Stopwatch)
        ensures
            r.is_running(),
            r.recorded().total() == 0,
    {
        let mut stopwatch = Stopwatch::new();

        stopwatch.start();
        stopwatch
    }

    /// Stops the stopwatch and records the time it ran. One that is at
    /// rest stays as it is.
    pub fn stop(&mut self)
        ensures
            !final(self).is_running(),
            !old(self).is_running() ==> *final(self) == *old(self),
            final(self).recorded().total() >= old(self).recorded().total(),
    {
        if self.started.is_some() {
            self.elapsed = self.elapsed();
            self.started = None;
        }
    }

    /// Takes the time off the stopwatch and returns it. One that is
    /// running runs on, from now.
    pub fn reset(&mut self) -> (r: Span)
        ensures
            final(self).recorded().total() == 0,
            final(self).is_running() == old(self).is_running(),
            !old(self).is_running() ==> r == old(self).recorded(),
            r.total() >= old(self).recorded().total(),
    {
        let elapsed = self.elapsed();

        self.elapsed = Span::zero();
        self.started = match self.started {
            Some(_) => Some(now()),
            None => None,
        };

        elapsed
    }

    /// Takes the time off the stopwatch and starts it.
    pub fn restart(&mut self)
        ensures
            final(self).is_running(),
            final(self).recorded().total() == 0,
    {
        self.reset();
        self.start();
    }

    pub fn running(&self) -> (r: bool)
        ensures
            r == self.is_running(),
    {
        self.started.is_some()
    }

    /// The time on a stopwatch that has been running for `running_for`
    /// since it was last started: that added to what was recorded before.
    /// On one at rest, what was recorded.
    pub fn elapsed_after(&self, running_for: Span) -> (r: Span)
        ensures
            !self.is_running() ==> r == self.recorded(),
            r.total() == if !self.is_running() {
                self.recorded().total()
            } else if running_for.total() + self.recorded().total() <= longest_span() {
                running_for.total() + self.recorded().total()
            } else {
                longest_span()
            },
    {
        match self.started {
            Some(_) => running_for.saturating_add(self.elapsed),
            None => self.elapsed,
        }
    }

    /// The time on the stopwatch now.
    pub fn elapsed(&self) -> (r: Span)
        ensures
            !self.is_running() ==> r == self.recorded(),
            r.total() >= self.recorded().total(),
    {
        proof {
            use_type_invariant(self.elapsed);
        }
        match self.started {
            Some(started) => self.elapsed_after(since(&started)),
            None => self.elapsed,
        }
    }

    /// The whole seconds on the stopwatch now.
    pub fn elapsed_seconds(&self) -> (r: u64)
        ensures
            !self.is_running() ==> r == self.recorded().total() / 1_000_000_000,
            r >= self.recorded().total() / 1_000_000_000,
    {
        self.elapsed().as_secs()
    }

    /// The whole milliseconds on the stopwatch now.
    pub fn elapsed_milliseconds(&self) -> (r: u128)
        ensures
            !self.is_running() ==> r == self.recorded().total() / 1_000_000,
            r >= self.recorded().total() / 1_000_000,
    {
        self.elapsed().as_millis()
    }

    /// The whole microseconds on the stopwatch now.
    pub fn elapsed_microseconds(&self) -> (r: u128)
        ensures
            !self.is_running() ==> r == self.recorded().total() / 1_000,
            r >= self.recorded().total() / 1_000,
    {
        self.elapsed().as_micros()
    }

    /// The nanoseconds on the stopwatch now.
    pub fn elapsed_nanoseconds(&self) -> (r: u128)
        ensures
            !self.is_running() ==> r == self.recorded().total(),
            r >= self.recorded().total(),
    {
        self.elapsed().as_nanos()
    }

    /// The text shown for the stopwatch: the time on it, as a duration is
    /// shown for debugging.
    pub fn to_string(&self) -> (r: String)
        ensures
            !self.is_running() ==> r@ == duration_debug_text(self.recorded().total()),
    {
        span_text(self.elapsed())
    }
}

impl Default for Stopwatch {
    fn default() -> (r: Stopwatch)
        ensures
            !r.is_running(),
            r.recorded().total() == 0,
    {
        Stopwatch::new()
    }
}

/// A reading is stale at `now` where more than a second lies between them.
pub open spec fn is_stale(reading: u128, now: u128) -> bool {
    reading + 1_000_000_000 < now
}

/// How many readings at the front of `readings` are stale at `now`.
pub open spec fn stale_front(readings: Seq<u128>, now: u128) -> nat
    decreases readings.len(),
{
    if readings.len() > 0 && is_stale(readings[0], now) {
        1 + stale_front(readings.drop_first(), now)
    } else {
        0
    }
}

/// The readings left when `now` has come in at the back and the stale
/// readings at the front have gone.
pub open spec fn window_after(readings: Seq<u128>, now: u128) -> Seq<u128> {
    readings.push(now).skip(stale_front(readings.push(now), now) as int)
}

/// A simple fps clock / fps counter: it counts the frames of the last
/// second.
///
/// # Examples
///
/// ```text
/// let mut clock = FpsClock::new();
///
/// for _ in 0..100 {
///     clock.update();
/// }
///
/// assert_eq!(clock.fps() > 0, true);
/// ```
pub struct FpsClock {
    origin: Instant,
    queue: VecDeque<u128>,
    frames: Arc<AtomicUsize>,
}

impl FpsClock {
    /// The times of the frames counted, oldest first, in nanoseconds since
    /// the clock was made.
    pub closed spec fn window(&self) -> Seq<u128> {
        self.queue@
    }

    /// The counter in which the clock keeps its count for its clients.
    pub closed spec fn counter(&self) -> Arc<AtomicUsize> {
        self.frames
    }

    pub fn new() -> (r: FpsClock)
        ensures
            r.window() == Seq::<u128>::empty(),
    {
        FpsClock {
            origin: now(),
            queue: VecDeque::with_capacity(1024),
            frames: Arc::new(AtomicUsize::new(0)),
        }
    }

    /// Counts a frame at the time `now`, and drops the frames at the front
    /// that are more than a second older. The number of frames left is
    /// what `fps` and the clients then read.
    pub fn record(&mut self, now: u128)
        ensures
            final(self).window() == window_after(old(self).window(), now),
            final(self).counter() == old(self).counter(),
    {
        self.queue.push_back(now);
        let ghost all = self.queue@;
        let ghost mut dropped: nat = 0;

        while self.queue.len() > 0 && now >= 1_000_000_000 && self.queue[0] < now - 1_000_000_000
            invariant
                dropped <= all.len(),
                self.queue@ == all.skip(dropped as int),
                self.counter() == old(self).counter(),
                stale_front(all, now) == dropped + stale_front(self.queue@, now),
            decreases self.queue@.len(),
        {
            proof {
                assert(self.queue@.drop_first() =~= all.skip(dropped as int + 1));
                dropped = dropped + 1;
            }
            self.queue.pop_front();
        }

        store_count(&self.frames, self.queue.len());
    }

    /// Counts a frame now, whenever that is.
    pub fn update(&mut self)
        ensures
            exists|now: u128| final(self).window() == window_after(old(self).window(), now),
            final(self).counter() == old(self).counter(),
    {
        let now = since(&self.origin).as_nanos();
        self.record(now);
    }

    /// A reader of this clock's count that can go to another thread: it
    /// holds the counter that this clock writes to.
    pub fn client(&self) -> (r: Fps)
        ensures
            r.counter() == self.counter(),
    {
        Fps { frames: share(&self.frames) }
    }

    /// The number of frames in the last second, as last counted.
    pub fn fps(&self) -> (r: usize)
        ensures
            r == self.window().len(),
    {
        self.queue.len()
    }
}

/// `Arc::clone` makes another pointer to the same allocation: the counter
/// behind the pointer it gives is the one behind the pointer it was given.
#[verifier::external_body]
fn share(counter: &Arc<AtomicUsize>) -> (r: Arc<AtomicUsize>)
    ensures
        r == *counter,
{
    Arc::clone(counter)
}

fn store_count(frames: &Arc<AtomicUsize>, count: usize) {
    frames.store(count, Ordering::Relaxed);
}

fn load_count(frames: &Arc<AtomicUsize>) -> usize {
    frames.load(Ordering::Relaxed)
}

/// Reads the fps value of some `FpsClock`.
pub struct Fps {
    frames: Arc<AtomicUsize>,
}

impl Fps {
    /// The counter that is read: that of the clock which handed this
    /// reader out.
    pub closed spec fn counter(&self) -> Arc<AtomicUsize> {
        self.frames
    }

    /// The number of frames in the last second, as the clock last counted.
    pub fn value(&self) -> usize {
        load_count(&self.frames)
    }
}

} // verus!
