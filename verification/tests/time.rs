use ari::sync::{AtomicArBool, AtomicRelaxedBool};
use ari::time::{
    Fps, FpsClock, Span, Stopwatch, MICROSECONDS_PER_SECOND, MILLISECONDS_PER_SECOND,
    NANOSECONDS_PER_MICROSECOND, NANOSECONDS_PER_MILLISECOND, NANOSECONDS_PER_SECOND,
    SECONDS_PER_DAY, SECONDS_PER_HOUR, SECONDS_PER_MINUTE, SECONDS_PER_WEEK,
};

fn wait_millis(millis: u64) {
    let start = std::time::Instant::now();
    while start.elapsed() < std::time::Duration::from_millis(millis) {
        std::hint::spin_loop();
    }
}

#[test]
fn atomic_booleans_keep_what_was_set() {
    let flag = AtomicArBool::new(false);
    assert_eq!(flag.get(), false);
    flag.set(true);
    assert_eq!(flag.get(), true);
    assert_eq!(AtomicArBool::new(true).get(), true);
    assert_eq!(AtomicArBool::default().get(), false);

    let flag = AtomicRelaxedBool::new(true);
    assert_eq!(flag.get(), true);
    flag.set(false);
    assert_eq!(flag.get(), false);
    assert_eq!(AtomicRelaxedBool::default().get(), false);
}

#[test]
fn units_of_time() {
    assert_eq!(NANOSECONDS_PER_MICROSECOND, 1_000);
    assert_eq!(NANOSECONDS_PER_MILLISECOND, 1_000_000);
    assert_eq!(NANOSECONDS_PER_SECOND, 1_000_000_000);
    assert_eq!(MICROSECONDS_PER_SECOND, 1_000_000);
    assert_eq!(MILLISECONDS_PER_SECOND, 1_000);
    assert_eq!(SECONDS_PER_MINUTE, 60);
    assert_eq!(SECONDS_PER_HOUR, 60 * 60);
    assert_eq!(SECONDS_PER_DAY, 24 * 60 * 60);
    assert_eq!(SECONDS_PER_WEEK, 7 * 24 * 60 * 60);
}

#[test]
fn a_span_in_its_units() {
    let span = Span::new(3, 141_592_653).unwrap();
    assert_eq!(span.as_secs(), 3);
    assert_eq!(span.subsec_nanos(), 141_592_653);
    assert_eq!(span.as_millis(), 3_141);
    assert_eq!(span.as_micros(), 3_141_592);
    assert_eq!(span.as_nanos(), 3_141_592_653);
    assert_eq!(Span::zero().as_nanos(), 0);
    assert_eq!(Span::zero(), Span::new(0, 0).unwrap());
}

#[test]
fn a_span_needs_less_than_a_second_of_nanoseconds() {
    assert!(Span::new(0, 999_999_999).is_some());
    assert!(Span::new(0, 1_000_000_000).is_none());
    assert!(Span::new(5, u32::MAX).is_none());
}

#[test]
fn spans_add_up() {
    let a = Span::new(1, 600_000_000).unwrap();
    let b = Span::new(2, 700_000_000).unwrap();
    assert_eq!(a.saturating_add(b), Span::new(4, 300_000_000).unwrap());
    assert_eq!(a.saturating_add(Span::zero()), a);
    assert_eq!(Span::new(1, 1).unwrap().saturating_add(Span::new(2, 2).unwrap()), Span::new(3, 3).unwrap());
}

#[test]
fn spans_saturate() {
    let longest = Span::new(u64::MAX, 999_999_999).unwrap();
    let one = Span::new(1, 0).unwrap();
    assert_eq!(longest.saturating_add(one), longest);
    assert_eq!(one.saturating_add(longest), longest);
    assert_eq!(Span::new(u64::MAX, 1).unwrap().saturating_add(Span::new(0, 999_999_999).unwrap()), longest);
    assert_eq!(
        Span::new(u64::MAX - 1, 500_000_000).unwrap().saturating_add(Span::new(0, 500_000_000).unwrap()),
        Span::new(u64::MAX, 0).unwrap()
    );
    assert_eq!(longest.as_nanos(), u64::MAX as u128 * 1_000_000_000 + 999_999_999);
}

#[test]
fn a_new_stopwatch_rests_at_zero() {
    let stopwatch = Stopwatch::new();
    assert_eq!(stopwatch.running(), false);
    assert_eq!(stopwatch.elapsed(), Span::zero());
    assert_eq!(stopwatch.elapsed_seconds(), 0);
    assert_eq!(stopwatch.elapsed_milliseconds(), 0);
    assert_eq!(stopwatch.elapsed_microseconds(), 0);
    assert_eq!(stopwatch.elapsed_nanoseconds(), 0);
    assert_eq!(Stopwatch::default().running(), false);
    assert_eq!(stopwatch.to_string(), "0ns");
}

#[test]
fn a_stopwatch_runs_and_stops() {
    let mut stopwatch = Stopwatch::started();
    assert_eq!(stopwatch.running(), true);
    wait_millis(20);
    let running = stopwatch.elapsed_nanoseconds();
    assert!(running >= 20_000_000);
    stopwatch.stop();
    assert_eq!(stopwatch.running(), false);
    let stopped = stopwatch.elapsed_nanoseconds();
    assert!(stopped >= running);
    wait_millis(5);
    assert_eq!(stopwatch.elapsed_nanoseconds(), stopped);
    assert_eq!(stopwatch.elapsed().as_nanos(), stopped);
    stopwatch.stop();
    assert_eq!(stopwatch.elapsed_nanoseconds(), stopped);
}

#[test]
fn a_stopwatch_adds_up_its_runs() {
    let mut stopwatch = Stopwatch::new();
    stopwatch.start();
    wait_millis(10);
    stopwatch.stop();
    let first = stopwatch.elapsed_nanoseconds();
    stopwatch.start();
    stopwatch.start();
    wait_millis(10);
    stopwatch.stop();
    assert!(stopwatch.elapsed_nanoseconds() >= first + 10_000_000);
}

#[test]
fn reset_takes_the_time_off() {
    let mut stopwatch = Stopwatch::started();
    wait_millis(10);
    let taken = stopwatch.reset();
    assert!(taken.as_nanos() >= 10_000_000);
    assert_eq!(stopwatch.running(), true);
    assert!(stopwatch.elapsed().as_nanos() < taken.as_nanos());

    stopwatch.stop();
    let rest = stopwatch.elapsed();
    assert_eq!(stopwatch.reset(), rest);
    assert_eq!(stopwatch.running(), false);
    assert_eq!(stopwatch.elapsed(), Span::zero());
}

#[test]
fn restart_starts_from_zero() {
    let mut stopwatch = Stopwatch::new();
    stopwatch.restart();
    assert_eq!(stopwatch.running(), true);
    wait_millis(10);
    stopwatch.stop();
    let first = stopwatch.elapsed_nanoseconds();
    stopwatch.restart();
    assert_eq!(stopwatch.running(), true);
    stopwatch.stop();
    assert!(stopwatch.elapsed_nanoseconds() < first);
}

#[test]
fn elapsed_after_a_given_run() {
    let rest = Stopwatch::new();
    assert_eq!(rest.elapsed_after(Span::new(5, 0).unwrap()), Span::zero());
    let running = Stopwatch::started();
    assert_eq!(running.elapsed_after(Span::new(5, 7).unwrap()), Span::new(5, 7).unwrap());
}

#[test]
fn the_units_of_a_stopped_stopwatch_agree() {
    let mut stopwatch = Stopwatch::started();
    wait_millis(3);
    stopwatch.stop();
    let nanos = stopwatch.elapsed_nanoseconds();
    assert_eq!(stopwatch.elapsed_microseconds(), nanos / 1_000);
    assert_eq!(stopwatch.elapsed_milliseconds(), nanos / 1_000_000);
    assert_eq!(stopwatch.elapsed_seconds() as u128, nanos / 1_000_000_000);
    let span = stopwatch.elapsed();
    assert_eq!(
        stopwatch.to_string(),
        format!("{:?}", std::time::Duration::new(span.as_secs(), span.subsec_nanos()))
    );
}

#[test]
fn an_fps_clock_counts_its_updates() {
    let mut clock = FpsClock::new();
    assert_eq!(clock.fps(), 0);

    for _ in 0..100 {
        clock.update();
    }

    assert_eq!(clock.fps() > 0, true);
    assert_eq!(clock.fps(), 100);
    let fps: Fps = clock.client();
    assert_eq!(fps.value(), 100);
}

#[test]
fn an_fps_clock_drops_frames_older_than_a_second() {
    let mut clock = FpsClock::new();
    clock.record(0);
    assert_eq!(clock.fps(), 1);
    clock.record(500_000_000);
    assert_eq!(clock.fps(), 2);
    clock.record(1_000_000_000);
    assert_eq!(clock.fps(), 3);
    // exactly a second old is not yet stale
    clock.record(1_500_000_000);
    assert_eq!(clock.fps(), 3);
    clock.record(1_500_000_001);
    assert_eq!(clock.fps(), 3);
    clock.record(10_000_000_000);
    assert_eq!(clock.fps(), 1);
}

#[test]
fn an_fps_clock_stops_dropping_at_the_first_fresh_frame() {
    let mut clock = FpsClock::new();
    clock.record(5_000_000_000);
    clock.record(1);
    clock.record(2);
    // the frame at the front is fresh, so the old ones behind it stay
    clock.record(5_500_000_000);
    assert_eq!(clock.fps(), 4);
    clock.record(6_000_000_001);
    assert_eq!(clock.fps(), 2);
}

#[test]
fn a_client_follows_its_clock() {
    let mut clock = FpsClock::new();
    let fps = clock.client();
    assert_eq!(fps.value(), 0);
    clock.record(7);
    clock.record(8);
    assert_eq!(fps.value(), 2);
    ari::basics::assert_send_sync(fps);
}
