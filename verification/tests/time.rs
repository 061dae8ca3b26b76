use kaijutsu_app::time::{Clock, Moment};
use std::time::{Duration, Instant};

#[test]
fn a_reading_is_measured_from_the_start_of_the_clock() {
    let origin = Instant::now();
    let clock = Clock { origin };
    assert_eq!(clock.moment_of(origin), Moment { nanos: 0 });
    let reading = origin + Duration::from_nanos(5_000_007);
    assert_eq!(clock.moment_of(reading), Moment { nanos: 5_000_007 });
}

#[test]
fn a_reading_before_the_start_counts_as_the_start() {
    let earlier = Instant::now();
    let clock = Clock { origin: earlier + Duration::from_millis(3) };
    assert_eq!(clock.moment_of(earlier), Moment { nanos: 0 });
}

#[test]
fn the_present_moves_on() {
    let clock = Clock::start();
    let first = clock.now();
    std::hint::black_box((0..10_000).sum::<u64>());
    let second = clock.now();
    assert!(0 <= first.nanos && first.nanos <= second.nanos);
}
