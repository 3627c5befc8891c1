use netsync::clock::{ClockError, LocalClock, LocalTime};

fn at(absolute: u64, delta: u64) -> LocalTime {
    LocalTime { absolute, delta, frame: 0 }
}

#[test]
fn fixed_step_catch_up_consumes_whole_ticks() {
    let mut c = LocalClock::new(0, None, Some(10));
    let r = c.tick(&at(35, 35));
    assert!(r.is_ok());
    assert_eq!(c.frames_since_tick, 3);
    assert_eq!(c.frame_number, 3);
    assert_eq!(c.absolute_time, 30);
    assert_eq!(c.delta_time, 10);
    assert_eq!(c.interpolation_alpha, 5);
}

#[test]
fn fixed_step_zero_ticks_when_stalled() {
    let mut c = LocalClock::new(0, None, Some(10));
    assert!(c.tick(&at(35, 35)).is_ok());
    // no whole tick fits in the remaining 5 nanoseconds
    let r = c.tick(&at(38, 3));
    assert!(r.is_ok());
    assert_eq!(c.frames_since_tick, 0);
    assert_eq!(c.frame_number, 3);
    assert_eq!(c.absolute_time, 30);
    assert_eq!(c.interpolation_alpha, 8);
}

#[test]
fn clock_monotonic_across_ticks() {
    let mut c = LocalClock::new(0, None, Some(7));
    let mut last_frame = c.frame_number;
    let mut last_abs = c.absolute_time;
    let times = [3u64, 9, 14, 14, 30, 100, 101];
    for &t in times.iter() {
        assert!(c.tick(&at(t, 0)).is_ok());
        assert!(c.frame_number >= last_frame);
        assert!(c.absolute_time >= last_abs);
        last_frame = c.frame_number;
        last_abs = c.absolute_time;
    }
}

#[test]
fn continuous_clock_tracks_time_directly() {
    let mut c = LocalClock::new(0, None, None);
    assert!(c.tick(&at(50, 50)).is_ok());
    assert_eq!(c.frame_number, 1);
    assert_eq!(c.frames_since_tick, 1);
    assert_eq!(c.absolute_time, 50);
    assert_eq!(c.delta_time, 50);
    assert_eq!(c.interpolation_alpha, 0);
}

#[test]
fn time_scale_halves_elapsed_time() {
    // 500000 parts per million: half speed
    let mut c = LocalClock::new(0, Some(500_000), None);
    assert!(c.tick(&at(50, 50)).is_ok());
    assert_eq!(c.absolute_time, 25);
    assert_eq!(c.delta_time, 25);
}

#[test]
fn negative_offset_before_epoch_is_no_op() {
    let mut c = LocalClock::new(-100, None, Some(10));
    let r = c.tick(&at(50, 50));
    assert!(r.is_ok());
    assert_eq!(c.frame_number, 0);
    assert_eq!(c.frames_since_tick, 0);
    assert_eq!(c.absolute_time, 0);
}

#[test]
fn regressed_remote_time_is_a_fault() {
    let mut c = LocalClock::new(0, None, Some(10));
    assert!(c.tick(&at(35, 35)).is_ok());
    let mut regressed = c;
    regressed.absolute_time = 1_000;
    let r = regressed.tick(&at(50, 15));
    assert_eq!(r, Err(ClockError::RemoteTimeRegressed));
    // the clock is unchanged on a fault
    assert_eq!(regressed.frame_number, 3);
    assert_eq!(regressed.absolute_time, 1_000);
}

#[test]
fn frame_counter_overflow_is_a_fault() {
    let mut c = LocalClock::new(0, None, Some(1));
    c.frame_number = u64::MAX - 1;
    let r = c.tick(&at(100, 100));
    assert_eq!(r, Err(ClockError::FrameCounterOverflow));
}
