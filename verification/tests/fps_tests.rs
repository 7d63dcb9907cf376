use azurescens::fps::FPSTracker;

// One frame at sixty frames per second, in nanoseconds.
const FRAME_NS: u64 = 16_666_666;

#[test]
fn first_tick_with_no_elapsed_time_is_a_no_op() {
    // A tick at the creation instant must not divide by zero and must not
    // disturb the average.
    let mut t = FPSTracker { last_frame_time: 1000, last_fps_output_time: 1000, smoothed_fps: 0 };
    let report = t.tick_at(1000);
    assert_eq!(t.smoothed_fps, 0);
    assert_eq!(t.last_frame_time, 1000);
    assert!(report.is_none());
}

#[test]
fn backwards_counter_is_a_no_op_contribution() {
    let mut t = FPSTracker { last_frame_time: 5000, last_fps_output_time: 5000, smoothed_fps: 777 };
    t.tick_at(4000);
    assert_eq!(t.smoothed_fps, 777);
    assert_eq!(t.last_frame_time, 4000);
}

#[test]
fn sixty_fps_ticks_converge_monotonically_to_sixty() {
    // Timestamps spaced exactly one sixtieth of a second apart: the
    // smoothed rate climbs monotonically and settles within a hundredth of
    // a frame per second of sixty.
    let mut t = FPSTracker { last_frame_time: 0, last_fps_output_time: 0, smoothed_fps: 0 };
    let mut now: u64 = 0;
    let mut previous: u64 = 0;
    // The instantaneous rate in milli-fps for this spacing.
    let target: u64 = 1_000_000_000_000 / FRAME_NS;
    assert_eq!(target, 60_000);
    for _ in 0..70_000u32 {
        now += FRAME_NS;
        t.tick_at(now);
        assert!(t.smoothed_fps >= previous, "average regressed");
        assert!(t.smoothed_fps <= target, "average overshot the true rate");
        previous = t.smoothed_fps;
    }
    assert!(t.smoothed_fps >= target - 9, "average settled at {}", t.smoothed_fps);
    assert!(t.smoothed_fps <= target);
}

#[test]
fn smoothing_keeps_nine_tenths_of_history() {
    // One tick at a millisecond spacing: instantaneous rate is 1000 fps,
    // and a zero average moves one tenth of the way there.
    let mut t = FPSTracker { last_frame_time: 0, last_fps_output_time: 0, smoothed_fps: 0 };
    t.tick_at(1_000_000);
    assert_eq!(t.smoothed_fps, 100_000);
    // A second identical interval: (9 * 100_000 + 1_000_000) / 10.
    t.tick_at(2_000_000);
    assert_eq!(t.smoothed_fps, 190_000);
}

#[test]
fn report_falls_due_after_five_seconds() {
    let mut t = FPSTracker { last_frame_time: 0, last_fps_output_time: 0, smoothed_fps: 0 };
    let early = t.tick_at(4_999_999_999);
    assert!(early.is_none());
    let due = t.tick_at(5_000_000_000);
    assert_eq!(due, Some(t.smoothed_fps));
    assert_eq!(t.last_fps_output_time, 5_000_000_000);
    let just_after = t.tick_at(5_000_000_001);
    assert!(just_after.is_none());
}

#[test]
fn tracker_runs_against_the_real_counter() {
    // new() and tick() read the real performance counter.
    let mut t = FPSTracker::new();
    assert_eq!(t.smoothed_fps, 0);
    t.tick();
    t.tick();
}
