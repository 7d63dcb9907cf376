//! Frame-rate estimation: an instantaneous rate per frame, smoothed with an
//! exponentially-weighted moving average, reported every few seconds.
//!
//! Rates are carried in thousandths of a frame per second (milli-fps), so
//! the smoothing `smoothed' = 0.9 * smoothed + 0.1 * instant` is the integer
//! step `(9 * smoothed + instant) / 10`.

use vstd::prelude::*;
use std::io::Write;

verus! {

/// Milli-fps corresponding to one frame per nanosecond-interval: the
/// numerator of the instantaneous-rate quotient.
pub const MILLI_FPS_NUMERATOR: u64 = 1_000_000_000_000;

/// The largest representable smoothed rate: one frame per nanosecond.
pub const MAX_MILLI_FPS: u64 = 1_000_000_000_000;

/// Nanoseconds between two rate reports: five seconds.
pub const REPORT_INTERVAL_NS: u64 = 5_000_000_000;

/// Tracks frame times and the smoothed rate. One `tick` per completed frame.
pub struct FPSTracker {
    /// Counter reading at the most recent tick, in nanoseconds.
    pub last_frame_time: u64,
    /// Counter reading at the most recent report, in nanoseconds.
    pub last_fps_output_time: u64,
    /// Exponentially-weighted moving average of the rate, in milli-fps.
    pub smoothed_fps: u64,
}

/// The instantaneous rate, in milli-fps, of a frame that took `dt`
/// nanoseconds.
pub open spec fn instant_milli_fps(dt: int) -> int
    recommends
        dt >= 1,
{
    (MILLI_FPS_NUMERATOR as int) / dt
}

/// One smoothing step: keep nine tenths of the old rate, take one tenth of
/// the instantaneous one.
pub open spec fn ewma_step(smoothed: int, instant: int) -> int {
    (9 * smoothed + instant) / 10
}

/// Nanoseconds elapsed since the previous tick; zero if the counter did not
/// advance (or moved backwards, which a monotonic counter never does).
pub open spec fn frame_delta(pre: FPSTracker, now: u64) -> int {
    if now >= pre.last_frame_time {
        now - pre.last_frame_time
    } else {
        0
    }
}

/// The smoothed rate after a tick at `now`. An elapsed time of zero would
/// make the instantaneous rate unbounded, so such a tick contributes
/// nothing to the average.
pub open spec fn smoothed_after(pre: FPSTracker, now: u64) -> int {
    if frame_delta(pre, now) > 0 {
        ewma_step(pre.smoothed_fps as int, instant_milli_fps(frame_delta(pre, now)))
    } else {
        pre.smoothed_fps as int
    }
}

/// Whether a tick at `now` emits a report: at least the report interval has
/// passed since the last one.
pub open spec fn report_due(pre: FPSTracker, now: u64) -> bool {
    now >= pre.last_fps_output_time + REPORT_INTERVAL_NS
}

/// Everything one tick at `now` does to the tracker state and reports.
pub open spec fn tick_relation(pre: FPSTracker, now: u64, post: FPSTracker, report: Option<
    u64,
>) -> bool {
    &&& post.last_frame_time == now
    &&& post.smoothed_fps == smoothed_after(pre, now)
    &&& (report_due(pre, now) ==> post.last_fps_output_time == now && report == Some(
        post.smoothed_fps,
    ))
    &&& (!report_due(pre, now) ==> post.last_fps_output_time == pre.last_fps_output_time
        && report is None)
}

impl FPSTracker {
    /// The smoothed rate never exceeds one frame per nanosecond.
    pub open spec fn wf(self) -> bool {
        self.smoothed_fps <= MAX_MILLI_FPS
    }

    /// Start tracking: the current counter reading serves as both the last
    /// frame time and the last report time, and the average starts at zero.
    pub fn new() -> (t: FPSTracker)
        ensures
            t.wf(),
            t.smoothed_fps == 0,
            t.last_frame_time == t.last_fps_output_time,
    {
        let now = now_ns();
        FPSTracker { last_frame_time: now, last_fps_output_time: now, smoothed_fps: 0 }
    }

    /// Record one completed frame whose tick happened at counter reading
    /// `now`; returns the smoothed rate when a report falls due.
    pub fn tick_at(&mut self, now: u64) -> (report: Option<u64>)
        requires
            old(self).wf(),
        ensures
            final(self).wf(),
            tick_relation(*old(self), now, *final(self), report),
    {
        if now > self.last_frame_time {
            let dt = now - self.last_frame_time;
            let instant = MILLI_FPS_NUMERATOR / dt;
            let weighted = 9 * self.smoothed_fps + instant;
            self.smoothed_fps = weighted / 10;
        }
        self.last_frame_time = now;
        if now >= REPORT_INTERVAL_NS && now - REPORT_INTERVAL_NS >= self.last_fps_output_time {
            self.last_fps_output_time = now;
            Some(self.smoothed_fps)
        } else {
            None
        }
    }

    /// Record one completed frame at the current counter reading, printing
    /// the smoothed rate when a report falls due. The counter reading is
    /// whatever the performance counter returned; every outcome is one tick
    /// at that reading.
    pub fn tick(&mut self)
        requires
            old(self).wf(),
        ensures
            final(self).wf(),
            exists|now: u64, report: Option<u64>|
                tick_relation(*old(self), now, *final(self), report),
    {
        let now = now_ns();
        let report = self.tick_at(now);
        match report {
            Some(milli_fps) => {
                let whole = milli_fps / 1000;
                let hundredths = (milli_fps / 10) % 100;
                emit_fps_report(whole, hundredths);
            },
            None => {},
        }
    }
}

/// Relies on `time::precise_time_ns`: the current value of a high-resolution
/// performance counter, in nanoseconds since an unspecified epoch.
#[verifier::external_body]
fn now_ns() -> u64 {
    time::precise_time_ns()
}

/// Relies on `std::io::Stdout`: prints one frames-per-second report; an
/// output side effect only.
#[verifier::external_body]
fn emit_fps_report(fps_whole: u64, fps_hundredths: u64) {
    let _ = writeln!(std::io::stdout(), "Frames per second: {}.{:02}", fps_whole, fps_hundredths);
}

/// One smoothing step moves the average toward the instantaneous rate and
/// never past it, from either side.
pub proof fn lemma_ewma_step_toward_target(smoothed: int, target: int)
    requires
        0 <= smoothed,
        0 <= target,
    ensures
        smoothed <= target ==> smoothed <= ewma_step(smoothed, target) <= target,
        target <= smoothed ==> target <= ewma_step(smoothed, target) <= smoothed,
{
}

/// Under a constant instantaneous rate, the gap between the average and the
/// rate never grows; it strictly shrinks while at least ten milli-fps wide,
/// and once within nine milli-fps it stays within nine.
pub proof fn lemma_ewma_gap_shrinks(smoothed: int, target: int)
    requires
        0 <= smoothed <= target,
    ensures
        target - ewma_step(smoothed, target) <= target - smoothed,
        target - smoothed >= 10 ==> target - ewma_step(smoothed, target) < target - smoothed,
        target - smoothed <= 9 ==> target - ewma_step(smoothed, target) <= 9,
        smoothed <= ewma_step(smoothed, target) <= target,
{
    lemma_ewma_step_toward_target(smoothed, target);
}

/// The average after `n` smoothing steps, all at the same instantaneous
/// rate.
pub open spec fn ewma_iterate(smoothed: int, target: int, n: nat) -> int
    decreases n,
{
    if n == 0 {
        smoothed
    } else {
        ewma_step(ewma_iterate(smoothed, target, (n - 1) as nat), target)
    }
}

/// Feeding a constant instantaneous rate, the average climbs monotonically
/// and, after at least as many steps as the initial gap in milli-fps, sits
/// within nine milli-fps of the rate.
pub proof fn lemma_ewma_converges(smoothed: int, target: int, n: nat)
    requires
        0 <= smoothed <= target,
    ensures
        smoothed <= ewma_iterate(smoothed, target, n) <= target,
        target - ewma_iterate(smoothed, target, n) <= 9 || target - ewma_iterate(
            smoothed,
            target,
            n,
        ) <= (target - smoothed) - n,
        n >= target - smoothed ==> target - ewma_iterate(smoothed, target, n) <= 9,
    decreases n,
{
    if n > 0 {
        lemma_ewma_converges(smoothed, target, (n - 1) as nat);
        let prev = ewma_iterate(smoothed, target, (n - 1) as nat);
        lemma_ewma_gap_shrinks(prev, target);
    }
}

} // verus!
