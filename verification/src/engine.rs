//! One iteration of the main loop, as a decision function.
//!
//! Each iteration the engine plans the frame's three draws from the state
//! it entered with, advances the frame-rate estimate, and routes the
//! frame's batch of events. The caller performs the plan's draws, presents
//! the frame, prints any rate report, captures the shown texture when asked
//! to, and stops iterating when the step says close. The plan never depends
//! on the batch: a close request still leaves the frame it arrived in fully
//! planned, so the loop never ends on a torn frame.

use vstd::prelude::*;
use crate::fps::{tick_relation, FPSTracker};
use crate::input::{is_close_event, spec_route, InputEvent};
use crate::mapper::{PlanePoint, MAX_PIXEL_MAGNITUDE, MAX_SURFACE_EXTENT};
use crate::params::Params;
use crate::pipeline::{plan_frame, spec_frame_plan, DoubleBuffer, FramePlan, TextureId};

verus! {

/// Starting seed coordinate on each axis, in millionths: `0.3`.
pub const INITIAL_SEED_MILLIONTHS: i64 = 300_000;

/// The seed the engine starts with.
pub open spec fn initial_seed() -> PlanePoint {
    PlanePoint { re: INITIAL_SEED_MILLIONTHS, im: INITIAL_SEED_MILLIONTHS }
}

/// Everything the render loop owns: the texture role assignment, the
/// frame-rate estimator and the current feedback seed.
pub struct EngineState {
    pub buffers: DoubleBuffer,
    pub fps: FPSTracker,
    pub seed: PlanePoint,
}

/// What one iteration decides.
pub struct FrameOutput {
    /// The frame's draw sequence, planned from the state before the
    /// iteration.
    pub plan: FramePlan,
    /// The smoothed rate, in milli-fps, when a report fell due.
    pub fps_report: Option<u64>,
    /// Capture the shown texture — the plan's blit source — once the frame
    /// is presented.
    pub capture: bool,
    /// Stop iterating once this frame is presented.
    pub close: bool,
}

impl EngineState {
    /// The estimator state is within its bounds.
    pub open spec fn wf(self) -> bool {
        self.fps.wf()
    }

    /// The state at startup: the first texture in the `read` role, a fresh
    /// estimator, the starting seed.
    pub fn new() -> (s: EngineState)
        ensures
            s.wf(),
            s.buffers.spec_read() == TextureId::First,
            s.seed == initial_seed(),
            s.fps.smoothed_fps == 0,
    {
        EngineState {
            buffers: DoubleBuffer::new(),
            fps: FPSTracker::new(),
            seed: PlanePoint { re: INITIAL_SEED_MILLIONTHS, im: INITIAL_SEED_MILLIONTHS },
        }
    }
}

/// One iteration: plan the frame from the entering state, tick the
/// estimator at counter reading `now`, route the batch of `events` polled
/// on a `width x height` surface. The elapsed-time uniform `time` is the
/// caller's scalar encoding of its clock.
pub fn frame_step(
    state: &mut EngineState,
    params: &Params,
    time: u32,
    now: u64,
    events: &Vec<InputEvent>,
    width: i64,
    height: i64,
) -> (out: FrameOutput)
    requires
        old(state).wf(),
        2 <= width <= MAX_SURFACE_EXTENT,
        2 <= height <= MAX_SURFACE_EXTENT,
        forall|i: int|
            0 <= i < events@.len() ==> crate::input::event_in_range(#[trigger] events@[i]),
    ensures
        final(state).wf(),
        out.plan == spec_frame_plan(old(state).buffers, *params, old(state).seed, time),
        final(state).buffers.spec_read() == old(state).buffers.spec_read(),
        tick_relation(old(state).fps, now, final(state).fps, out.fps_report),
        ({
            let routed = spec_route(events@, old(state).seed, width as int, height as int);
            &&& final(state).seed == routed.seed
            &&& out.close == routed.close
            &&& out.capture == routed.capture
        }),
{
    let plan = plan_frame(&mut state.buffers, params, state.seed, time);
    let fps_report = state.fps.tick_at(now);
    let routed = crate::input::route_events(events, state.seed, width, height);
    state.seed = routed.seed;
    FrameOutput { plan, fps_report, capture: routed.capture, close: routed.close }
}

/// A close request anywhere in a frame's batch ends the loop, however many
/// pointer moves or touches stand before or after it in the same batch —
/// and the frame it arrived in is still fully planned, since the plan never
/// reads the batch.
pub proof fn lemma_close_anywhere_terminates(
    events: Seq<InputEvent>,
    i: int,
    seed: PlanePoint,
    w: int,
    h: int,
)
    requires
        0 <= i < events.len(),
        is_close_event(events[i]),
    ensures
        spec_route(events, seed, w, h).close,
{
    crate::input::lemma_route_close(events, seed, w, h);
}

} // verus!
