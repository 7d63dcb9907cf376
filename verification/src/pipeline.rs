//! The fixed two-stage draw pipeline: two feedback sub-passes into the
//! ping-ponged textures, then one blit of the freshest texture to the
//! visible surface.
//!
//! The two equally sized textures never move or copy; only their logical
//! roles alternate. `DoubleBuffer` tracks which physical texture currently
//! plays the `read` role (holds the most recently completed content) and
//! which plays `write` (is drawn into next). Each sub-pass draws into
//! `write` while sampling `read`, then the roles swap.

use vstd::prelude::*;
use crate::mapper::{PlanePoint, SCALE_MILLIONTHS};
use crate::params::Params;

verus! {

/// Names one of the two physical feedback textures.
#[derive(Clone, Copy, Debug, PartialEq, Eq, Structural)]
pub enum TextureId {
    First,
    Second,
}

/// The texture other than `t`.
pub open spec fn other_texture(t: TextureId) -> TextureId {
    match t {
        TextureId::First => TextureId::Second,
        TextureId::Second => TextureId::First,
    }
}

/// The ping-pong role assignment over the two feedback textures.
pub struct DoubleBuffer {
    read: TextureId,
}

impl DoubleBuffer {
    /// The texture currently holding the most recently completed content.
    pub closed spec fn spec_read(self) -> TextureId {
        self.read
    }

    /// The texture to be drawn into next.
    pub open spec fn spec_write(self) -> TextureId {
        other_texture(self.spec_read())
    }

    /// Fresh role assignment: the first texture starts as `read`.
    pub fn new() -> (b: DoubleBuffer)
        ensures
            b.spec_read() == TextureId::First,
    {
        DoubleBuffer { read: TextureId::First }
    }

    /// The texture currently in the `read` role.
    pub fn read_texture(&self) -> (t: TextureId)
        ensures
            t == self.spec_read(),
    {
        self.read
    }

    /// The texture currently in the `write` role.
    pub fn write_texture(&self) -> (t: TextureId)
        ensures
            t == self.spec_write(),
    {
        match self.read {
            TextureId::First => TextureId::Second,
            TextureId::Second => TextureId::First,
        }
    }

    /// Exchange the two roles; no content moves.
    pub fn swap(&mut self)
        ensures
            final(self).spec_read() == old(self).spec_write(),
            final(self).spec_write() == old(self).spec_read(),
    {
        self.read = match self.read {
            TextureId::First => TextureId::Second,
            TextureId::Second => TextureId::First,
        };
    }
}

/// The texture in the `read` role after `n` sub-pass swaps, starting from
/// `init`.
pub open spec fn read_role_after(init: TextureId, n: nat) -> TextureId
    decreases n,
{
    if n == 0 {
        init
    } else {
        other_texture(read_role_after(init, (n - 1) as nat))
    }
}

/// Role parity: after an even number of sub-pass swaps the texture that
/// began in the `read` role is in the `read` role again; after an odd
/// number it is in the `write` role.
pub proof fn lemma_read_role_parity(init: TextureId, n: nat)
    ensures
        n % 2 == 0 ==> read_role_after(init, n) == init,
        n % 2 == 1 ==> read_role_after(init, n) == other_texture(init),
    decreases n,
{
    if n > 0 {
        lemma_read_role_parity(init, (n - 1) as nat);
    }
}

/// Everything one feedback sub-pass hands to the feedback program. The
/// `src` texture is bound twice outside, once nearest-filtered and once
/// linearly filtered; the shader blends the two paths by `mix_linear` and
/// `mix_linear_tv`.
#[derive(Clone, Copy, Debug, PartialEq, Eq, Structural)]
pub struct FeedbackUniforms {
    /// Texture sampled by the pass.
    pub src: TextureId,
    /// Half-width of the plane square, in millionths: the `scale` uniform.
    pub scale_millionths: i64,
    /// The seed point `c` of the feedback transform.
    pub seed: PlanePoint,
    /// Elapsed time, as the scalar encoding handed in by the caller.
    pub time: u32,
    /// Invert colors this pass.
    pub invert: bool,
    /// Permute the color channels.
    pub permute_colors: bool,
    /// Fade factor (scalar encoding).
    pub fade: u32,
    /// Rate of the color cycle (scalar encoding).
    pub color_cycle_rate: u32,
    /// Blend weight of the linearly filtered path (scalar encoding).
    pub mix_linear: u32,
    /// Time-varying blend weight of the linearly filtered path (scalar
    /// encoding).
    pub mix_linear_tv: u32,
}

/// The uniforms of a feedback sub-pass that samples `src` under the
/// parameter snapshot `params`, seed `seed` and elapsed time `time`: every
/// knob of the snapshot appears, unchanged, exactly once.
pub open spec fn spec_feedback_uniforms(
    params: Params,
    seed: PlanePoint,
    time: u32,
    src: TextureId,
) -> FeedbackUniforms {
    FeedbackUniforms {
        src,
        scale_millionths: SCALE_MILLIONTHS,
        seed,
        time,
        invert: params.invert,
        permute_colors: params.permute_colors,
        fade: params.fade,
        color_cycle_rate: params.color_cycle_rate,
        mix_linear: params.mix_linear,
        mix_linear_tv: params.mix_linear_tv,
    }
}

/// One feedback sub-pass: draw the full-surface quad into `target` with
/// `uniforms`.
#[derive(Clone, Copy, Debug, PartialEq, Eq, Structural)]
pub struct FeedbackPass {
    pub uniforms: FeedbackUniforms,
    pub target: TextureId,
}

/// The complete draw sequence of one displayed frame.
#[derive(Clone, Copy, Debug, PartialEq, Eq, Structural)]
pub struct FramePlan {
    /// First feedback sub-pass.
    pub first: FeedbackPass,
    /// Second feedback sub-pass.
    pub second: FeedbackPass,
    /// Texture the blit pass copies to the visible surface: the one the
    /// second sub-pass just wrote.
    pub blit_src: TextureId,
}

/// The plan of one frame starting from role assignment `buffers`: the first
/// sub-pass samples the current `read` texture and draws into the current
/// `write` texture; after the swap the second sub-pass does the same with
/// the roles exchanged; the blit then shows the texture the second sub-pass
/// wrote, which the second swap has put back in the `read` role.
pub open spec fn spec_frame_plan(
    buffers: DoubleBuffer,
    params: Params,
    seed: PlanePoint,
    time: u32,
) -> FramePlan {
    FramePlan {
        first: FeedbackPass {
            uniforms: spec_feedback_uniforms(params, seed, time, buffers.spec_read()),
            target: buffers.spec_write(),
        },
        second: FeedbackPass {
            uniforms: spec_feedback_uniforms_second(params, seed, time, buffers),
            target: buffers.spec_read(),
        },
        blit_src: buffers.spec_read(),
    }
}

/// Uniforms of the second sub-pass: it samples what the first sub-pass
/// wrote.
pub open spec fn spec_feedback_uniforms_second(
    params: Params,
    seed: PlanePoint,
    time: u32,
    buffers: DoubleBuffer,
) -> FeedbackUniforms {
    spec_feedback_uniforms(params, seed, time, buffers.spec_write())
}

/// Plan one displayed frame. Runs the role swaps of both feedback
/// sub-passes, so afterwards the roles stand exactly as before the frame:
/// the even sub-pass count of one frame leaves the parity unchanged, and
/// the freshest content sits in the `read` role for the next frame and for
/// any capture of the shown image.
pub fn plan_frame(
    buffers: &mut DoubleBuffer,
    params: &Params,
    seed: PlanePoint,
    time: u32,
) -> (plan: FramePlan)
    ensures
        plan == spec_frame_plan(*old(buffers), *params, seed, time),
        final(buffers).spec_read() == old(buffers).spec_read(),
        final(buffers).spec_write() == old(buffers).spec_write(),
{
    let first_src = buffers.read_texture();
    let first_target = buffers.write_texture();
    let first = FeedbackPass {
        uniforms: make_feedback_uniforms(params, seed, time, first_src),
        target: first_target,
    };
    buffers.swap();
    let second_src = buffers.read_texture();
    let second_target = buffers.write_texture();
    let second = FeedbackPass {
        uniforms: make_feedback_uniforms(params, seed, time, second_src),
        target: second_target,
    };
    buffers.swap();
    let blit_src = buffers.read_texture();
    FramePlan { first, second, blit_src }
}

/// Assemble the uniforms of one feedback sub-pass from a parameter
/// snapshot.
pub fn make_feedback_uniforms(params: &Params, seed: PlanePoint, time: u32, src: TextureId) -> (u:
    FeedbackUniforms)
    ensures
        u == spec_feedback_uniforms(*params, seed, time, src),
{
    FeedbackUniforms {
        src,
        scale_millionths: SCALE_MILLIONTHS,
        seed,
        time,
        invert: params.invert,
        permute_colors: params.permute_colors,
        fade: params.fade,
        color_cycle_rate: params.color_cycle_rate,
        mix_linear: params.mix_linear,
        mix_linear_tv: params.mix_linear_tv,
    }
}

/// A control update is reflected in the very next frame's uniforms, and
/// nothing else moves: if a new snapshot agrees with the old one on every
/// knob it did not change, both sub-passes of the next plan carry the new
/// `invert` and `fade` and are otherwise the plan the old snapshot would
/// have produced.
pub proof fn lemma_update_reflected_in_plan(
    buffers: DoubleBuffer,
    p_old: Params,
    p_new: Params,
    seed: PlanePoint,
    time: u32,
)
    requires
        p_new.permute_colors == p_old.permute_colors,
        p_new.color_cycle_rate == p_old.color_cycle_rate,
        p_new.mix_linear == p_old.mix_linear,
        p_new.mix_linear_tv == p_old.mix_linear_tv,
    ensures
        ({
            let plan_old = spec_frame_plan(buffers, p_old, seed, time);
            let plan_new = spec_frame_plan(buffers, p_new, seed, time);
            &&& plan_new.first.uniforms.invert == p_new.invert
            &&& plan_new.first.uniforms.fade == p_new.fade
            &&& plan_new.second.uniforms.invert == p_new.invert
            &&& plan_new.second.uniforms.fade == p_new.fade
            &&& plan_new.first.uniforms == (FeedbackUniforms {
                invert: p_new.invert,
                fade: p_new.fade,
                ..plan_old.first.uniforms
            })
            &&& plan_new.second.uniforms == (FeedbackUniforms {
                invert: p_new.invert,
                fade: p_new.fade,
                ..plan_old.second.uniforms
            })
            &&& plan_new.first.target == plan_old.first.target
            &&& plan_new.second.target == plan_old.second.target
            &&& plan_new.blit_src == plan_old.blit_src
        }),
{
}

} // verus!
