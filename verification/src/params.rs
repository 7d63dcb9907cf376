//! Tunable visual parameters and the store that hands them to the renderer.
//!
//! Each numeric knob is a scalar shader uniform: the engine never computes
//! with it, it only forwards it to the feedback pass. A knob is therefore
//! kept as its raw 32-bit scalar encoding (sign bit, 8 exponent bits,
//! 23 mantissa bits). The store's invariant asks each encoding to be finite:
//! an encoding with a saturated exponent field denotes an infinity or an
//! invalid value, and such a value must never reach a draw call.

use vstd::prelude::*;

verus! {

/// Exponent mask of the 32-bit scalar encoding.
pub const SCALAR_EXPONENT_MASK: u32 = 0x7F80_0000;

/// Default for `fade`: encoding of nine tenths.
pub const DEFAULT_FADE: u32 = 0x3F66_6666;

/// Default for `color_cycle_rate`: encoding of one.
pub const DEFAULT_COLOR_CYCLE_RATE: u32 = 0x3F80_0000;

/// Default for `mix_linear`: encoding of zero.
pub const DEFAULT_MIX_LINEAR: u32 = 0x0000_0000;

/// Default for `mix_linear_tv`: encoding of one fifth.
pub const DEFAULT_MIX_LINEAR_TV: u32 = 0x3E4C_CCCD;

/// A 32-bit scalar encoding is finite when its exponent field is not
/// saturated.
pub open spec fn scalar_finite(bits: u32) -> bool {
    bits & SCALAR_EXPONENT_MASK != SCALAR_EXPONENT_MASK
}

/// Runtime check matching [`scalar_finite`].
pub fn is_scalar_finite(bits: u32) -> (r: bool)
    ensures
        r == scalar_finite(bits),
{
    bits & SCALAR_EXPONENT_MASK != SCALAR_EXPONENT_MASK
}

/// The independently adjustable visual knobs, replaced wholesale by the
/// control channel and read once per frame by the renderer.
#[derive(Clone, Copy, Debug, PartialEq, Eq, Structural)]
pub struct Params {
    /// Invert colors on each feedback pass.
    pub invert: bool,
    /// Fade factor applied when not inverting (scalar encoding).
    pub fade: u32,
    /// Permute the color channels.
    pub permute_colors: bool,
    /// Rate of the color cycle (scalar encoding).
    pub color_cycle_rate: u32,
    /// Blend weight for the linearly filtered sampling path
    /// (scalar encoding).
    pub mix_linear: u32,
    /// Time-varying blend weight for the linearly filtered sampling path
    /// (scalar encoding).
    pub mix_linear_tv: u32,
}

impl Params {
    /// All numeric knobs are finite.
    pub open spec fn wf(self) -> bool {
        &&& scalar_finite(self.fade)
        &&& scalar_finite(self.color_cycle_rate)
        &&& scalar_finite(self.mix_linear)
        &&& scalar_finite(self.mix_linear_tv)
    }

    /// Runtime check matching [`Params::wf`], for values that arrive from
    /// outside the verified core.
    pub fn check_wf(&self) -> (r: bool)
        ensures
            r == self.wf(),
    {
        is_scalar_finite(self.fade) && is_scalar_finite(self.color_cycle_rate)
            && is_scalar_finite(self.mix_linear) && is_scalar_finite(self.mix_linear_tv)
    }
}

impl Default for Params {
    /// The startup configuration: inverting, fading at nine tenths,
    /// permuting colors, cycling colors at rate one, nearest-only sampling
    /// with a time-varying linear mix of one fifth.
    fn default() -> (p: Params)
        ensures
            p == default_params(),
            p.wf(),
    {
        proof {
            lemma_default_params_wf();
        }
        Params {
            invert: true,
            fade: DEFAULT_FADE,
            permute_colors: true,
            color_cycle_rate: DEFAULT_COLOR_CYCLE_RATE,
            mix_linear: DEFAULT_MIX_LINEAR,
            mix_linear_tv: DEFAULT_MIX_LINEAR_TV,
        }
    }
}

/// The startup configuration is well-formed.
pub proof fn lemma_default_params_wf()
    ensures
        default_params().wf(),
{
    assert(0x3F66_6666u32 & 0x7F80_0000u32 != 0x7F80_0000u32) by (bit_vector);
    assert(0x3F80_0000u32 & 0x7F80_0000u32 != 0x7F80_0000u32) by (bit_vector);
    assert(0x0000_0000u32 & 0x7F80_0000u32 != 0x7F80_0000u32) by (bit_vector);
    assert(0x3E4C_CCCDu32 & 0x7F80_0000u32 != 0x7F80_0000u32) by (bit_vector);
}

/// The value [`Default::default`] returns.
pub open spec fn default_params() -> Params {
    Params {
        invert: true,
        fade: DEFAULT_FADE,
        permute_colors: true,
        color_cycle_rate: DEFAULT_COLOR_CYCLE_RATE,
        mix_linear: DEFAULT_MIX_LINEAR,
        mix_linear_tv: DEFAULT_MIX_LINEAR_TV,
    }
}

/// Holds the current [`Params`] for one owner: the control channel replaces
/// the whole record, the render loop copies a snapshot once per frame.
/// Replacement is wholesale, so a snapshot taken after a replacement is
/// exactly the replaced record — nothing partial can be observed.
/// [`crate::shared::SharedParameterStore`] adds the lock that lets the two
/// roles live on different threads.
pub struct ParameterStore {
    params: Params,
}

impl ParameterStore {
    /// The record currently held.
    pub closed spec fn current(self) -> Params {
        self.params
    }

    /// Every record that enters the store is well-formed.
    pub closed spec fn wf(self) -> bool {
        self.params.wf()
    }

    pub fn new(initial: Params) -> (s: ParameterStore)
        requires
            initial.wf(),
        ensures
            s.current() == initial,
            s.wf(),
    {
        ParameterStore { params: initial }
    }

    /// Overwrite the held record with `new_params`, as one whole value.
    pub fn replace(&mut self, new_params: Params)
        requires
            old(self).wf(),
            new_params.wf(),
        ensures
            final(self).current() == new_params,
            final(self).wf(),
    {
        self.params = new_params;
    }

    /// Copy the held record out by value; the store is not disturbed.
    pub fn read_snapshot(&self) -> (p: Params)
        requires
            self.wf(),
        ensures
            p == self.current(),
            p.wf(),
    {
        self.params
    }
}

} // verus!
