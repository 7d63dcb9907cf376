//! Core of a real-time video-feedback renderer: the double-buffered texture
//! ping-pong scheme, the per-frame uniform contract, the frame-rate
//! estimator, the pixel-to-complex-plane mapping, and the event routing that
//! drives them. Drawing itself happens outside; this crate decides what to
//! draw with and proves the decisions correct.

pub mod engine;
pub mod fps;
pub mod geometry;
pub mod input;
pub mod mapper;
pub mod params;
pub mod pipeline;
pub mod screenshot;
pub mod shaders;
pub mod shared;

use vstd::prelude::*;

verus! {

/// Edge length, in texels, of each of the two square feedback textures.
pub const FEEDBACK_TEXTURE_SIZE: u32 = 2048;

} // verus!
