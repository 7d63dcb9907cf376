//! Maps a pixel position on a surface to a point of the complex plane.
//!
//! The visible surface and the feedback textures are read as the square
//! `(-SCALE..SCALE) + i*(-SCALE..SCALE)` of the complex plane. Plane
//! coordinates are carried in millionths of a unit, so `SCALE = 1.4` is the
//! integer `SCALE_MILLIONTHS`. Per axis the mapping is
//! `coord = (pixel / (extent - 1) * 2 - 1) * SCALE`, evaluated here as
//! `(2 * pixel - (extent - 1)) * SCALE_MILLIONTHS / (extent - 1)` with the
//! quotient rounded toward zero.

use vstd::prelude::*;
use vstd::arithmetic::div_mod::{lemma_div_is_ordered, lemma_div_multiples_vanish, lemma_fundamental_div_mod};

verus! {

/// Millionths of a plane unit per unit.
pub const PLANE_UNIT_MILLIONTHS: i64 = 1_000_000;

/// Half-width of the plane square each axis maps onto: `1.4` units.
pub const SCALE_MILLIONTHS: i64 = 1_400_000;

/// Largest pixel magnitude the mapping accepts; pointer coordinates are
/// 32-bit, so this is never a real constraint.
pub const MAX_PIXEL_MAGNITUDE: i64 = 0x1_0000_0000;

/// Largest surface extent the mapping accepts, in pixels per axis.
pub const MAX_SURFACE_EXTENT: i64 = 0x1_0000_0000;

/// A point of the complex plane, in millionths of a unit per axis.
#[derive(Clone, Copy, Debug, PartialEq, Eq, Structural)]
pub struct PlanePoint {
    pub re: i64,
    pub im: i64,
}

/// The plane coordinate, in millionths, that pixel `px` on an axis of
/// `extent` pixels maps to: `(2*px - (extent-1)) * SCALE / (extent-1)`,
/// rounded toward zero.
pub open spec fn plane_coord(px: int, extent: int) -> int
    recommends
        extent >= 2,
{
    let d = extent - 1;
    let n = 2 * px - d;
    if n >= 0 {
        (n * (SCALE_MILLIONTHS as int)) / d
    } else {
        -(((-n) * (SCALE_MILLIONTHS as int)) / d)
    }
}

/// Map one axis: pixel `px` on an axis of `extent` pixels.
pub fn pixel_to_plane_axis(px: i64, extent: i64) -> (c: i64)
    requires
        2 <= extent <= MAX_SURFACE_EXTENT,
        -MAX_PIXEL_MAGNITUDE <= px <= MAX_PIXEL_MAGNITUDE,
    ensures
        c == plane_coord(px as int, extent as int),
{
    let d = extent - 1;
    let n = 2 * px - d;
    if n >= 0 {
        (n * SCALE_MILLIONTHS) / d
    } else {
        -(((-n) * SCALE_MILLIONTHS) / d)
    }
}

/// Map a pixel position to its point of the complex plane on a surface of
/// `width x height` pixels. A surface collapsed to fewer than two pixels on
/// an axis has no interior to map and is ruled out by the caller.
pub fn pixel_to_plane(px: i64, py: i64, width: i64, height: i64) -> (z: PlanePoint)
    requires
        2 <= width <= MAX_SURFACE_EXTENT,
        2 <= height <= MAX_SURFACE_EXTENT,
        -MAX_PIXEL_MAGNITUDE <= px <= MAX_PIXEL_MAGNITUDE,
        -MAX_PIXEL_MAGNITUDE <= py <= MAX_PIXEL_MAGNITUDE,
    ensures
        z.re == plane_coord(px as int, width as int),
        z.im == plane_coord(py as int, height as int),
{
    PlanePoint { re: pixel_to_plane_axis(px, width), im: pixel_to_plane_axis(py, height) }
}

/// The first pixel of an axis maps exactly onto `-SCALE`, the last exactly
/// onto `SCALE`.
pub proof fn lemma_plane_coord_corners(extent: int)
    requires
        extent >= 2,
    ensures
        plane_coord(0, extent) == -(SCALE_MILLIONTHS as int),
        plane_coord(extent - 1, extent) == SCALE_MILLIONTHS as int,
{
    let d = extent - 1;
    lemma_div_multiples_vanish(SCALE_MILLIONTHS as int, d);
    assert(d * (SCALE_MILLIONTHS as int) == (SCALE_MILLIONTHS as int) * d) by (nonlinear_arith);
}

/// A pixel on the surface maps into the scale square: for
/// `0 <= px <= extent - 1` the coordinate lies in `[-SCALE, SCALE]`.
pub proof fn lemma_plane_coord_in_range(px: int, extent: int)
    requires
        extent >= 2,
        0 <= px <= extent - 1,
    ensures
        -(SCALE_MILLIONTHS as int) <= plane_coord(px, extent) <= SCALE_MILLIONTHS as int,
{
    let d = extent - 1;
    let n = 2 * px - d;
    let sc = SCALE_MILLIONTHS as int;
    assert(-d <= n <= d);
    if n >= 0 {
        assert(n * sc <= d * sc) by (nonlinear_arith)
            requires
                n <= d,
                sc > 0,
        ;
        lemma_div_is_ordered(n * sc, d * sc, d);
        lemma_div_multiples_vanish(sc, d);
        assert(d * sc == sc * d) by (nonlinear_arith);
        assert((n * sc) / d >= 0) by (nonlinear_arith)
            requires
                n >= 0,
                sc > 0,
                d > 0,
        ;
    } else {
        assert((-n) * sc <= d * sc) by (nonlinear_arith)
            requires
                -n <= d,
                sc > 0,
        ;
        lemma_div_is_ordered((-n) * sc, d * sc, d);
        lemma_div_multiples_vanish(sc, d);
        assert(d * sc == sc * d) by (nonlinear_arith);
        assert(((-n) * sc) / d >= 0) by (nonlinear_arith)
            requires
                -n > 0,
                sc > 0,
                d > 0,
        ;
    }
}

/// The middle pixel of an axis maps onto zero when the axis has an odd
/// number of pixels, and within one quotient step below zero otherwise:
/// either way its coordinate is no farther from zero than
/// `SCALE / (extent - 1)` millionths.
pub proof fn lemma_plane_coord_midpoint(extent: int)
    requires
        extent >= 2,
    ensures
        extent % 2 == 1 ==> plane_coord((extent - 1) / 2, extent) == 0,
        extent % 2 == 0 ==> plane_coord((extent - 1) / 2, extent) == -((SCALE_MILLIONTHS as int)
            / (extent - 1)),
        -((SCALE_MILLIONTHS as int) / (extent - 1)) <= plane_coord((extent - 1) / 2, extent)
            <= 0,
{
    let d = extent - 1;
    let m = d / 2;
    lemma_fundamental_div_mod(d, 2);
    assert(d == 2 * m + d % 2);
    if extent % 2 == 1 {
        assert(d % 2 == 0);
        assert(2 * m - d == 0);
        assert(plane_coord(m, extent) == (0 * (SCALE_MILLIONTHS as int)) / d);
        assert(0 * (SCALE_MILLIONTHS as int) == 0) by (nonlinear_arith);
        assert((0int) / d == 0) by (nonlinear_arith)
            requires
                d >= 1,
        ;
    } else {
        assert(d % 2 == 1);
        assert(2 * m - d == -1);
        assert(plane_coord(m, extent) == -((1 * (SCALE_MILLIONTHS as int)) / d));
        assert(1 * (SCALE_MILLIONTHS as int) == SCALE_MILLIONTHS as int) by (nonlinear_arith);
        assert((SCALE_MILLIONTHS as int) / d >= 0) by (nonlinear_arith)
            requires
                d >= 1,
        ;
    }
}

} // verus!
