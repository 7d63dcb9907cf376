use azurescens::mapper::{pixel_to_plane, pixel_to_plane_axis, PlanePoint};

const SCALE: f32 = 1.4;

#[test]
fn corners_map_to_scale_extremes() {
    // First and last pixel of each axis, over a spread of surface sizes.
    for &(w, h) in &[(2i64, 2i64), (3, 5), (100, 100), (640, 480), (2048, 2048)] {
        let top_left = pixel_to_plane(0, 0, w, h);
        assert_eq!(top_left, PlanePoint { re: -1_400_000, im: -1_400_000 });
        let bottom_right = pixel_to_plane(w - 1, h - 1, w, h);
        assert_eq!(bottom_right, PlanePoint { re: 1_400_000, im: 1_400_000 });
    }
}

#[test]
fn midpoint_maps_near_zero() {
    for &(w, h) in &[(3i64, 3i64), (101, 51), (641, 481), (2048, 2048), (4, 4)] {
        let mid = pixel_to_plane((w - 1) / 2, (h - 1) / 2, w, h);
        // Within one quotient step of zero: at most SCALE / (extent - 1).
        assert!(mid.re.abs() <= 1_400_000 / (w - 1));
        assert!(mid.im.abs() <= 1_400_000 / (h - 1));
        if w % 2 == 1 {
            assert_eq!(mid.re, 0);
        }
        if h % 2 == 1 {
            assert_eq!(mid.im, 0);
        }
    }
}

#[test]
fn axis_matches_floating_point_formula() {
    // The integer mapping agrees with the floating-point formula
    // (x / (extent - 1) * 2 - 1) * SCALE to well within rounding error.
    for &extent in &[2i64, 3, 7, 100, 1023, 2048] {
        for &px in &[0i64, 1, extent / 3, extent / 2, extent - 2, extent - 1] {
            let c = pixel_to_plane_axis(px, extent);
            let expected = (px as f32 / ((extent - 1) as f32) * 2.0 - 1.0) * SCALE;
            let got = c as f32 / 1_000_000.0;
            assert!(
                (got - expected).abs() < 2e-5,
                "px={} extent={} got={} expected={}",
                px,
                extent,
                got,
                expected
            );
        }
    }
}

#[test]
fn on_surface_pixels_stay_inside_the_scale_square() {
    for &extent in &[2i64, 3, 64, 481, 2048] {
        for px in 0..extent.min(64) {
            let c = pixel_to_plane_axis(px, extent);
            assert!((-1_400_000..=1_400_000).contains(&c));
        }
        let c = pixel_to_plane_axis(extent - 1, extent);
        assert!((-1_400_000..=1_400_000).contains(&c));
    }
}

#[test]
fn offscreen_positions_extrapolate() {
    // Pointer positions outside the surface still map, beyond the scale
    // square, following the same formula.
    let left = pixel_to_plane_axis(-50, 101);
    assert_eq!(left, (2 * -50 - 100) * 1_400_000 / 100);
    assert!(left < -1_400_000);
    let right = pixel_to_plane_axis(150, 101);
    assert!(right > 1_400_000);
}
