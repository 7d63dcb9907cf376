use azurescens::mapper::PlanePoint;
use azurescens::params::Params;
use azurescens::pipeline::{plan_frame, DoubleBuffer, TextureId};

#[test]
fn swap_parity_restores_roles_after_even_sub_passes() {
    let mut b = DoubleBuffer::new();
    let began_as_read = b.read_texture();
    assert_eq!(began_as_read, TextureId::First);
    for pass in 1..=8u32 {
        b.swap();
        if pass % 2 == 0 {
            assert_eq!(b.read_texture(), began_as_read);
        } else {
            assert_eq!(b.write_texture(), began_as_read);
        }
    }
}

#[test]
fn frame_plan_ping_pongs_and_blits_the_second_target() {
    let mut b = DoubleBuffer::new();
    let p = Params::default();
    let seed = PlanePoint { re: 300_000, im: 300_000 };
    let plan = plan_frame(&mut b, &p, seed, 42);
    // First sub-pass: sample the current content, draw into the other
    // texture.
    assert_eq!(plan.first.uniforms.src, TextureId::First);
    assert_eq!(plan.first.target, TextureId::Second);
    // Second sub-pass: roles exchanged.
    assert_eq!(plan.second.uniforms.src, TextureId::Second);
    assert_eq!(plan.second.target, TextureId::First);
    // The blit shows what the second sub-pass wrote.
    assert_eq!(plan.blit_src, TextureId::First);
    // Two sub-passes leave the role assignment as it was.
    assert_eq!(b.read_texture(), TextureId::First);
}

#[test]
fn uniforms_carry_the_snapshot_unchanged() {
    let mut b = DoubleBuffer::new();
    let p = Params::default();
    let seed = PlanePoint { re: -123_456, im: 654_321 };
    let time = 17.5f32.to_bits();
    let plan = plan_frame(&mut b, &p, seed, time);
    for pass in [&plan.first, &plan.second] {
        let u = &pass.uniforms;
        assert_eq!(u.scale_millionths, 1_400_000);
        assert_eq!(u.seed, seed);
        assert_eq!(u.time, time);
        assert_eq!(u.invert, p.invert);
        assert_eq!(u.permute_colors, p.permute_colors);
        assert_eq!(u.fade, p.fade);
        assert_eq!(u.color_cycle_rate, p.color_cycle_rate);
        assert_eq!(u.mix_linear, p.mix_linear);
        assert_eq!(u.mix_linear_tv, p.mix_linear_tv);
    }
}

#[test]
fn control_update_reaches_the_next_frame_and_nothing_else_moves() {
    // Starting from the defaults, replace invert with false and fade with
    // one half; the next frame's feedback uniforms reflect exactly that.
    let defaults = Params::default();
    let mut updated = defaults;
    updated.invert = false;
    updated.fade = 0.5f32.to_bits();

    let mut b = DoubleBuffer::new();
    let seed = PlanePoint { re: 300_000, im: 300_000 };
    let before = plan_frame(&mut b, &defaults, seed, 7);
    let after = plan_frame(&mut b, &updated, seed, 7);

    for (u_after, u_before) in [
        (&after.first.uniforms, &before.first.uniforms),
        (&after.second.uniforms, &before.second.uniforms),
    ] {
        assert!(!u_after.invert);
        assert_eq!(u_after.fade, 0.5f32.to_bits());
        // Every other field is exactly what the previous snapshot gave.
        assert_eq!(u_after.src, u_before.src);
        assert_eq!(u_after.scale_millionths, u_before.scale_millionths);
        assert_eq!(u_after.seed, u_before.seed);
        assert_eq!(u_after.time, u_before.time);
        assert_eq!(u_after.permute_colors, u_before.permute_colors);
        assert_eq!(u_after.color_cycle_rate, u_before.color_cycle_rate);
        assert_eq!(u_after.mix_linear, u_before.mix_linear);
        assert_eq!(u_after.mix_linear_tv, u_before.mix_linear_tv);
    }
    assert_eq!(after.first.target, before.first.target);
    assert_eq!(after.second.target, before.second.target);
    assert_eq!(after.blit_src, before.blit_src);
}
