use azurescens::engine::{frame_step, EngineState};
use azurescens::input::InputEvent;
use azurescens::mapper::pixel_to_plane;
use azurescens::params::Params;
use azurescens::pipeline::TextureId;

#[test]
fn startup_state_matches_the_documented_defaults() {
    let s = EngineState::new();
    assert_eq!(s.buffers.read_texture(), TextureId::First);
    assert_eq!(s.seed.re, 300_000);
    assert_eq!(s.seed.im, 300_000);
    assert_eq!(s.fps.smoothed_fps, 0);
}

#[test]
fn one_iteration_plans_draws_ticks_and_routes() {
    let mut s = EngineState::new();
    let p = Params::default();
    let t0 = s.fps.last_frame_time;
    let events = vec![InputEvent::PointerMoved { x: 320, y: 240 }];
    let out = frame_step(&mut s, &p, 3.25f32.to_bits(), t0 + 16_666_666, &events, 640, 480);

    // The plan was made from the state the iteration entered with.
    assert_eq!(out.plan.first.uniforms.src, TextureId::First);
    assert_eq!(out.plan.first.uniforms.seed.re, 300_000);
    assert_eq!(out.plan.blit_src, TextureId::First);
    // The estimator advanced.
    assert_eq!(s.fps.last_frame_time, t0 + 16_666_666);
    assert!(s.fps.smoothed_fps > 0);
    // The batch updated the seed for the next frame.
    assert_eq!(s.seed, pixel_to_plane(320, 240, 640, 480));
    assert!(!out.close);
    assert!(!out.capture);
    assert!(out.fps_report.is_none());
}

#[test]
fn close_in_the_batch_still_yields_a_full_frame_plan() {
    // A close event, even preceded by pointer moves, terminates only after
    // the frame's draws: the step still hands back the whole plan.
    let mut s = EngineState::new();
    let p = Params::default();
    let t0 = s.fps.last_frame_time;
    let events = vec![
        InputEvent::PointerMoved { x: 10, y: 10 },
        InputEvent::Closed,
    ];
    let out = frame_step(&mut s, &p, 0, t0 + 1, &events, 640, 480);
    assert!(out.close);
    assert_eq!(out.plan.first.target, TextureId::Second);
    assert_eq!(out.plan.second.target, TextureId::First);
    assert_eq!(out.plan.blit_src, TextureId::First);
}

#[test]
fn seed_updates_reach_the_following_frame() {
    let mut s = EngineState::new();
    let p = Params::default();
    let t0 = s.fps.last_frame_time;
    let moved = vec![InputEvent::PointerMoved { x: 0, y: 0 }];
    frame_step(&mut s, &p, 0, t0 + 10, &moved, 100, 100);
    let none: Vec<InputEvent> = vec![];
    let out = frame_step(&mut s, &p, 0, t0 + 20, &none, 100, 100);
    assert_eq!(out.plan.first.uniforms.seed, pixel_to_plane(0, 0, 100, 100));
}

#[test]
fn fps_report_emerges_after_the_report_interval() {
    let mut s = EngineState::new();
    let p = Params::default();
    let t0 = s.fps.last_frame_time;
    let none: Vec<InputEvent> = vec![];
    let early = frame_step(&mut s, &p, 0, t0 + 1_000_000, &none, 640, 480);
    assert!(early.fps_report.is_none());
    let due = frame_step(&mut s, &p, 0, t0 + 5_000_000_000, &none, 640, 480);
    assert_eq!(due.fps_report, Some(s.fps.smoothed_fps));
}
