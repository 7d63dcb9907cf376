//! Routing of one frame's batch of platform events.
//!
//! Events are consumed once per frame, in emission order, in a single pass:
//! a window-close request marks the loop for termination, a pointer move or
//! an active touch re-derives the feedback seed from its position, and a
//! press of the capture key requests a screenshot. Nothing is buffered
//! across frames; when several position events arrive in one batch the last
//! one wins, as befits a live input rather than an event log.

use vstd::prelude::*;
use crate::mapper::{
    pixel_to_plane, plane_coord, PlanePoint, MAX_PIXEL_MAGNITUDE, MAX_SURFACE_EXTENT,
};

verus! {

/// Phase of a touch sequence.
#[derive(Clone, Copy, Debug, PartialEq, Eq, Structural)]
pub enum TouchPhase {
    Started,
    Moved,
    Ended,
    Cancelled,
}

/// The keys the engine tells apart: the capture key and everything else.
#[derive(Clone, Copy, Debug, PartialEq, Eq, Structural)]
pub enum KeyCode {
    S,
    Other,
}

/// One platform event, reduced to what the engine reads of it.
#[derive(Clone, Copy, Debug)]
pub enum InputEvent {
    /// The window was asked to close.
    Closed,
    /// The pointer moved to a pixel position.
    PointerMoved { x: i64, y: i64 },
    /// A touch changed, at a pixel position.
    Touch { phase: TouchPhase, x: i64, y: i64 },
    /// A key changed state; the platform may not name a key.
    Key { pressed: bool, code: Option<KeyCode> },
    /// Anything else; ignored by design.
    Other,
}

/// Whether `e` re-derives the feedback seed: a pointer move, or a touch
/// starting or moving. Ended or cancelled touches do not.
pub open spec fn is_seed_event(e: InputEvent) -> bool {
    match e {
        InputEvent::PointerMoved { .. } => true,
        InputEvent::Touch { phase, .. } => phase == TouchPhase::Started || phase
            == TouchPhase::Moved,
        _ => false,
    }
}

/// The pixel position a seed event carries.
pub open spec fn seed_event_pos(e: InputEvent) -> (int, int) {
    match e {
        InputEvent::PointerMoved { x, y } => (x as int, y as int),
        InputEvent::Touch { x, y, .. } => (x as int, y as int),
        _ => (0, 0),
    }
}

/// Whether `e` asks the loop to terminate.
pub open spec fn is_close_event(e: InputEvent) -> bool {
    e is Closed
}

/// Whether `e` requests a screenshot: the capture key going down.
pub open spec fn is_capture_event(e: InputEvent) -> bool {
    e == (InputEvent::Key { pressed: true, code: Some(KeyCode::S) })
}

/// The seed a seed event at position `(x, y)` maps to on a `w x h` surface.
pub open spec fn seed_of_event(e: InputEvent, w: int, h: int) -> PlanePoint {
    PlanePoint {
        re: plane_coord(seed_event_pos(e).0, w) as i64,
        im: plane_coord(seed_event_pos(e).1, h) as i64,
    }
}

/// What routing one batch decides for the frame.
#[derive(Clone, Copy, Debug, PartialEq, Eq, Structural)]
pub struct RoutedFrame {
    /// Terminate the loop once this frame is done.
    pub close: bool,
    /// Capture the shown image this frame.
    pub capture: bool,
    /// The feedback seed after the batch.
    pub seed: PlanePoint,
}

/// Routing a batch, one event at a time in emission order: close and
/// capture requests accumulate, the seed follows the latest seed event.
pub open spec fn spec_route(events: Seq<InputEvent>, seed: PlanePoint, w: int, h: int) -> RoutedFrame
    decreases events.len(),
{
    if events.len() == 0 {
        RoutedFrame { close: false, capture: false, seed }
    } else {
        let prev = spec_route(events.drop_last(), seed, w, h);
        let e = events.last();
        RoutedFrame {
            close: prev.close || is_close_event(e),
            capture: prev.capture || is_capture_event(e),
            seed: if is_seed_event(e) {
                seed_of_event(e, w, h)
            } else {
                prev.seed
            },
        }
    }
}

/// A pixel position a platform event may carry: 32 bits per axis.
pub open spec fn event_in_range(e: InputEvent) -> bool {
    -MAX_PIXEL_MAGNITUDE <= seed_event_pos(e).0 <= MAX_PIXEL_MAGNITUDE
        && -MAX_PIXEL_MAGNITUDE <= seed_event_pos(e).1 <= MAX_PIXEL_MAGNITUDE
}

/// Route one frame's batch over a `width x height` surface, starting from
/// the current seed.
pub fn route_events(events: &Vec<InputEvent>, seed: PlanePoint, width: i64, height: i64) -> (r:
    RoutedFrame)
    requires
        2 <= width <= MAX_SURFACE_EXTENT,
        2 <= height <= MAX_SURFACE_EXTENT,
        forall|i: int| 0 <= i < events@.len() ==> event_in_range(#[trigger] events@[i]),
    ensures
        r == spec_route(events@, seed, width as int, height as int),
{
    let ghost w = width as int;
    let ghost h = height as int;
    let mut routed = RoutedFrame { close: false, capture: false, seed };
    let mut idx: usize = 0;
    while idx < events.len()
        invariant
            0 <= idx <= events@.len(),
            w == width as int,
            h == height as int,
            2 <= width <= MAX_SURFACE_EXTENT,
            2 <= height <= MAX_SURFACE_EXTENT,
            forall|i: int| 0 <= i < events@.len() ==> event_in_range(#[trigger] events@[i]),
            routed == spec_route(events@.take(idx as int), seed, w, h),
        decreases events@.len() - idx,
    {
        let e = events[idx];
        match e {
            InputEvent::Closed => {
                routed.close = true;
            },
            InputEvent::PointerMoved { x, y } => {
                routed.seed = pixel_to_plane(x, y, width, height);
            },
            InputEvent::Touch { phase, x, y } => {
                match phase {
                    TouchPhase::Started | TouchPhase::Moved => {
                        routed.seed = pixel_to_plane(x, y, width, height);
                    },
                    _ => {},
                }
            },
            InputEvent::Key { pressed, code } => {
                match code {
                    Some(KeyCode::S) => {
                        if pressed {
                            routed.capture = true;
                        }
                    },
                    _ => {},
                }
            },
            InputEvent::Other => {},
        }
        idx = idx + 1;
        proof {
            let cur = events@.take(idx as int);
            assert(cur.drop_last() =~= events@.take(idx as int - 1));
            assert(cur.last() == events@[idx as int - 1]);
            let e0 = events@[idx as int - 1];
            if is_seed_event(e0) {
                assert(routed.seed.re as int == plane_coord(seed_event_pos(e0).0, w));
                assert(routed.seed.im as int == plane_coord(seed_event_pos(e0).1, h));
                assert(routed.seed.re == plane_coord(seed_event_pos(e0).0, w) as i64);
                assert(routed.seed.im == plane_coord(seed_event_pos(e0).1, h) as i64);
            }
        }
    }
    proof {
        assert(events@.take(events@.len() as int) =~= events@);
    }
    routed
}

/// A close request anywhere in the batch — however many pointer moves,
/// touches or other events stand before or after it — marks the frame for
/// termination, and nothing else does.
pub proof fn lemma_route_close(events: Seq<InputEvent>, seed: PlanePoint, w: int, h: int)
    ensures
        spec_route(events, seed, w, h).close <==> exists|i: int|
            0 <= i < events.len() && is_close_event(#[trigger] events[i]),
    decreases events.len(),
{
    if events.len() > 0 {
        lemma_route_close(events.drop_last(), seed, w, h);
        let last = events.len() - 1;
        if is_close_event(events[last]) {
            assert(spec_route(events, seed, w, h).close);
        }
        if spec_route(events.drop_last(), seed, w, h).close {
            let i = choose|i: int|
                0 <= i < events.drop_last().len() && is_close_event(
                    #[trigger] events.drop_last()[i],
                );
            assert(is_close_event(events[i]));
        }
        if !spec_route(events, seed, w, h).close {
            assert(forall|i: int|
                0 <= i < events.len() - 1 ==> events.drop_last()[i] == #[trigger] events[i]);
        }
    }
}

/// A press of the capture key anywhere in the batch requests a capture, and
/// nothing else does.
pub proof fn lemma_route_capture(events: Seq<InputEvent>, seed: PlanePoint, w: int, h: int)
    ensures
        spec_route(events, seed, w, h).capture <==> exists|i: int|
            0 <= i < events.len() && is_capture_event(#[trigger] events[i]),
    decreases events.len(),
{
    if events.len() > 0 {
        lemma_route_capture(events.drop_last(), seed, w, h);
        let last = events.len() - 1;
        if is_capture_event(events[last]) {
            assert(spec_route(events, seed, w, h).capture);
        }
        if spec_route(events.drop_last(), seed, w, h).capture {
            let i = choose|i: int|
                0 <= i < events.drop_last().len() && is_capture_event(
                    #[trigger] events.drop_last()[i],
                );
            assert(is_capture_event(events[i]));
        }
        if !spec_route(events, seed, w, h).capture {
            assert(forall|i: int|
                0 <= i < events.len() - 1 ==> events.drop_last()[i] == #[trigger] events[i]);
        }
    }
}

/// Last write wins: when the batch holds seed events, the routed seed is
/// the mapping of the hindmost one; when it holds none, the seed is
/// untouched.
pub proof fn lemma_route_seed_last_write(events: Seq<InputEvent>, seed: PlanePoint, w: int, h: int)
    ensures
        (forall|i: int| 0 <= i < events.len() ==> !is_seed_event(#[trigger] events[i]))
            ==> spec_route(events, seed, w, h).seed == seed,
        (exists|i: int| 0 <= i < events.len() && is_seed_event(#[trigger] events[i])) ==> ({
            exists|k: int|
                {
                    &&& 0 <= k < events.len()
                    &&& is_seed_event(#[trigger] events[k])
                    &&& (forall|j: int| k < j < events.len() ==> !is_seed_event(#[trigger] events[j]))
                    &&& spec_route(events, seed, w, h).seed == seed_of_event(events[k], w, h)
                }
        }),
    decreases events.len(),
{
    if events.len() > 0 {
        lemma_route_seed_last_write(events.drop_last(), seed, w, h);
        let last = events.len() - 1;
        assert(forall|i: int|
            0 <= i < events.len() - 1 ==> events.drop_last()[i] == #[trigger] events[i]);
        if is_seed_event(events[last]) {
            assert(spec_route(events, seed, w, h).seed == seed_of_event(events[last], w, h));
            assert(forall|j: int| last < j < events.len() ==> !is_seed_event(#[trigger] events[j]));
        } else {
            if exists|i: int| 0 <= i < events.len() && is_seed_event(#[trigger] events[i]) {
                let i0 = choose|i: int| 0 <= i < events.len() && is_seed_event(#[trigger] events[i]);
                assert(i0 < last);
                assert(is_seed_event(events.drop_last()[i0]));
                let k = choose|k: int|
                    {
                        &&& 0 <= k < events.drop_last().len()
                        &&& is_seed_event(#[trigger] events.drop_last()[k])
                        &&& (forall|j: int|
                            k < j < events.drop_last().len() ==> !is_seed_event(
                                #[trigger] events.drop_last()[j],
                            ))
                        &&& spec_route(events.drop_last(), seed, w, h).seed == seed_of_event(
                            events.drop_last()[k],
                            w,
                            h,
                        )
                    };
                assert(is_seed_event(events[k]));
                assert(forall|j: int| k < j < events.len() ==> !is_seed_event(#[trigger] events[j]));
            }
        }
    }
}

} // verus!
