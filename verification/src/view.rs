//! The view controller: pan position, current and target zoom, and the
//! window aspect ratio, together with the per-tick transitions (discrete
//! input events, time-based zoom interpolation, resizing) and the
//! conversion of the state into a 4x4 view-transform matrix.
//!
//! All quantities are fixed-point thousandths (see [`crate::fixed`]).

use vstd::prelude::*;

use crate::fixed::{clamp, clamp_spec, div_nonneg, SCALE};

verus! {

/// Smallest allowed target zoom (0.2 in real units): zooming out stops
/// here, so the zoom never reaches zero or turns negative.
pub const ZOOM_FLOOR: i64 = 200;

/// Largest representable zoom (a million-fold magnification); keeps all
/// derived products inside the fixed-point range.
pub const ZOOM_CEIL: i64 = 1_000_000_000;

/// Smallest representable aspect ratio (a window 10 times taller than wide).
pub const ASPECT_FLOOR: i64 = 100;

/// Largest representable aspect ratio (a window 100 times wider than tall).
pub const ASPECT_CEIL: i64 = 100_000;

/// Largest representable pan offset along either axis, in thousandths.
pub const PAN_LIMIT: i64 = 1_000_000_000_000;

/// Upper bound on the elapsed time fed into one tick, in milliseconds: a
/// stalled frame cannot produce an arbitrarily large interpolation jump.
pub const ELAPSED_CAP_MS: u32 = 670;

/// The elapsed time (in milliseconds) over which the zoom would close the
/// whole gap to its target: the interpolation fraction of one tick is
/// `elapsed / LERP_WINDOW_MS`.
pub const LERP_WINDOW_MS: i64 = 700;

/// Milliseconds per second; pan speed is stated in fractal units per second.
pub const MS_PER_SECOND: i64 = 1000;

/// A direction the user can hold to pan the view.
#[derive(Clone, Copy, Debug, PartialEq, Eq, Structural)]
pub enum PanDirection {
    Left,
    Right,
    Up,
    Down,
}

/// One discrete input event of a tick.
#[derive(Clone, Copy, Debug, PartialEq, Eq, Structural)]
pub enum InputEvent {
    /// The user asked to close the viewer; the view state ignores it.
    Quit,
    /// The window was resized to the given pixel size.
    Resize { width: u32, height: u32 },
    /// One notch of the scroll wheel; positive zooms in.
    Wheel { delta: i32 },
    /// A pan key is held for this tick.
    PanHeld { dir: PanDirection },
}

/// Everything the event loop hands the view controller for one tick.
pub struct FrameInputs {
    /// Wall-clock time since the previous tick, in milliseconds.
    pub elapsed_ms: u32,
    /// Current window width in pixels.
    pub width: u32,
    /// Current window height in pixels.
    pub height: u32,
    /// The discrete events of this tick, in the order they arrived.
    pub events: Vec<InputEvent>,
}

/// The continuous view state: pan position, current and target zoom, and
/// window aspect ratio, all in fixed-point thousandths.
pub struct ViewState {
    /// Pan offset along x, in thousandths of a fractal-space unit.
    pub pan_x: i64,
    /// Pan offset along y, in thousandths of a fractal-space unit.
    pub pan_y: i64,
    /// Current magnification, in thousandths; always positive.
    pub zoom: i64,
    /// Magnification the zoom interpolates toward; always positive.
    pub target_zoom: i64,
    /// Window aspect ratio (width / height), in thousandths.
    pub aspect: i64,
}

impl ViewState {
    /// Well-formedness: every component lies in its representable range;
    /// in particular both zooms and the aspect ratio are strictly positive.
    pub open spec fn wf(self) -> bool {
        &&& ZOOM_FLOOR <= self.zoom <= ZOOM_CEIL
        &&& ZOOM_FLOOR <= self.target_zoom <= ZOOM_CEIL
        &&& ASPECT_FLOOR <= self.aspect <= ASPECT_CEIL
        &&& -PAN_LIMIT <= self.pan_x <= PAN_LIMIT
        &&& -PAN_LIMIT <= self.pan_y <= PAN_LIMIT
    }
}

/// The aspect ratio after a resize to `width` x `height` pixels: the
/// quotient in thousandths, clamped into the representable range; a zero
/// height falls back to a square aspect instead of dividing by zero.
pub open spec fn aspect_spec(width: int, height: int) -> int {
    if height == 0 {
        SCALE as int
    } else {
        clamp_spec(width * (SCALE as int) / height, ASPECT_FLOOR as int, ASPECT_CEIL as int)
    }
}

/// The target zoom after one wheel notch of size `delta`: the target
/// changes multiplicatively by `delta` times itself, then is clamped into
/// the representable range, so it never reaches zero or turns negative.
pub open spec fn wheel_spec(target: int, delta: int) -> int {
    clamp_spec(target + delta * target, ZOOM_FLOOR as int, ZOOM_CEIL as int)
}

/// The elapsed time of one tick after clamping to the instability cap.
pub open spec fn capped_elapsed_spec(elapsed_ms: int) -> int {
    if elapsed_ms > ELAPSED_CAP_MS as int {
        ELAPSED_CAP_MS as int
    } else {
        elapsed_ms
    }
}

/// How far one held pan key moves the view in one tick, in thousandths:
/// `elapsed` seconds divided by the current zoom, so panning slows down
/// as the view zooms in.
pub open spec fn pan_step_spec(elapsed_ms: int, zoom: int) -> int {
    capped_elapsed_spec(elapsed_ms) * (SCALE as int) * (SCALE as int) / ((MS_PER_SECOND as int)
        * zoom)
}

/// The view state after one held pan key is applied for `elapsed_ms`.
pub open spec fn pan_spec(v: ViewState, dir: PanDirection, elapsed_ms: int) -> ViewState {
    let step = pan_step_spec(elapsed_ms, v.zoom as int);
    let lim = PAN_LIMIT as int;
    match dir {
        PanDirection::Left => ViewState {
            pan_x: clamp_spec(v.pan_x - step, -lim, lim) as i64,
            ..v
        },
        PanDirection::Right => ViewState {
            pan_x: clamp_spec(v.pan_x + step, -lim, lim) as i64,
            ..v
        },
        PanDirection::Up => ViewState {
            pan_y: clamp_spec(v.pan_y - step, -lim, lim) as i64,
            ..v
        },
        PanDirection::Down => ViewState {
            pan_y: clamp_spec(v.pan_y + step, -lim, lim) as i64,
            ..v
        },
    }
}

/// The view state after a single input event.
pub open spec fn event_spec(v: ViewState, e: InputEvent, elapsed_ms: int) -> ViewState {
    match e {
        InputEvent::Quit => v,
        InputEvent::Resize { width, height } => ViewState {
            aspect: aspect_spec(width as int, height as int) as i64,
            ..v
        },
        InputEvent::Wheel { delta } => ViewState {
            target_zoom: wheel_spec(v.target_zoom as int, delta as int) as i64,
            ..v
        },
        InputEvent::PanHeld { dir } => pan_spec(v, dir, elapsed_ms),
    }
}

/// The view state after a whole tick's event list, applied in order.
pub open spec fn events_spec(v: ViewState, events: Seq<InputEvent>, elapsed_ms: int) -> ViewState
    decreases events.len(),
{
    if events.len() == 0 {
        v
    } else {
        events_spec(event_spec(v, events[0], elapsed_ms), events.skip(1), elapsed_ms)
    }
}

/// The zoom after one interpolation step of `elapsed_ms` toward `target`:
/// the gap shrinks by the fraction `elapsed / LERP_WINDOW_MS` (elapsed
/// capped first), rounded up so positive time always makes progress, and
/// the result never passes the target.
pub open spec fn advance_zoom_spec(zoom: int, target: int, elapsed_ms: int) -> int {
    let factor = capped_elapsed_spec(elapsed_ms) * (SCALE as int) / (LERP_WINDOW_MS as int);
    let s = SCALE as int;
    if target >= zoom {
        let step = ((target - zoom) * factor + (s - 1)) / s;
        if zoom + step > target {
            target
        } else {
            zoom + step
        }
    } else {
        let step = ((zoom - target) * factor + (s - 1)) / s;
        if zoom - step < target {
            target
        } else {
            zoom - step
        }
    }
}

impl ViewState {
    /// The initial view: unit zoom, the pan offset and window shape the
    /// viewer starts from (an 800x600 window).
    pub fn new() -> (v: ViewState)
        ensures
            v.wf(),
            v.zoom == SCALE,
            v.target_zoom == SCALE,
            v.pan_x == SCALE,
            v.pan_y == SCALE,
            v.aspect == aspect_spec(800, 600),
    {
        ViewState { pan_x: SCALE, pan_y: SCALE, zoom: SCALE, target_zoom: SCALE, aspect: 1333 }
    }

    /// A view state built from raw components, each clamped into its
    /// representable range.
    pub fn from_parts(pan_x: i64, pan_y: i64, zoom: i64, target_zoom: i64, aspect: i64) -> (v:
        ViewState)
        ensures
            v.wf(),
            v.pan_x == clamp_spec(pan_x as int, -PAN_LIMIT as int, PAN_LIMIT as int),
            v.pan_y == clamp_spec(pan_y as int, -PAN_LIMIT as int, PAN_LIMIT as int),
            v.zoom == clamp_spec(zoom as int, ZOOM_FLOOR as int, ZOOM_CEIL as int),
            v.target_zoom == clamp_spec(target_zoom as int, ZOOM_FLOOR as int, ZOOM_CEIL as int),
            v.aspect == clamp_spec(aspect as int, ASPECT_FLOOR as int, ASPECT_CEIL as int),
    {
        ViewState {
            pan_x: clamp(pan_x, -PAN_LIMIT, PAN_LIMIT),
            pan_y: clamp(pan_y, -PAN_LIMIT, PAN_LIMIT),
            zoom: clamp(zoom, ZOOM_FLOOR, ZOOM_CEIL),
            target_zoom: clamp(target_zoom, ZOOM_FLOOR, ZOOM_CEIL),
            aspect: clamp(aspect, ASPECT_FLOOR, ASPECT_CEIL),
        }
    }

    /// Update the aspect ratio for a new window size. A zero height (or a
    /// width so small the quotient falls under the floor) is clamped or
    /// defaulted, never divided by.
    pub fn resize(&mut self, width: u32, height: u32)
        requires
            old(self).wf(),
        ensures
            final(self).wf(),
            final(self).aspect == aspect_spec(width as int, height as int),
            final(self).pan_x == old(self).pan_x,
            final(self).pan_y == old(self).pan_y,
            final(self).zoom == old(self).zoom,
            final(self).target_zoom == old(self).target_zoom,
    {
        if height == 0 {
            self.aspect = SCALE;
        } else {
            let num: i64 = (width as i64) * SCALE;
            let q: i64 = div_nonneg(num, height as i64);
            self.aspect = clamp(q, ASPECT_FLOOR, ASPECT_CEIL);
        }
    }

    /// Apply one discrete input event to the state.
    pub fn apply_event(&mut self, e: InputEvent, elapsed_ms: u32)
        requires
            old(self).wf(),
        ensures
            final(self).wf(),
            *final(self) == event_spec(*old(self), e, elapsed_ms as int),
    {
        match e {
            InputEvent::Quit => {},
            InputEvent::Resize { width, height } => {
                self.resize(width, height);
            },
            InputEvent::Wheel { delta } => {
                let d: i64 = delta as i64;
                let t: i64 = self.target_zoom;
                assert(-3_000_000_000_000_000_000 <= d * t <= 3_000_000_000_000_000_000)
                    by (nonlinear_arith)
                    requires
                        -2_147_483_648 <= d <= 2_147_483_647,
                        0 <= t <= 1_000_000_000,
                ;
                self.target_zoom = clamp(t + d * t, ZOOM_FLOOR, ZOOM_CEIL);
            },
            InputEvent::PanHeld { dir } => {
                let dt: i64 = if elapsed_ms > ELAPSED_CAP_MS {
                    ELAPSED_CAP_MS as i64
                } else {
                    elapsed_ms as i64
                };
                let num: i64 = dt * SCALE * SCALE;
                let den: i64 = MS_PER_SECOND * self.zoom;
                let step: i64 = div_nonneg(num, den);
                match dir {
                    PanDirection::Left => {
                        self.pan_x = clamp(self.pan_x - step, -PAN_LIMIT, PAN_LIMIT);
                    },
                    PanDirection::Right => {
                        self.pan_x = clamp(self.pan_x + step, -PAN_LIMIT, PAN_LIMIT);
                    },
                    PanDirection::Up => {
                        self.pan_y = clamp(self.pan_y - step, -PAN_LIMIT, PAN_LIMIT);
                    },
                    PanDirection::Down => {
                        self.pan_y = clamp(self.pan_y + step, -PAN_LIMIT, PAN_LIMIT);
                    },
                }
            },
        }
    }

    /// Advance the zoom toward the target by one tick of `elapsed_ms`
    /// milliseconds: monotone toward the target, never past it, and any
    /// positive elapsed time makes strict progress while a gap remains.
    pub fn advance(&mut self, elapsed_ms: u32)
        requires
            old(self).wf(),
        ensures
            final(self).wf(),
            final(self).zoom == advance_zoom_spec(
                old(self).zoom as int,
                old(self).target_zoom as int,
                elapsed_ms as int,
            ),
            final(self).pan_x == old(self).pan_x,
            final(self).pan_y == old(self).pan_y,
            final(self).target_zoom == old(self).target_zoom,
            final(self).aspect == old(self).aspect,
            old(self).zoom <= old(self).target_zoom ==> old(self).zoom <= final(self).zoom
                <= old(self).target_zoom,
            old(self).zoom >= old(self).target_zoom ==> old(self).target_zoom <= final(self).zoom
                <= old(self).zoom,
            elapsed_ms >= 1 && old(self).zoom < old(self).target_zoom ==> final(self).zoom > old(
                self,
            ).zoom,
            elapsed_ms >= 1 && old(self).zoom > old(self).target_zoom ==> final(self).zoom < old(
                self,
            ).zoom,
    {
        let dt: i64 = if elapsed_ms > ELAPSED_CAP_MS {
            ELAPSED_CAP_MS as i64
        } else {
            elapsed_ms as i64
        };
        let factor: i64 = div_nonneg(dt * SCALE, LERP_WINDOW_MS);
        let zoom: i64 = self.zoom;
        let target: i64 = self.target_zoom;
        if target >= zoom {
            let gap: i64 = target - zoom;
            assert(0 <= gap * factor <= 1_000_000_000_000) by (nonlinear_arith)
                requires
                    0 <= gap <= 1_000_000_000,
                    0 <= factor <= 957,
            ;
            let step: i64 = div_nonneg(gap * factor + (SCALE - 1), SCALE);
            assert(dt >= 1 && gap >= 1 ==> gap * factor >= 1) by (nonlinear_arith)
                requires
                    gap >= 0,
                    dt >= 1 ==> factor >= 1,
            ;
            if zoom + step > target {
                self.zoom = target;
            } else {
                self.zoom = zoom + step;
            }
        } else {
            let gap: i64 = zoom - target;
            assert(0 <= gap * factor <= 1_000_000_000_000) by (nonlinear_arith)
                requires
                    0 <= gap <= 1_000_000_000,
                    0 <= factor <= 957,
            ;
            let step: i64 = div_nonneg(gap * factor + (SCALE - 1), SCALE);
            assert(dt >= 1 ==> gap * factor >= 1) by (nonlinear_arith)
                requires
                    gap >= 1,
                    dt >= 1 ==> factor >= 1,
            ;
            if zoom - step < target {
                self.zoom = target;
            } else {
                self.zoom = zoom - step;
            }
        }
    }

    /// Apply a whole tick's event list in order.
    pub fn apply_input(&mut self, events: &Vec<InputEvent>, elapsed_ms: u32)
        requires
            old(self).wf(),
        ensures
            final(self).wf(),
            *final(self) == events_spec(*old(self), events@, elapsed_ms as int),
    {
        let ghost v0 = *self;
        let n: usize = events.len();
        let mut i: usize = 0;
        while i < n
            invariant
                i <= n,
                n == events@.len(),
                self.wf(),
                *self == events_spec(v0, events@.take(i as int), elapsed_ms as int),
            decreases n - i,
        {
            proof {
                assert(events@.take(i + 1) =~= events@.take(i as int).push(events@[i as int]));
                lemma_events_push(v0, events@.take(i as int), events@[i as int], elapsed_ms as int);
            }
            let e: InputEvent = events[i];
            self.apply_event(e, elapsed_ms);
            i = i + 1;
        }
        proof {
            assert(events@.take(n as int) =~= events@);
        }
    }

    /// One whole tick: the events are applied first, then the zoom
    /// advances by the elapsed time, in that order.
    pub fn tick(&mut self, inputs: &FrameInputs)
        requires
            old(self).wf(),
        ensures
            final(self).wf(),
            *final(self) == tick_spec(*old(self), inputs.events@, inputs.elapsed_ms as int),
    {
        self.apply_input(&inputs.events, inputs.elapsed_ms);
        self.advance(inputs.elapsed_ms);
    }

    /// The 4x4 view-transform matrix of this state, column-major, in
    /// thousandths: x is scaled by `-1/zoom` (mirrored), y by
    /// `1/(zoom*aspect)`, z kept, and the view is translated by the
    /// negated pan offset.
    pub fn transform_matrix(&self) -> (m: Vec<i64>)
        requires
            self.wf(),
        ensures
            m@.len() == 16,
            forall|i: int| 0 <= i < 16 ==> m@[i] == matrix_spec(*self)[i],
    {
        let z: i64 = self.zoom;
        let a: i64 = self.aspect;
        assert(0 < z * a <= 100_000_000_000_000) by (nonlinear_arith)
            requires
                200 <= z <= 1_000_000_000,
                100 <= a <= 100_000,
        ;
        let za: i64 = z * a;
        let e0: i64 = -div_nonneg(SCALE * SCALE, z);
        let e5: i64 = div_nonneg(SCALE * SCALE * SCALE, za);
        let mut m: Vec<i64> = Vec::new();
        m.push(e0);
        m.push(0i64);
        m.push(0i64);
        m.push(0i64);
        m.push(0i64);
        m.push(e5);
        m.push(0i64);
        m.push(0i64);
        m.push(0i64);
        m.push(0i64);
        m.push(SCALE);
        m.push(0i64);
        m.push(-self.pan_x);
        m.push(-self.pan_y);
        m.push(0i64);
        m.push(SCALE);
        m
    }
}

/// The view state after one whole tick: events first, then the zoom
/// interpolation step.
pub open spec fn tick_spec(v: ViewState, events: Seq<InputEvent>, elapsed_ms: int) -> ViewState {
    let after = events_spec(v, events, elapsed_ms);
    ViewState {
        zoom: advance_zoom_spec(after.zoom as int, after.target_zoom as int, elapsed_ms) as i64,
        ..after
    }
}

/// The 4x4 view-transform matrix of a state, column-major, in
/// thousandths of the real entries.
pub open spec fn matrix_spec(v: ViewState) -> Seq<int> {
    let z = v.zoom as int;
    let a = v.aspect as int;
    let s = SCALE as int;
    seq![
        -(s * s / z),
        0int,
        0int,
        0int,
        0int,
        s * s * s / (z * a),
        0int,
        0int,
        0int,
        0int,
        s,
        0int,
        -(v.pan_x as int),
        -(v.pan_y as int),
        0int,
        s,
    ]
}

/// Folding an event onto the end of a tick's event list is the same as
/// applying the earlier events first and that event last.
proof fn lemma_events_push(v: ViewState, s: Seq<InputEvent>, e: InputEvent, elapsed_ms: int)
    ensures
        events_spec(v, s.push(e), elapsed_ms) == event_spec(
            events_spec(v, s, elapsed_ms),
            e,
            elapsed_ms,
        ),
    decreases s.len(),
{
    reveal_with_fuel(events_spec, 3);
    if s.len() == 0 {
        assert(s.push(e)[0] == e);
        assert(s.push(e).skip(1) =~= Seq::<InputEvent>::empty());
        assert(events_spec(v, s.push(e), elapsed_ms) == events_spec(
            event_spec(v, e, elapsed_ms),
            s.push(e).skip(1),
            elapsed_ms,
        ));
    } else {
        assert(s.push(e)[0] == s[0]);
        assert(s.push(e).skip(1) =~= s.skip(1).push(e));
        assert(events_spec(v, s.push(e), elapsed_ms) == events_spec(
            event_spec(v, s[0], elapsed_ms),
            s.skip(1).push(e),
            elapsed_ms,
        ));
        lemma_events_push(event_spec(v, s[0], elapsed_ms), s.skip(1), e, elapsed_ms);
    }
}

/// Law: one zoom interpolation step is monotone toward the target and
/// never passes it, and any positive elapsed time makes strict progress
/// while a gap remains — so repeated steps move the zoom toward the
/// target without ever overshooting.
pub proof fn lemma_advance_zoom_monotone(zoom: int, target: int, elapsed_ms: int)
    requires
        ZOOM_FLOOR <= zoom <= ZOOM_CEIL,
        ZOOM_FLOOR <= target <= ZOOM_CEIL,
        0 <= elapsed_ms,
    ensures
        zoom <= target ==> zoom <= advance_zoom_spec(zoom, target, elapsed_ms) <= target,
        target <= zoom ==> target <= advance_zoom_spec(zoom, target, elapsed_ms) <= zoom,
        elapsed_ms >= 1 && zoom < target ==> advance_zoom_spec(zoom, target, elapsed_ms) > zoom,
        elapsed_ms >= 1 && zoom > target ==> advance_zoom_spec(zoom, target, elapsed_ms) < zoom,
{
    let dt = capped_elapsed_spec(elapsed_ms);
    let factor = dt * (SCALE as int) / (LERP_WINDOW_MS as int);
    if target >= zoom {
        let gap = target - zoom;
        assert(gap * factor >= 0) by (nonlinear_arith)
            requires
                gap >= 0,
                factor >= 0,
        ;
        assert(dt >= 1 && gap >= 1 ==> gap * factor >= 1) by (nonlinear_arith)
            requires
                gap >= 0,
                dt >= 1 ==> factor >= 1,
        ;
    } else {
        let gap = zoom - target;
        assert(gap * factor >= 0) by (nonlinear_arith)
            requires
                gap >= 0,
                factor >= 0,
        ;
        assert(dt >= 1 ==> gap * factor >= 1) by (nonlinear_arith)
            requires
                gap >= 1,
                dt >= 1 ==> factor >= 1,
        ;
    }
}

/// Law: a wheel event never drives the target zoom below the positive
/// floor, however negative the notch; a notch of -1 or beyond lands the
/// target exactly on the floor.
pub proof fn lemma_wheel_floor(target: int, delta: int)
    requires
        ZOOM_FLOOR <= target <= ZOOM_CEIL,
    ensures
        ZOOM_FLOOR <= wheel_spec(target, delta) <= ZOOM_CEIL,
        delta <= -1 ==> wheel_spec(target, delta) == ZOOM_FLOOR,
{
    assert(delta <= -1 ==> target + delta * target <= 0) by (nonlinear_arith)
        requires
            target >= 0,
    ;
}

/// Law: whatever the window size — zero width and zero height included —
/// the aspect ratio after a resize lies in its positive range; a resize
/// never divides by zero.
pub proof fn lemma_aspect_in_range(width: int, height: int)
    requires
        0 <= width,
        0 <= height,
    ensures
        ASPECT_FLOOR <= aspect_spec(width, height) <= ASPECT_CEIL,
{
}

} // verus!
