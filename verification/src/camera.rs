//! Contains the [Camera] struct and related constants.
//!
//! The camera orbits the origin. Its state is five scalars: field of view,
//! a drag-enabled flag, and the roll / pitch / distance of the orbit.
//! Angles are measured in millionths of a turn, distances in thousandths
//! of a unit; the shell converts both to radians and floating-point world
//! units when it builds the view matrices.

use vstd::prelude::*;
use vstd::arithmetic::div_mod::lemma_mod_multiples_vanish;

verus! {

/// One full turn, in angle units (millionths of a turn).
pub const TURN: i32 = 1_000_000;

/// A quarter turn: a right angle.
pub const QUARTER_TURN: i32 = 250_000;

/// Angle change per pointer count while dragging: one five-hundredth of a turn.
pub const DRAG_STEP: i32 = 2_000;

/// Margin kept between the roll and a full quarter turn, to avoid gimbal flip.
pub const ROLL_EPSILON: i32 = 160;

/// Largest magnitude the roll may reach.
pub const ROLL_LIMIT: i32 = QUARTER_TURN - ROLL_EPSILON;

/// Avoids a camera distance of zero, messing up math elsewhere.
pub const MIN_ZOOM: i32 = 1_000;

/// Reasonable far plane distance.
pub const MAX_ZOOM: i32 = 400_000;

/// Distance change per wheel count.
pub const WHEEL_STEP: i32 = 3_000;

/// Default field of view: an eighth of a turn.
pub const DEFAULT_FOV: i32 = 125_000;

/// Default pitch: an eighth of a turn.
pub const DEFAULT_PITCH: i32 = 125_000;

/// Default orbit distance.
pub const DEFAULT_DIST: i32 = 5_000;

/// An orbit camera around the origin.
#[derive(Debug, Clone, Copy, PartialEq, Eq, Structural)]
pub struct Camera {
    pub fov: i32,
    pub mousedown: bool,
    pub roll: i32,
    pub pitch: i32,
    pub dist: i32,
}

/// A pointer or wheel event, as the event loop hands it to the camera.
#[derive(Debug, Clone, Copy, PartialEq, Eq, Structural)]
pub enum CameraEvent {
    MouseDown,
    MouseUp,
    MouseMove { xrel: i32, yrel: i32 },
    MouseWheel { y: i32 },
    SetDist { dist: i32 },
}

/// `x` forced into the interval `[lo, hi]`.
pub open spec fn clamped(x: int, lo: int, hi: int) -> int {
    if x < lo {
        lo
    } else if x > hi {
        hi
    } else {
        x
    }
}

/// `x` wrapped into `[0, TURN)`.
pub open spec fn wrapped_turn(x: int) -> int {
    x % (TURN as int)
}

/// Pitch after a drag of `xrel` counts: a step per count, wrapped modulo one turn.
pub open spec fn moved_pitch(pitch: int, xrel: int) -> int {
    wrapped_turn(pitch - (DRAG_STEP as int) * xrel)
}

/// Roll after a drag of `yrel` counts: a step per count, clamped short of a
/// quarter turn in either direction.
pub open spec fn moved_roll(roll: int, yrel: int) -> int {
    clamped(roll - (DRAG_STEP as int) * yrel, -(ROLL_LIMIT as int), ROLL_LIMIT as int)
}

/// Distance after a wheel count of `y`, clamped to the zoom range.
pub open spec fn wheeled_dist(dist: int, y: int) -> int {
    clamped(dist - (WHEEL_STEP as int) * y, MIN_ZOOM as int, MAX_ZOOM as int)
}

impl Camera {
    /// The camera's invariant: distance within the zoom range, roll short of a
    /// quarter turn, pitch within one turn.
    pub open spec fn wf(self) -> bool {
        &&& MIN_ZOOM <= self.dist <= MAX_ZOOM
        &&& -ROLL_LIMIT <= self.roll <= ROLL_LIMIT
        &&& 0 <= self.pitch < TURN
    }

    /// The camera state after one event.
    pub open spec fn after(self, event: CameraEvent) -> Camera {
        match event {
            CameraEvent::MouseDown => Camera { mousedown: true, ..self },
            CameraEvent::MouseUp => Camera { mousedown: false, ..self },
            CameraEvent::MouseMove { xrel, yrel } => {
                if self.mousedown {
                    Camera {
                        pitch: moved_pitch(self.pitch as int, xrel as int) as i32,
                        roll: moved_roll(self.roll as int, yrel as int) as i32,
                        ..self
                    }
                } else {
                    self
                }
            },
            CameraEvent::MouseWheel { y } => {
                Camera { dist: wheeled_dist(self.dist as int, y as int) as i32, ..self }
            },
            CameraEvent::SetDist { dist } => {
                Camera {
                    dist: clamped(dist as int, MIN_ZOOM as int, MAX_ZOOM as int) as i32,
                    ..self
                }
            },
        }
    }

    /// The camera state after a sequence of events, applied left to right.
    pub open spec fn after_all(self, events: Seq<CameraEvent>) -> Camera
        decreases events.len(),
    {
        if events.len() == 0 {
            self
        } else {
            self.after(events[0]).after_all(events.subrange(1, events.len() as int))
        }
    }

    /// Initialize a new [Camera] with default values.
    pub fn new() -> (cam: Camera)
        ensures
            cam == (Camera {
                fov: DEFAULT_FOV,
                mousedown: false,
                roll: 0,
                pitch: DEFAULT_PITCH,
                dist: DEFAULT_DIST,
            }),
            cam.wf(),
    {
        Camera {
            fov: DEFAULT_FOV,
            mousedown: false,
            roll: 0,
            pitch: DEFAULT_PITCH,
            dist: DEFAULT_DIST,
        }
    }

    /// Informs the camera that the mouse button is held down, to enable camera
    /// movement.
    pub fn mousedown(&mut self)
        ensures
            *final(self) == old(self).after(CameraEvent::MouseDown),
            old(self).wf() ==> final(self).wf(),
    {
        self.mousedown = true;
    }

    /// Informs the camera that the mouse button is no longer being held down,
    /// to disable camera movement.
    pub fn mouseup(&mut self)
        ensures
            *final(self) == old(self).after(CameraEvent::MouseUp),
            old(self).wf() ==> final(self).wf(),
    {
        self.mousedown = false;
    }

    /// Mouse movement handler. Returns true if the camera view has changed.
    pub fn mousemove(&mut self, xrel: i32, yrel: i32) -> (changed: bool)
        ensures
            *final(self) == old(self).after(CameraEvent::MouseMove { xrel, yrel }),
            changed == old(self).mousedown,
            old(self).wf() ==> final(self).wf(),
    {
        if !self.mousedown {
            return false;
        }
        self.pitch = wrap_turn(self.pitch as i64 - scaled_step(DRAG_STEP, xrel));
        self.roll = clamp_wide(
            self.roll as i64 - scaled_step(DRAG_STEP, yrel),
            -ROLL_LIMIT,
            ROLL_LIMIT,
        );
        true
    }

    /// Informs the camera that the mousewheel has been scrolled, to enable
    /// camera zoom.
    pub fn mousewheel(&mut self, y: i32)
        ensures
            *final(self) == old(self).after(CameraEvent::MouseWheel { y }),
            old(self).wf() ==> final(self).wf(),
    {
        self.dist = clamp_wide(self.dist as i64 - scaled_step(WHEEL_STEP, y), MIN_ZOOM, MAX_ZOOM);
    }

    /// Manually sets the camera distance from origin.
    pub fn set_dist(&mut self, dist: i32)
        ensures
            *final(self) == old(self).after(CameraEvent::SetDist { dist }),
            old(self).wf() ==> final(self).wf(),
    {
        self.dist = clamp_wide(dist as i64, MIN_ZOOM, MAX_ZOOM);
    }
}

/// The product `step * rel`, widened so that it cannot overflow.
fn scaled_step(step: i32, rel: i32) -> (d: i64)
    requires
        0 <= step <= 100_000,
    ensures
        d == (step as int) * (rel as int),
        -1_000_000_000_000_000 <= d <= 1_000_000_000_000_000,
{
    proof {
        assert((step as int) * (rel as int) <= 1_000_000_000_000_000
            && (step as int) * (rel as int) >= -1_000_000_000_000_000) by (nonlinear_arith)
            requires
                0 <= step as int <= 100_000,
                -2_147_483_648 <= rel as int <= 2_147_483_647,
        ;
    }
    (step as i64) * (rel as i64)
}

/// `x` forced into `[lo, hi]`, narrowing from the wide type used for the
/// intermediate arithmetic.
fn clamp_wide(x: i64, lo: i32, hi: i32) -> (r: i32)
    requires
        lo <= hi,
    ensures
        r == clamped(x as int, lo as int, hi as int),
{
    if x < lo as i64 {
        lo
    } else if x > hi as i64 {
        hi
    } else {
        x as i32
    }
}

/// `x` wrapped into `[0, TURN)`. The input is shifted into nonnegative range
/// first, which leaves the remainder unchanged.
fn wrap_turn(x: i64) -> (r: i32)
    requires
        -2_000_000_000_000_000 <= x <= 2_000_000_000_000_000,
    ensures
        r == wrapped_turn(x as int),
{
    let shifted: i64 = x + 2_000_000_000 * (TURN as i64);
    proof {
        lemma_mod_multiples_vanish(2_000_000_000, x as int, TURN as int);
    }
    let m: i64 = shifted % (TURN as i64);
    m as i32
}

/// Drag gating law: pointer motion while the button is up (before any press,
/// or after a release) leaves the camera unchanged and reports no change.
pub proof fn lemma_drag_gating(cam: Camera, xrel: i32, yrel: i32)
    requires
        !cam.mousedown,
    ensures
        cam.after(CameraEvent::MouseMove { xrel, yrel }) == cam,
        cam.after(CameraEvent::MouseUp).after(CameraEvent::MouseMove { xrel, yrel })
            == cam.after(CameraEvent::MouseUp),
{
}

/// Drag gating law, sequence form: any number of pointer motions before the
/// first press leaves the camera exactly as it was.
pub proof fn lemma_drag_gating_sequence(cam: Camera, events: Seq<CameraEvent>)
    requires
        !cam.mousedown,
        forall|i: int| 0 <= i < events.len() ==> #[trigger] events[i] is MouseMove,
    ensures
        cam.after_all(events) == cam,
    decreases events.len(),
{
    if events.len() > 0 {
        lemma_drag_gating_sequence(cam.after(events[0]), events.subrange(1, events.len() as int));
    }
}

/// Camera clamp law, single step: every event keeps the camera invariant, so
/// the distance stays within `[MIN_ZOOM, MAX_ZOOM]` and the roll within
/// `[-ROLL_LIMIT, ROLL_LIMIT]`.
pub proof fn lemma_event_keeps_wf(cam: Camera, event: CameraEvent)
    requires
        cam.wf(),
    ensures
        cam.after(event).wf(),
{
}

/// Camera clamp law: along any sequence of events from a well-formed start,
/// the distance stays within `[MIN_ZOOM, MAX_ZOOM]` and the roll within
/// `[-ROLL_LIMIT, ROLL_LIMIT]`.
pub proof fn lemma_events_keep_wf(cam: Camera, events: Seq<CameraEvent>)
    requires
        cam.wf(),
    ensures
        cam.after_all(events).wf(),
        MIN_ZOOM <= cam.after_all(events).dist <= MAX_ZOOM,
        -ROLL_LIMIT <= cam.after_all(events).roll <= ROLL_LIMIT,
    decreases events.len(),
{
    if events.len() > 0 {
        lemma_event_keeps_wf(cam, events[0]);
        lemma_events_keep_wf(cam.after(events[0]), events.subrange(1, events.len() as int));
    }
}

} // verus!
