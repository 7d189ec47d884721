//! Fixed-point plane geometry: sizes, axis-aligned bodies, the overlap test
//! used for every collision check, and the bounds predicates that decide
//! despawning and player clamping.
//!
//! All comparisons are written over doubled coordinates (`2*x` against a
//! full extent) so that half-sizes never have to be rounded.

use vstd::prelude::*;

verus! {

/// Simulation coordinates are confined to this arena; movement clamps here.
pub const COORD_LIMIT: i64 = 1_000_000_000_000;

/// Largest accepted viewport extent or sprite extent, in milli-units.
pub const EXTENT_LIMIT: i64 = 100_000_000;

/// Largest accepted speed, in milli-units per reference tick.
pub const SPEED_LIMIT: i64 = 1_000_000;

/// Largest accepted frame duration, in microseconds.
pub const DT_LIMIT: u64 = 10_000_000;

/// Movement covers `speed * dt / SPEED_DIVISOR` milli-units in `dt`
/// microseconds: 40 reference ticks per second over 1_000_000 us.
pub const SPEED_DIVISOR: u64 = 25_000;

/// Full extent of a sprite's bounding box, in milli-units.
#[derive(Clone, Copy, PartialEq, Eq, Structural, Debug)]
pub struct Size {
    pub width: i64,
    pub height: i64,
}

impl Size {
    pub open spec fn wf(self) -> bool {
        0 < self.width <= EXTENT_LIMIT && 0 < self.height <= EXTENT_LIMIT
    }
}

/// An offset relative to an owning entity, in milli-units.
#[derive(Clone, Copy, PartialEq, Eq, Structural, Debug)]
pub struct Offset {
    pub x: i64,
    pub y: i64,
}

impl Offset {
    pub open spec fn wf(self) -> bool {
        -EXTENT_LIMIT <= self.x <= EXTENT_LIMIT && -EXTENT_LIMIT <= self.y <= EXTENT_LIMIT
    }
}

/// An axis-aligned bounding box: a center position and a full size.
#[derive(Clone, Copy, PartialEq, Eq, Structural, Debug)]
pub struct Body {
    pub x: i64,
    pub y: i64,
    pub size: Size,
}

impl Body {
    pub open spec fn wf(self) -> bool {
        &&& self.size.wf()
        &&& -COORD_LIMIT <= self.x <= COORD_LIMIT
        &&& -COORD_LIMIT <= self.y <= COORD_LIMIT
    }
}

/// Strict overlap of two center-plus-full-size rectangles.
pub open spec fn overlaps(a: Body, b: Body) -> bool {
    &&& 2 * a.x - a.size.width < 2 * b.x + b.size.width
    &&& 2 * a.x + a.size.width > 2 * b.x - b.size.width
    &&& 2 * a.y - a.size.height < 2 * b.y + b.size.height
    &&& 2 * a.y + a.size.height > 2 * b.y - b.size.height
}

/// The axis-aligned bounding-box intersection test behind every collision.
pub fn collide(a: &Body, b: &Body) -> (r: bool)
    requires
        a.wf(),
        b.wf(),
    ensures
        r == overlaps(*a, *b),
{
    2 * a.x - a.size.width < 2 * b.x + b.size.width
        && 2 * a.x + a.size.width > 2 * b.x - b.size.width
        && 2 * a.y - a.size.height < 2 * b.y + b.size.height
        && 2 * a.y + a.size.height > 2 * b.y - b.size.height
}

/// The box `(y, height)` lies entirely below the bottom viewport edge.
pub open spec fn spec_past_bottom(y: int, height: int, viewport_height: int) -> bool {
    2 * y + height < -viewport_height
}

/// The box `(y, height)` lies entirely above the top viewport edge.
pub open spec fn spec_past_top(y: int, height: int, viewport_height: int) -> bool {
    2 * y - height > viewport_height
}

/// The box `(x, width)` lies entirely within the horizontal viewport span.
pub open spec fn spec_inside_x(x: int, width: int, viewport_width: int) -> bool {
    2 * x + width <= viewport_width && 2 * x - width >= -viewport_width
}

/// The box `(y, height)` lies entirely within the vertical viewport span.
pub open spec fn spec_inside_y(y: int, height: int, viewport_height: int) -> bool {
    2 * y + height <= viewport_height && 2 * y - height >= -viewport_height
}

/// A coordinate pinned back into the simulation arena.
pub open spec fn spec_confine(v: int) -> int {
    if v > COORD_LIMIT as int {
        COORD_LIMIT as int
    } else if v < -(COORD_LIMIT as int) {
        -(COORD_LIMIT as int)
    } else {
        v
    }
}

/// How far an entity with the given speed travels in `dt` microseconds.
pub open spec fn spec_travel(speed: int, dt: int) -> int {
    (speed * dt) / (SPEED_DIVISOR as int)
}

pub fn travel(speed: i64, dt: u64) -> (d: i64)
    requires
        0 < speed <= SPEED_LIMIT,
        dt <= DT_LIMIT,
    ensures
        d == spec_travel(speed as int, dt as int),
        0 <= d <= (SPEED_LIMIT as int) * (DT_LIMIT as int) / (SPEED_DIVISOR as int),
{
    proof {
        assert(speed * dt <= SPEED_LIMIT * DT_LIMIT) by (nonlinear_arith)
            requires
                0 < speed <= SPEED_LIMIT,
                0 <= dt <= DT_LIMIT,
        ;
    }
    let prod: u64 = (speed as u64) * dt;
    let d: u64 = prod / SPEED_DIVISOR;
    proof {
        assert(speed * dt / (SPEED_DIVISOR as int) <= SPEED_LIMIT * DT_LIMIT / (SPEED_DIVISOR as int))
            by (nonlinear_arith)
            requires
                0 <= speed * dt <= SPEED_LIMIT * DT_LIMIT,
        ;
    }
    d as i64
}

pub fn confine(v: i64) -> (r: i64)
    ensures
        r == spec_confine(v as int),
{
    if v > COORD_LIMIT {
        COORD_LIMIT
    } else if v < -COORD_LIMIT {
        -COORD_LIMIT
    } else {
        v
    }
}

} // verus!
