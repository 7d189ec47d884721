//! Player movement: four directional keys, frame-rate-normalized steps, and
//! edge handling that never lets the player's box leave the viewport — a
//! step that would cross an edge is rejected, and a box that is out anyway
//! (say, after the viewport shrank) is clamped back per axis.

use vstd::prelude::*;
use crate::geom::{
    Body, Size, spec_inside_x, spec_inside_y, spec_travel, travel, DT_LIMIT, SPEED_LIMIT,
};

verus! {

/// Which directional keys are held this frame.
#[derive(Clone, Copy, PartialEq, Eq, Structural, Debug)]
pub struct MoveKeys {
    pub up: bool,
    pub down: bool,
    pub left: bool,
    pub right: bool,
}

/// A position the player's box may occupy: fully inside the viewport.
pub open spec fn spec_valid_move(x: int, y: int, size: Size, viewport: Size) -> bool {
    spec_inside_x(x, size.width as int, viewport.width as int) && spec_inside_y(
        y,
        size.height as int,
        viewport.height as int,
    )
}

pub fn valid_move(x: i64, y: i64, viewport: &Size, player_size: &Size) -> (r: bool)
    requires
        viewport.wf(),
        player_size.wf(),
        -2 * crate::geom::COORD_LIMIT <= x <= 2 * crate::geom::COORD_LIMIT,
        -2 * crate::geom::COORD_LIMIT <= y <= 2 * crate::geom::COORD_LIMIT,
    ensures
        r == spec_valid_move(x as int, y as int, *player_size, *viewport),
{
    2 * x + player_size.width <= viewport.width && 2 * x - player_size.width >= -viewport.width
        && 2 * y + player_size.height <= viewport.height && 2 * y - player_size.height
        >= -viewport.height
}

/// The held keys applied as one signed step per axis, then the box clamped
/// back inside the viewport per axis (edge-clamping, not rejection).
pub open spec fn spec_player_moved(b: Body, speed: int, keys: MoveKeys, dt: int, viewport: Size) -> Body {
    let d = spec_travel(speed, dt);
    let dy = (if keys.up { d } else { 0 }) - (if keys.down { d } else { 0 });
    let dx = (if keys.right { d } else { 0 }) - (if keys.left { d } else { 0 });
    spec_bordered((Body { x: (b.x + dx) as i64, y: (b.y + dy) as i64, ..b }), viewport)
}

/// Move the player by the held keys, frame-rate-normalized, clamping so its
/// bounding box never leaves the viewport.
pub fn player_movement(body: &mut Body, speed: i64, keys: &MoveKeys, dt: u64, viewport: &Size)
    requires
        old(body).wf(),
        0 < speed <= SPEED_LIMIT,
        dt <= DT_LIMIT,
        viewport.wf(),
        old(body).size.width <= viewport.width,
        old(body).size.height <= viewport.height,
    ensures
        *final(body) == spec_player_moved(*old(body), speed as int, *keys, dt as int, *viewport),
        final(body).wf(),
        final(body).size == old(body).size,
{
    let d = travel(speed, dt);

    if keys.up {
        body.y = body.y + d;
    }
    if keys.down {
        body.y = body.y - d;
    }
    if keys.left {
        body.x = body.x - d;
    }
    if keys.right {
        body.x = body.x + d;
    }
    player_border(body, viewport);
}

/// The box clamped back into the viewport, one axis at a time.
pub open spec fn spec_bordered(b: Body, viewport: Size) -> Body {
    let max_y = (viewport.height - b.size.height) / 2;
    let y1 = if b.y > max_y {
        max_y as i64
    } else {
        b.y
    };
    let y2 = if y1 < -max_y {
        (-max_y) as i64
    } else {
        y1
    };
    let max_x = (viewport.width - b.size.width) / 2;
    let x1 = if b.x > max_x {
        max_x as i64
    } else {
        b.x
    };
    let x2 = if x1 < -max_x {
        (-max_x) as i64
    } else {
        x1
    };
    Body { x: x2, y: y2, ..b }
}

/// Clamp the player's box back into the viewport if it ever ends up
/// outside (edge-clamping, not rejection).
pub fn player_border(body: &mut Body, viewport: &Size)
    requires
        old(body).size.wf(),
        -2 * crate::geom::COORD_LIMIT <= old(body).x <= 2 * crate::geom::COORD_LIMIT,
        -2 * crate::geom::COORD_LIMIT <= old(body).y <= 2 * crate::geom::COORD_LIMIT,
        viewport.wf(),
        old(body).size.width <= viewport.width,
        old(body).size.height <= viewport.height,
    ensures
        *final(body) == spec_bordered(*old(body), *viewport),
        final(body).wf(),
        final(body).size == old(body).size,
{
    let max_y: i64 = (((viewport.height - body.size.height) as u64) / 2) as i64;
    if body.y > max_y {
        body.y = max_y;
    }
    if body.y < -max_y {
        body.y = -max_y;
    }

    let max_x: i64 = (((viewport.width - body.size.width) as u64) / 2) as i64;
    if body.x > max_x {
        body.x = max_x;
    }
    if body.x < -max_x {
        body.x = -max_x;
    }
}

} // verus!
