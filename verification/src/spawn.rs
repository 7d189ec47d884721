//! Where newly created entities enter the world: a uniformly random x that
//! keeps the whole bounding box inside the viewport width, and a y just
//! beyond the top edge, offset by half the entity's own height so it fully
//! clears the edge before scrolling in.

use vstd::prelude::*;
use crate::geom::{Body, Size, spec_inside_x, EXTENT_LIMIT};
use crate::rng::random_in_range;

verus! {

/// The entry row: half a viewport plus half the entity above the center.
pub open spec fn spec_top_entry_y(viewport: Size, size: Size) -> int {
    (viewport.height + size.height) / 2
}

pub fn top_entry_y(viewport: &Size, size: &Size) -> (y: i64)
    requires
        viewport.wf(),
        size.wf(),
    ensures
        y == spec_top_entry_y(*viewport, *size),
        0 <= y <= EXTENT_LIMIT,
{
    ((viewport.height as u64 + size.height as u64) / 2) as i64
}

/// A spawn abscissa drawn uniformly over the span that keeps the entity's
/// full bounding box within the viewport width.
pub fn random_spawn_x(viewport: &Size, size: &Size) -> (x: i64)
    requires
        viewport.wf(),
        size.wf(),
        size.width + 2 <= viewport.width,
    ensures
        spec_inside_x(x as int, size.width as int, viewport.width as int),
        -EXTENT_LIMIT <= x <= EXTENT_LIMIT,
{
    let m: i64 = (((viewport.width - size.width) as u64) / 2) as i64;
    random_in_range(-m, m)
}

/// A body entering from above the top edge at a random in-bounds abscissa.
pub fn top_spawn_body(viewport: &Size, size: &Size) -> (b: Body)
    requires
        viewport.wf(),
        size.wf(),
        size.width + 2 <= viewport.width,
    ensures
        b.size == *size,
        b.y == spec_top_entry_y(*viewport, *size),
        spec_inside_x(b.x as int, size.width as int, viewport.width as int),
        b.wf(),
{
    let x = random_spawn_x(viewport, size);
    let y = top_entry_y(viewport, size);
    Body { x, y, size: *size }
}

} // verus!
