//! The scrolling backdrop: decorative stars and planets that drift down the
//! screen and vanish past the bottom edge, with no gameplay effect.
//!
//! Stars and planets each run their own spawn countdown. When one elapses
//! it restarts with a fresh random duration and new obstacles enter from
//! above the top edge, each with a randomly chosen sprite variant. At scene
//! entry an initial population is scattered over the whole viewport so the
//! field does not start empty.

use vstd::prelude::*;
use crate::geom::{
    Body, Size, spec_confine, spec_inside_x, spec_inside_y, spec_past_bottom, spec_travel, travel,
    confine, DT_LIMIT, SPEED_LIMIT,
};
use crate::rng::random_in_range;
use crate::seq_util::lemma_filter_push;
use crate::spawn::{spec_top_entry_y, random_spawn_x, top_spawn_body};
use crate::sprites::{SpriteSizes, STAR_VARIANTS, PLANET_VARIANTS};
use crate::timer::{Timer, spec_ticked};

verus! {

/// Downward drift of a star, in milli-units per reference tick.
pub const STAR_SPEED: i64 = 413;

/// Downward drift of a planet, in milli-units per reference tick.
pub const PLANET_SPEED: i64 = 470;

/// Bounds of the random pause between star spawns, in microseconds.
pub const MIN_STAR_SPAWN_US: u64 = 1_000_000;

pub const MAX_STAR_SPAWN_US: u64 = 2_400_000;

/// Bounds of the random pause between planet spawns, in microseconds.
pub const MIN_PLANET_SPAWN_US: u64 = 80_000_000;

pub const MAX_PLANET_SPAWN_US: u64 = 240_000_000;

/// How many stars each elapsed star countdown releases.
pub const STARS_PER_SPAWN: usize = 3;

/// How many stars the initial scatter lays out.
pub const INITIAL_STARS: usize = 30;

/// A decorative drifting obstacle; it collides with nothing.
#[derive(Clone, Copy, PartialEq, Eq, Structural, Debug)]
pub struct Obstacle {
    pub speed: i64,
}

impl Obstacle {
    pub fn star() -> (o: Obstacle)
        ensures
            o.speed == STAR_SPEED,
    {
        Obstacle { speed: STAR_SPEED }
    }

    pub fn planet() -> (o: Obstacle)
        ensures
            o.speed == PLANET_SPEED,
    {
        Obstacle { speed: PLANET_SPEED }
    }
}

#[derive(Clone, Copy, PartialEq, Eq, Structural, Debug)]
pub enum ObstacleKind {
    Star,
    Planet,
}

/// An obstacle in the world, remembering which sprite variant it shows.
#[derive(Clone, Copy, PartialEq, Eq, Structural, Debug)]
pub struct ObstacleEntity {
    pub obstacle: Obstacle,
    pub kind: ObstacleKind,
    pub variant: usize,
    pub body: Body,
}

impl ObstacleEntity {
    pub open spec fn wf(self) -> bool {
        0 < self.obstacle.speed <= SPEED_LIMIT && self.body.wf()
    }
}

/// A star entity consistent with the sprite table, inside the viewport width.
pub open spec fn wf_star(e: ObstacleEntity, sizes: SpriteSizes, viewport: Size) -> bool {
    &&& e.kind == ObstacleKind::Star
    &&& e.obstacle.speed == STAR_SPEED
    &&& e.variant < STAR_VARIANTS
    &&& e.body.size == sizes.stars@[e.variant as int]
    &&& spec_inside_x(e.body.x as int, e.body.size.width as int, viewport.width as int)
    &&& e.wf()
}

/// A planet entity consistent with the sprite table, inside the viewport width.
pub open spec fn wf_planet(e: ObstacleEntity, sizes: SpriteSizes, viewport: Size) -> bool {
    &&& e.kind == ObstacleKind::Planet
    &&& e.obstacle.speed == PLANET_SPEED
    &&& e.variant < PLANET_VARIANTS
    &&& e.body.size == sizes.planets@[e.variant as int]
    &&& spec_inside_x(e.body.x as int, e.body.size.width as int, viewport.width as int)
    &&& e.wf()
}

/// The two backdrop spawn countdowns.
#[derive(Clone, Copy, PartialEq, Eq, Structural, Debug)]
pub struct BackdropSpawnConfig {
    pub star_timer: Timer,
    pub planet_timer: Timer,
}

impl BackdropSpawnConfig {
    pub open spec fn wf(self) -> bool {
        &&& self.star_timer.wf()
        &&& !self.star_timer.paused
        &&& MIN_STAR_SPAWN_US <= self.star_timer.duration_us <= MAX_STAR_SPAWN_US
        &&& self.planet_timer.wf()
        &&& !self.planet_timer.paused
        &&& MIN_PLANET_SPAWN_US <= self.planet_timer.duration_us <= MAX_PLANET_SPAWN_US
    }

    pub fn new() -> (c: BackdropSpawnConfig)
        ensures
            c.wf(),
            c.star_timer.elapsed_us == 0,
            c.planet_timer.elapsed_us == 0,
    {
        BackdropSpawnConfig {
            star_timer: Timer::new(random_star_spawn_time()),
            planet_timer: Timer::new(random_planet_spawn_time()),
        }
    }
}

pub fn random_star_spawn_time() -> (t: u64)
    ensures
        MIN_STAR_SPAWN_US <= t <= MAX_STAR_SPAWN_US,
{
    random_in_range(MIN_STAR_SPAWN_US as i64, MAX_STAR_SPAWN_US as i64 + 1) as u64
}

pub fn random_planet_spawn_time() -> (t: u64)
    ensures
        MIN_PLANET_SPAWN_US <= t <= MAX_PLANET_SPAWN_US,
{
    random_in_range(MIN_PLANET_SPAWN_US as i64, MAX_PLANET_SPAWN_US as i64 + 1) as u64
}

fn random_star(viewport: &Size, sizes: &SpriteSizes) -> (e: ObstacleEntity)
    requires
        viewport.wf(),
        sizes.wf(),
        sizes.backdrop_fits(*viewport),
    ensures
        wf_star(e, *sizes, *viewport),
        e.body.y == spec_top_entry_y(*viewport, e.body.size),
{
    let variant = random_in_range(0, STAR_VARIANTS as i64) as usize;
    let size = sizes.stars[variant];
    let body = top_spawn_body(viewport, &size);
    ObstacleEntity { obstacle: Obstacle::star(), kind: ObstacleKind::Star, variant, body }
}

fn random_planet(viewport: &Size, sizes: &SpriteSizes) -> (e: ObstacleEntity)
    requires
        viewport.wf(),
        sizes.wf(),
        sizes.backdrop_fits(*viewport),
    ensures
        wf_planet(e, *sizes, *viewport),
        e.body.y == spec_top_entry_y(*viewport, e.body.size),
{
    let variant = random_in_range(0, PLANET_VARIANTS as i64) as usize;
    let size = sizes.planets[variant];
    let body = top_spawn_body(viewport, &size);
    ObstacleEntity { obstacle: Obstacle::planet(), kind: ObstacleKind::Planet, variant, body }
}

/// The population laid out at scene entry: stars scattered uniformly over
/// the whole viewport, and one planet resting against the top edge.
pub fn setup_initial_backdrop(viewport: &Size, sizes: &SpriteSizes) -> (field: Vec<ObstacleEntity>)
    requires
        viewport.wf(),
        sizes.wf(),
        sizes.backdrop_fits(*viewport),
    ensures
        field@.len() == INITIAL_STARS + 1,
        forall|i: int|
            0 <= i < INITIAL_STARS ==> wf_star(#[trigger] field@[i], *sizes, *viewport)
                && spec_inside_y(
                field@[i].body.y as int,
                field@[i].body.size.height as int,
                viewport.height as int,
            ),
        wf_planet(field@[INITIAL_STARS as int], *sizes, *viewport),
        field@[INITIAL_STARS as int].body.y == (viewport.height
            - field@[INITIAL_STARS as int].body.size.height) / 2,
{
    let mut field: Vec<ObstacleEntity> = Vec::new();
    let mut i: usize = 0;
    while i < INITIAL_STARS
        invariant
            i <= INITIAL_STARS,
            field@.len() == i,
            viewport.wf(),
            sizes.wf(),
            sizes.backdrop_fits(*viewport),
            forall|k: int|
                0 <= k < i ==> wf_star(#[trigger] field@[k], *sizes, *viewport) && spec_inside_y(
                    field@[k].body.y as int,
                    field@[k].body.size.height as int,
                    viewport.height as int,
                ),
        decreases INITIAL_STARS - i,
    {
        let variant = random_in_range(0, STAR_VARIANTS as i64) as usize;
        let size = sizes.stars[variant];
        let x = random_spawn_x(viewport, &size);
        let m: i64 = (((viewport.height - size.height) as u64) / 2) as i64;
        let y = random_in_range(-m, m);
        let body = Body { x, y, size };
        field.push(
            ObstacleEntity { obstacle: Obstacle::star(), kind: ObstacleKind::Star, variant, body },
        );
        i = i + 1;
    }

    let variant = random_in_range(0, PLANET_VARIANTS as i64) as usize;
    let size = sizes.planets[variant];
    let x = random_spawn_x(viewport, &size);
    let y: i64 = (((viewport.height - size.height) as u64) / 2) as i64;
    let body = Body { x, y, size };
    field.push(
        ObstacleEntity { obstacle: Obstacle::planet(), kind: ObstacleKind::Planet, variant, body },
    );
    field
}

/// Tick the star countdown; on elapse, restart it randomly and let a batch
/// of stars enter from above the top edge.
pub fn spawn_stars(
    config: &mut BackdropSpawnConfig,
    dt: u64,
    viewport: &Size,
    sizes: &SpriteSizes,
) -> (spawned: Vec<ObstacleEntity>)
    requires
        old(config).wf(),
        viewport.wf(),
        sizes.wf(),
        sizes.backdrop_fits(*viewport),
        dt <= DT_LIMIT,
    ensures
        final(config).wf(),
        final(config).planet_timer == old(config).planet_timer,
        ({
            let ticked = spec_ticked(old(config).star_timer, dt as int);
            if ticked.spec_finished() {
                &&& spawned@.len() == STARS_PER_SPAWN
                &&& final(config).star_timer.elapsed_us == 0
            } else {
                spawned@.len() == 0 && final(config).star_timer == ticked
            }
        }),
        forall|i: int|
            0 <= i < spawned@.len() ==> wf_star(#[trigger] spawned@[i], *sizes, *viewport)
                && spawned@[i].body.y == spec_top_entry_y(*viewport, spawned@[i].body.size),
{
    config.star_timer.tick(dt);

    let mut spawned: Vec<ObstacleEntity> = Vec::new();
    if config.star_timer.finished() {
        config.star_timer = Timer::new(random_star_spawn_time());

        let mut i: usize = 0;
        while i < STARS_PER_SPAWN
            invariant
                i <= STARS_PER_SPAWN,
                spawned@.len() == i,
                viewport.wf(),
                sizes.wf(),
                sizes.backdrop_fits(*viewport),
                forall|k: int|
                    0 <= k < i ==> wf_star(#[trigger] spawned@[k], *sizes, *viewport)
                        && spawned@[k].body.y == spec_top_entry_y(*viewport, spawned@[k].body.size),
            decreases STARS_PER_SPAWN - i,
        {
            let star = random_star(viewport, sizes);
            spawned.push(star);
            i = i + 1;
        }
    }
    spawned
}

/// Tick the planet countdown; on elapse, restart it randomly and let one
/// planet enter from above the top edge.
pub fn spawn_planets(
    config: &mut BackdropSpawnConfig,
    dt: u64,
    viewport: &Size,
    sizes: &SpriteSizes,
) -> (spawned: Option<ObstacleEntity>)
    requires
        old(config).wf(),
        viewport.wf(),
        sizes.wf(),
        sizes.backdrop_fits(*viewport),
        dt <= DT_LIMIT,
    ensures
        final(config).wf(),
        final(config).star_timer == old(config).star_timer,
        ({
            let ticked = spec_ticked(old(config).planet_timer, dt as int);
            if ticked.spec_finished() {
                match spawned {
                    Some(e) => {
                        &&& wf_planet(e, *sizes, *viewport)
                        &&& e.body.y == spec_top_entry_y(*viewport, e.body.size)
                        &&& final(config).planet_timer.elapsed_us == 0
                    },
                    None => false,
                }
            } else {
                spawned is None && final(config).planet_timer == ticked
            }
        }),
{
    config.planet_timer.tick(dt);

    if config.planet_timer.finished() {
        config.planet_timer = Timer::new(random_planet_spawn_time());
        Some(random_planet(viewport, sizes))
    } else {
        None
    }
}

/// One frame of drift for an obstacle: straight down at its fixed speed.
pub open spec fn spec_obstacle_moved(e: ObstacleEntity, dt: int) -> ObstacleEntity {
    let d = spec_travel(e.obstacle.speed as int, dt);
    ObstacleEntity { body: Body { y: spec_confine(e.body.y - d) as i64, ..e.body }, ..e }
}

/// Advance every obstacle toward the bottom, frame-rate-normalized.
pub fn obstacle_movement(obstacles: &mut Vec<ObstacleEntity>, dt: u64)
    requires
        forall|i: int| 0 <= i < old(obstacles)@.len() ==> (#[trigger] old(obstacles)@[i]).wf(),
        dt <= DT_LIMIT,
    ensures
        final(obstacles)@ == old(obstacles)@.map_values(
            |e: ObstacleEntity| spec_obstacle_moved(e, dt as int),
        ),
        forall|i: int| 0 <= i < final(obstacles)@.len() ==> (#[trigger] final(obstacles)@[i]).wf(),
{
    let ghost mv = |e: ObstacleEntity| spec_obstacle_moved(e, dt as int);
    let n = obstacles.len();
    let mut i: usize = 0;
    while i < n
        invariant
            n == obstacles@.len(),
            n == old(obstacles)@.len(),
            i <= n,
            dt <= DT_LIMIT,
            mv == |e: ObstacleEntity| spec_obstacle_moved(e, dt as int),
            forall|k: int| 0 <= k < old(obstacles)@.len() ==> (#[trigger] old(obstacles)@[k]).wf(),
            forall|k: int| i <= k < n ==> obstacles@[k] == old(obstacles)@[k],
            forall|k: int| 0 <= k < i ==> obstacles@[k] == mv(old(obstacles)@[k]),
            forall|k: int| 0 <= k < obstacles@.len() ==> (#[trigger] obstacles@[k]).wf(),
        decreases n - i,
    {
        let ghost prev = obstacles@;
        let mut ent = obstacles[i];
        let ghost ent0 = ent;
        let d = travel(ent.obstacle.speed, dt);
        ent.body.y = confine(ent.body.y - d);
        assert(ent == mv(ent0));
        obstacles.set(i, ent);
        proof {
            assert(obstacles@ =~= prev.update(i as int, mv(ent0)));
        }
        i = i + 1;
    }
    proof {
        assert(obstacles@ =~= old(obstacles)@.map_values(mv));
    }
}

pub fn obstacle_past_bottom(y: i64, viewport: &Size, size: &Size) -> (r: bool)
    requires
        viewport.wf(),
        size.wf(),
        -crate::geom::COORD_LIMIT <= y <= crate::geom::COORD_LIMIT,
    ensures
        r == spec_past_bottom(y as int, size.height as int, viewport.height as int),
{
    2 * y + size.height < -viewport.height
}

/// An obstacle fully past the bottom edge is gone, with no side effect.
pub open spec fn spec_obstacle_gone(e: ObstacleEntity, viewport: Size) -> bool {
    spec_past_bottom(e.body.y as int, e.body.size.height as int, viewport.height as int)
}

/// Remove every obstacle whose box is entirely below the bottom edge.
pub fn despawn_obstacle(obstacles: &mut Vec<ObstacleEntity>, viewport: &Size)
    requires
        forall|i: int| 0 <= i < old(obstacles)@.len() ==> (#[trigger] old(obstacles)@[i]).wf(),
        viewport.wf(),
    ensures
        final(obstacles)@ == old(obstacles)@.filter(
            |e: ObstacleEntity| !spec_obstacle_gone(e, *viewport),
        ),
        forall|i: int| 0 <= i < final(obstacles)@.len() ==> (#[trigger] final(obstacles)@[i]).wf(),
{
    let ghost keep = |e: ObstacleEntity| !spec_obstacle_gone(e, *viewport);
    let mut kept: Vec<ObstacleEntity> = Vec::new();
    let n = obstacles.len();
    let mut i: usize = 0;
    proof {
        reveal(Seq::filter);
        assert(obstacles@.subrange(0, 0) =~= Seq::<ObstacleEntity>::empty());
        assert(kept@ =~= obstacles@.subrange(0, 0).filter(keep));
    }
    while i < n
        invariant
            n == obstacles@.len(),
            i <= n,
            *obstacles == *old(obstacles),
            viewport.wf(),
            forall|k: int| 0 <= k < obstacles@.len() ==> (#[trigger] obstacles@[k]).wf(),
            keep == |e: ObstacleEntity| !spec_obstacle_gone(e, *viewport),
            kept@ == obstacles@.subrange(0, i as int).filter(keep),
            forall|k: int| 0 <= k < kept@.len() ==> (#[trigger] kept@[k]).wf(),
        decreases n - i,
    {
        let e = obstacles[i];
        let gone = obstacle_past_bottom(e.body.y, viewport, &e.body.size);
        proof {
            lemma_filter_push(obstacles@.subrange(0, i as int), e, keep);
            assert(obstacles@.subrange(0, i as int).push(e) =~= obstacles@.subrange(
                0,
                i as int + 1,
            ));
        }
        if !gone {
            kept.push(e);
        }
        i = i + 1;
    }
    proof {
        assert(obstacles@.subrange(0, n as int) =~= obstacles@);
    }
    *obstacles = kept;
}

} // verus!
