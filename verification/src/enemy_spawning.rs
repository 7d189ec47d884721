//! Timer-driven enemy spawning and enemy drift.
//!
//! A single one-shot countdown runs between spawns; when it elapses, one
//! randomly selected enemy enters from above the top edge and the countdown
//! restarts with a fresh random duration from the fixed range. Enemies then
//! sink toward the bottom at their individual speed.

use vstd::prelude::*;
use crate::geom::{Body, Size, spec_confine, spec_travel, travel, confine, DT_LIMIT};
use crate::rng::random_in_range;
use crate::ships::{Enemy, EnemyEntity};
use crate::spawn::{spec_top_entry_y, top_spawn_body};
use crate::sprites::SpriteSizes;
use crate::timer::{Timer, spec_ticked};

verus! {

/// Bounds of the random pause between enemy spawns, in microseconds.
pub const MIN_SPAWN_US: u64 = 1_000_000;

pub const MAX_SPAWN_US: u64 = 5_500_000;

/// The countdown until the next enemy enters.
#[derive(Clone, Copy, PartialEq, Eq, Structural, Debug)]
pub struct EnemySpawnConfig {
    pub timer: Timer,
}

impl EnemySpawnConfig {
    pub open spec fn wf(self) -> bool {
        self.timer.wf() && !self.timer.paused && MIN_SPAWN_US <= self.timer.duration_us
            <= MAX_SPAWN_US
    }

    pub fn new() -> (c: EnemySpawnConfig)
        ensures
            c.wf(),
            c.timer.elapsed_us == 0,
    {
        EnemySpawnConfig { timer: Timer::new(random_spawn_time()) }
    }
}

/// A fresh pause drawn uniformly from the closed spawn-interval range.
pub fn random_spawn_time() -> (t: u64)
    ensures
        MIN_SPAWN_US <= t <= MAX_SPAWN_US,
{
    random_in_range(MIN_SPAWN_US as i64, MAX_SPAWN_US as i64 + 1) as u64
}

/// Tick the spawn countdown; when it elapses, restart it with a fresh
/// random duration and let one randomly selected enemy enter from the top,
/// its box fully inside the viewport width. The enemy's kind, jittered
/// speed and entry abscissa are random; everything else is pinned by the
/// catalog and the entry rule.
pub fn spawn_enemy(
    config: &mut EnemySpawnConfig,
    dt: u64,
    viewport: &Size,
    sizes: &SpriteSizes,
) -> (spawned: Option<EnemyEntity>)
    requires
        old(config).wf(),
        viewport.wf(),
        sizes.wf(),
        sizes.enemies_fit(*viewport),
        dt <= DT_LIMIT,
    ensures
        final(config).wf(),
        ({
            let ticked = spec_ticked(old(config).timer, dt as int);
            if ticked.spec_finished() {
                match spawned {
                    Some(ent) => {
                        &&& ent.wf()
                        &&& ent.enemy.undamaged()
                        &&& ent.enemy.weapon_fresh()
                        &&& ent.body.size == sizes.spec_enemy_size(ent.enemy.ship_type)
                        &&& ent.body.y == spec_top_entry_y(*viewport, ent.body.size)
                        &&& crate::geom::spec_inside_x(
                            ent.body.x as int,
                            ent.body.size.width as int,
                            viewport.width as int,
                        )
                        &&& final(config).timer.elapsed_us == 0
                    },
                    None => false,
                }
            } else {
                spawned is None && final(config).timer == ticked
            }
        }),
{
    config.timer.tick(dt);

    if config.timer.finished() {
        config.timer = Timer::new(random_spawn_time());

        let enemy = Enemy::random();
        let size = sizes.enemy_size(&enemy.ship_type);
        let body = top_spawn_body(viewport, &size);
        Some(EnemyEntity { enemy, body })
    } else {
        None
    }
}

/// One frame of drift for an enemy: straight down at its catalog speed.
pub open spec fn spec_enemy_moved(e: EnemyEntity, dt: int) -> EnemyEntity {
    let d = spec_travel(e.enemy.speed as int, dt);
    EnemyEntity { body: Body { y: spec_confine(e.body.y - d) as i64, ..e.body }, ..e }
}

/// Advance every enemy toward the bottom, frame-rate-normalized.
pub fn enemy_movement(enemies: &mut Vec<EnemyEntity>, dt: u64)
    requires
        forall|i: int| 0 <= i < old(enemies)@.len() ==> (#[trigger] old(enemies)@[i]).wf(),
        dt <= DT_LIMIT,
    ensures
        final(enemies)@ == old(enemies)@.map_values(
            |e: EnemyEntity| spec_enemy_moved(e, dt as int),
        ),
        forall|i: int| 0 <= i < final(enemies)@.len() ==> (#[trigger] final(enemies)@[i]).wf(),
{
    let ghost mv = |e: EnemyEntity| spec_enemy_moved(e, dt as int);
    let n = enemies.len();
    let mut i: usize = 0;
    while i < n
        invariant
            n == enemies@.len(),
            n == old(enemies)@.len(),
            i <= n,
            dt <= DT_LIMIT,
            mv == |e: EnemyEntity| spec_enemy_moved(e, dt as int),
            forall|k: int| 0 <= k < old(enemies)@.len() ==> (#[trigger] old(enemies)@[k]).wf(),
            forall|k: int| i <= k < n ==> enemies@[k] == old(enemies)@[k],
            forall|k: int| 0 <= k < i ==> enemies@[k] == mv(old(enemies)@[k]),
            forall|k: int| 0 <= k < enemies@.len() ==> (#[trigger] enemies@[k]).wf(),
        decreases n - i,
    {
        let ghost prev = enemies@;
        let mut ent = enemies.remove(i);
        let ghost ent0 = ent;
        let d = travel(ent.enemy.speed, dt);
        ent.body.y = confine(ent.body.y - d);
        assert(ent == mv(ent0));
        enemies.insert(i, ent);
        proof {
            assert(enemies@ =~= prev.update(i as int, mv(ent0)));
        }
        i = i + 1;
    }
    proof {
        assert(enemies@ =~= old(enemies)@.map_values(mv));
    }
}

} // verus!
