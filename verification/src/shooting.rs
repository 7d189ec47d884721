//! Weapons and projectiles: the static catalog (speeds, damage, cooldowns,
//! barrel layout), projectile flight, and weapon-slot switching.
//!
//! Every weapon exists in a friendly variant carried by the player and a
//! hostile variant carried by enemies; the hostile cooldown is twice the
//! friendly one, and hostile projectiles differ in speed and damage.
//! Friendly projectiles travel up, hostile ones down.

use vstd::prelude::*;
use crate::geom::{
    Body, Offset, Size, spec_confine, spec_past_bottom, spec_past_top, spec_travel, travel,
    confine, DT_LIMIT, SPEED_LIMIT,
};
use crate::timer::{Timer, spec_ticked};
use crate::seq_util::{lemma_map_filter_push, lemma_map_filter_empty};
use crate::game::Game;
use crate::ships::{Player, EnemyEntity};
use crate::sprites::SpriteSizes;

verus! {

/// Half the player sprite's designed width: the wing-mounted barrels sit
/// this far out, in milli-units.
pub const PLAYER_WIDTH: i64 = 49_500;

/// Vertical drop of the wing-tip mounts below the player center.
pub const PLAYER_WING_TIPS: i64 = 25_000;

/// Friendly cooldowns in microseconds (frame counts at the 40 ticks-per-
/// second reference rate); the hostile variant doubles them.
pub const STOMP_COOLDOWN_US: u64 = 125_000;

pub const BLASTER_COOLDOWN_US: u64 = 1_437_500;

pub const GRIM_COOLDOWN_US: u64 = 1_562_500;

pub const HAMMER_COOLDOWN_US: u64 = 1_250_000;

pub const RATATA_COOLDOWN_US: u64 = 100_000;

#[derive(Clone, Copy, PartialEq, Eq, Structural, Debug)]
pub enum ProjectileType {
    Blaster,
    Grim,
    Hammer,
    Ratata,
    Stomp,
}

/// A projectile in flight, or the template a weapon stamps them from.
/// `friendly` projectiles come from the player, travel upward and damage
/// enemies; hostile ones travel downward and damage the player.
#[derive(Clone, Copy, PartialEq, Eq, Structural, Debug)]
pub struct Projectile {
    pub speed: i64,
    pub damage: u32,
    pub friendly: bool,
    pub projectile_type: ProjectileType,
    pub pushback: i64,
}

impl Projectile {
    pub open spec fn wf(self) -> bool {
        0 < self.speed <= SPEED_LIMIT && 0 <= self.pushback <= SPEED_LIMIT
    }
}

/// Signed vertical speed in milli-units per reference tick: positive means
/// upward, toward the top of the viewport.
pub open spec fn spec_vertical_velocity(p: Projectile) -> int {
    if p.friendly {
        p.speed as int
    } else {
        -(p.speed as int)
    }
}

/// Law: a friendly projectile's vertical velocity is strictly positive
/// (upward) and a hostile one's strictly negative (downward); per frame its
/// position moves that way, up to the arena clamp.
pub proof fn lemma_projectile_direction(e: ProjectileEntity, dt: int)
    requires
        e.wf(),
        0 <= dt,
    ensures
        e.projectile.friendly <==> spec_vertical_velocity(e.projectile) > 0,
        !e.projectile.friendly <==> spec_vertical_velocity(e.projectile) < 0,
        e.projectile.friendly ==> spec_projectile_moved(e, dt).body.y >= e.body.y,
        !e.projectile.friendly ==> spec_projectile_moved(e, dt).body.y <= e.body.y,
{
    let d = spec_travel(e.projectile.speed as int, dt);
    assert(d >= 0) by (nonlinear_arith)
        requires
            e.projectile.speed > 0,
            dt >= 0,
            d == spec_travel(e.projectile.speed as int, dt),
    ;
}

/// A projectile together with its bounding box in the world.
#[derive(Clone, Copy, PartialEq, Eq, Structural, Debug)]
pub struct ProjectileEntity {
    pub projectile: Projectile,
    pub body: Body,
}

impl ProjectileEntity {
    pub open spec fn wf(self) -> bool {
        self.projectile.wf() && self.body.wf()
    }
}

/// One frame of flight: friendly projectiles rise, hostile ones sink.
pub open spec fn spec_projectile_moved(e: ProjectileEntity, dt: int) -> ProjectileEntity {
    let d = spec_travel(e.projectile.speed as int, dt);
    let y = if e.projectile.friendly {
        e.body.y + d
    } else {
        e.body.y - d
    };
    ProjectileEntity { body: Body { y: spec_confine(y) as i64, ..e.body }, ..e }
}

/// A projectile is discarded once fully past the top or the bottom edge.
pub open spec fn spec_projectile_gone(e: ProjectileEntity, viewport: Size) -> bool {
    spec_past_top(e.body.y as int, e.body.size.height as int, viewport.height as int)
        || spec_past_bottom(e.body.y as int, e.body.size.height as int, viewport.height as int)
}

pub fn projectile_past_top(y: i64, viewport: &Size, size: &Size) -> (r: bool)
    requires
        viewport.wf(),
        size.wf(),
        -crate::geom::COORD_LIMIT <= y <= crate::geom::COORD_LIMIT,
    ensures
        r == spec_past_top(y as int, size.height as int, viewport.height as int),
{
    2 * y - size.height > viewport.height
}

pub fn projectile_past_bottom(y: i64, viewport: &Size, size: &Size) -> (r: bool)
    requires
        viewport.wf(),
        size.wf(),
        -crate::geom::COORD_LIMIT <= y <= crate::geom::COORD_LIMIT,
    ensures
        r == spec_past_bottom(y as int, size.height as int, viewport.height as int),
{
    2 * y + size.height < -viewport.height
}

/// Advance every projectile by one frame and discard the ones that left the
/// viewport in either direction.
pub fn projectile_move(projectiles: &mut Vec<ProjectileEntity>, dt: u64, viewport: &Size)
    requires
        forall|i: int| 0 <= i < old(projectiles)@.len() ==> (#[trigger] old(projectiles)@[i]).wf(),
        dt <= DT_LIMIT,
        viewport.wf(),
    ensures
        final(projectiles)@ == old(projectiles)@.map_values(
            |e: ProjectileEntity| spec_projectile_moved(e, dt as int),
        ).filter(|e: ProjectileEntity| !spec_projectile_gone(e, *viewport)),
        forall|i: int| 0 <= i < final(projectiles)@.len() ==> (#[trigger] final(projectiles)@[i]).wf(),
{
    let ghost mv = |e: ProjectileEntity| spec_projectile_moved(e, dt as int);
    let ghost keep = |e: ProjectileEntity| !spec_projectile_gone(e, *viewport);
    let mut kept: Vec<ProjectileEntity> = Vec::new();
    proof {
        lemma_map_filter_empty(mv, keep);
        assert(Seq::<ProjectileEntity>::empty() =~= old(projectiles)@.subrange(0, 0));
    }
    let n = projectiles.len();
    let mut i: usize = 0;
    while i < n
        invariant
            n == projectiles@.len(),
            i <= n,
            *projectiles == *old(projectiles),
            forall|k: int| 0 <= k < projectiles@.len() ==> (#[trigger] projectiles@[k]).wf(),
            dt <= DT_LIMIT,
            viewport.wf(),
            mv == |e: ProjectileEntity| spec_projectile_moved(e, dt as int),
            keep == |e: ProjectileEntity| !spec_projectile_gone(e, *viewport),
            kept@ == projectiles@.subrange(0, i as int).map_values(mv).filter(keep),
            forall|k: int| 0 <= k < kept@.len() ==> (#[trigger] kept@[k]).wf(),
        decreases n - i,
    {
        let e = projectiles[i];
        let d = travel(e.projectile.speed, dt);
        let raw_y: i64 = if e.projectile.friendly {
            confine(e.body.y + d)
        } else {
            confine(e.body.y - d)
        };
        let moved = ProjectileEntity {
            body: Body { y: raw_y, ..e.body },
            ..e
        };
        assert(moved == mv(e));
        let gone = {
            let top = projectile_past_top(moved.body.y, viewport, &moved.body.size);
            let bottom = projectile_past_bottom(moved.body.y, viewport, &moved.body.size);
            top || bottom
        };
        proof {
            lemma_map_filter_push(projectiles@.subrange(0, i as int), e, mv, keep);
            assert(projectiles@.subrange(0, i as int).push(e) =~= projectiles@.subrange(
                0,
                i as int + 1,
            ));
        }
        if !gone {
            kept.push(moved);
        }
        i = i + 1;
    }
    proof {
        assert(projectiles@.subrange(0, n as int) =~= projectiles@);
    }
    *projectiles = kept;
}

/// A mounted weapon: its cooldown timer, where it sits on its owner, the
/// barrel offsets (one projectile per barrel per trigger), and the template
/// of what it fires.
#[derive(Clone, Debug)]
pub struct Weapon {
    pub name: String,
    pub cooldown_timer: Timer,
    pub gun_positions: Vec<Offset>,
    pub mounting_point: Offset,
    pub projectile: Projectile,
}

impl Weapon {
    pub open spec fn wf(self) -> bool {
        &&& self.cooldown_timer.wf()
        &&& self.projectile.wf()
        &&& self.mounting_point.wf()
        &&& 0 < self.gun_positions@.len() <= 8
        &&& forall|i: int| 0 <= i < self.gun_positions@.len() ==> (#[trigger] self.gun_positions@[i]).wf()
    }
}

/// Hostile weapons cool down twice as slowly as friendly ones.
pub open spec fn spec_cooldown(base: u64, friendly: bool) -> u64 {
    if friendly {
        base
    } else {
        (2 * base) as u64
    }
}

pub open spec fn spec_stomp_projectile(friendly: bool) -> Projectile {
    Projectile {
        speed: if friendly { 13_000i64 } else { 10_000i64 },
        damage: 6u32,
        friendly,
        projectile_type: ProjectileType::Stomp,
        pushback: 0i64,
    }
}

pub open spec fn spec_blaster_projectile(friendly: bool) -> Projectile {
    Projectile {
        speed: if friendly { 15_000i64 } else { 5_000i64 },
        damage: if friendly { 12u32 } else { 50u32 },
        friendly,
        projectile_type: ProjectileType::Blaster,
        pushback: 0i64,
    }
}

pub open spec fn spec_grim_projectile(friendly: bool) -> Projectile {
    Projectile {
        speed: if friendly { 5_000i64 } else { 4_000i64 },
        damage: if friendly { 50u32 } else { 40u32 },
        friendly,
        projectile_type: ProjectileType::Grim,
        pushback: 0i64,
    }
}

pub open spec fn spec_hammer_projectile(friendly: bool) -> Projectile {
    Projectile {
        speed: if friendly { 10_000i64 } else { 7_000i64 },
        damage: 4u32,
        friendly,
        projectile_type: ProjectileType::Hammer,
        pushback: 36_000i64,
    }
}

pub open spec fn spec_ratata_projectile(friendly: bool) -> Projectile {
    Projectile {
        speed: if friendly { 15_000i64 } else { 12_000i64 },
        damage: 3u32,
        friendly,
        projectile_type: ProjectileType::Ratata,
        pushback: 0i64,
    }
}

/// The static identity of a Stomp weapon: everything but the timer's
/// progress, which ticks as the weapon lives.
pub open spec fn is_stomp(w: Weapon, friendly: bool) -> bool {
    &&& w.name@ == "Stomp O' Matic"@
    &&& w.cooldown_timer.duration_us == spec_cooldown(STOMP_COOLDOWN_US, friendly)
    &&& w.mounting_point == if friendly {
        Offset { x: ((-PLAYER_WIDTH) as i64), y: ((-PLAYER_WING_TIPS) as i64) }
    } else {
        Offset { x: 0i64, y: 0i64 }
    }
    &&& w.gun_positions@ == seq![Offset { x: 0i64, y: 0i64 }]
    &&& w.projectile == spec_stomp_projectile(friendly)
}

pub open spec fn is_blaster(w: Weapon, friendly: bool) -> bool {
    &&& w.name@ == "Space Blaster"@
    &&& w.cooldown_timer.duration_us == spec_cooldown(BLASTER_COOLDOWN_US, friendly)
    &&& w.mounting_point == if friendly {
        Offset { x: PLAYER_WIDTH, y: ((-PLAYER_WING_TIPS) as i64) }
    } else {
        Offset { x: 0i64, y: 0i64 }
    }
    &&& w.gun_positions@ == seq![Offset { x: 0i64, y: 0i64 }]
    &&& w.projectile == spec_blaster_projectile(friendly)
}

pub open spec fn is_grim(w: Weapon, friendly: bool) -> bool {
    &&& w.name@ == "Grim Reaper"@
    &&& w.cooldown_timer.duration_us == spec_cooldown(GRIM_COOLDOWN_US, friendly)
    &&& w.mounting_point == Offset { x: 0i64, y: 0i64 }
    &&& w.gun_positions@ == seq![Offset { x: 0i64, y: 0i64 }]
    &&& w.projectile == spec_grim_projectile(friendly)
}

pub open spec fn is_hammer(w: Weapon, friendly: bool) -> bool {
    &&& w.name@ == "Space Hammer"@
    &&& w.cooldown_timer.duration_us == spec_cooldown(HAMMER_COOLDOWN_US, friendly)
    &&& w.mounting_point == if friendly {
        Offset { x: 0i64, y: 6_500i64 }
    } else {
        Offset { x: 0i64, y: 0i64 }
    }
    &&& w.gun_positions@ == seq![
        Offset { x: -24_000i64, y: 0i64 },
        Offset { x: 0i64, y: 0i64 },
        Offset { x: 24_000i64, y: 0i64 },
    ]
    &&& w.projectile == spec_hammer_projectile(friendly)
}

pub open spec fn is_ratata(w: Weapon, friendly: bool) -> bool {
    &&& w.name@ == "Ratata 9000"@
    &&& w.cooldown_timer.duration_us == spec_cooldown(RATATA_COOLDOWN_US, friendly)
    &&& w.mounting_point == if friendly {
        Offset { x: 0i64, y: ((-PLAYER_WING_TIPS) as i64) }
    } else {
        Offset { x: 0i64, y: 0i64 }
    }
    &&& w.gun_positions@ == if friendly {
        seq![Offset { x: ((-PLAYER_WIDTH) as i64), y: 0i64 }, Offset { x: PLAYER_WIDTH, y: 0i64 }]
    } else {
        seq![Offset { x: -6_000i64, y: 0i64 }, Offset { x: 6_000i64, y: 0i64 }]
    }
    &&& w.projectile == spec_ratata_projectile(friendly)
}

/// A freshly built weapon: its catalog identity with a paused, un-elapsed
/// cooldown timer (released by the first valid fire trigger).
pub open spec fn fresh_timer(w: Weapon) -> bool {
    w.cooldown_timer == (Timer {
        duration_us: w.cooldown_timer.duration_us,
        elapsed_us: 0u64,
        paused: true,
    })
}

impl Weapon {
    pub fn stomp(friendly: bool) -> (w: Weapon)
        ensures
            is_stomp(w, friendly),
            fresh_timer(w),
            w.wf(),
    {
        let cooldown = if friendly {
            STOMP_COOLDOWN_US
        } else {
            2 * STOMP_COOLDOWN_US
        };
        let mut gun_positions: Vec<Offset> = Vec::new();
        gun_positions.push(Offset { x: 0, y: 0 });
        proof {
            assert(gun_positions@ =~= seq![Offset { x: 0i64, y: 0i64 }]);
        }
        Weapon {
            name: "Stomp O' Matic".to_owned(),
            cooldown_timer: Timer::new_paused(cooldown),
            mounting_point: if friendly {
                Offset { x: -PLAYER_WIDTH, y: -PLAYER_WING_TIPS }
            } else {
                Offset { x: 0, y: 0 }
            },
            gun_positions,
            projectile: Projectile {
                speed: if friendly { 13_000 } else { 10_000 },
                damage: 6,
                friendly,
                projectile_type: ProjectileType::Stomp,
                pushback: 0,
            },
        }
    }

    pub fn blaster(friendly: bool) -> (w: Weapon)
        ensures
            is_blaster(w, friendly),
            fresh_timer(w),
            w.wf(),
    {
        let cooldown = if friendly {
            BLASTER_COOLDOWN_US
        } else {
            2 * BLASTER_COOLDOWN_US
        };
        let mut gun_positions: Vec<Offset> = Vec::new();
        gun_positions.push(Offset { x: 0, y: 0 });
        proof {
            assert(gun_positions@ =~= seq![Offset { x: 0i64, y: 0i64 }]);
        }
        Weapon {
            name: "Space Blaster".to_owned(),
            cooldown_timer: Timer::new_paused(cooldown),
            mounting_point: if friendly {
                Offset { x: PLAYER_WIDTH, y: -PLAYER_WING_TIPS }
            } else {
                Offset { x: 0, y: 0 }
            },
            gun_positions,
            projectile: Projectile {
                speed: if friendly { 15_000 } else { 5_000 },
                damage: if friendly { 12 } else { 50 },
                friendly,
                projectile_type: ProjectileType::Blaster,
                pushback: 0,
            },
        }
    }

    pub fn grim(friendly: bool) -> (w: Weapon)
        ensures
            is_grim(w, friendly),
            fresh_timer(w),
            w.wf(),
    {
        let cooldown = if friendly {
            GRIM_COOLDOWN_US
        } else {
            2 * GRIM_COOLDOWN_US
        };
        let mut gun_positions: Vec<Offset> = Vec::new();
        gun_positions.push(Offset { x: 0, y: 0 });
        proof {
            assert(gun_positions@ =~= seq![Offset { x: 0i64, y: 0i64 }]);
        }
        Weapon {
            name: "Grim Reaper".to_owned(),
            cooldown_timer: Timer::new_paused(cooldown),
            mounting_point: Offset { x: 0, y: 0 },
            gun_positions,
            projectile: Projectile {
                speed: if friendly { 5_000 } else { 4_000 },
                damage: if friendly { 50 } else { 40 },
                friendly,
                projectile_type: ProjectileType::Grim,
                pushback: 0,
            },
        }
    }

    pub fn hammer(friendly: bool) -> (w: Weapon)
        ensures
            is_hammer(w, friendly),
            fresh_timer(w),
            w.wf(),
    {
        let cooldown = if friendly {
            HAMMER_COOLDOWN_US
        } else {
            2 * HAMMER_COOLDOWN_US
        };
        let mut gun_positions: Vec<Offset> = Vec::new();
        gun_positions.push(Offset { x: -24_000, y: 0 });
        gun_positions.push(Offset { x: 0, y: 0 });
        gun_positions.push(Offset { x: 24_000, y: 0 });
        proof {
            assert(gun_positions@ =~= seq![
                Offset { x: -24_000i64, y: 0i64 },
                Offset { x: 0i64, y: 0i64 },
                Offset { x: 24_000i64, y: 0i64 },
            ]);
        }
        Weapon {
            name: "Space Hammer".to_owned(),
            cooldown_timer: Timer::new_paused(cooldown),
            mounting_point: if friendly {
                Offset { x: 0, y: 6_500 }
            } else {
                Offset { x: 0, y: 0 }
            },
            gun_positions,
            projectile: Projectile {
                speed: if friendly { 10_000 } else { 7_000 },
                damage: 4,
                friendly,
                projectile_type: ProjectileType::Hammer,
                pushback: 36_000,
            },
        }
    }

    pub fn ratata(friendly: bool) -> (w: Weapon)
        ensures
            is_ratata(w, friendly),
            fresh_timer(w),
            w.wf(),
    {
        let cooldown = if friendly {
            RATATA_COOLDOWN_US
        } else {
            2 * RATATA_COOLDOWN_US
        };
        let mut gun_positions: Vec<Offset> = Vec::new();
        if friendly {
            gun_positions.push(Offset { x: -PLAYER_WIDTH, y: 0 });
            gun_positions.push(Offset { x: PLAYER_WIDTH, y: 0 });
            proof {
                assert(gun_positions@ =~= seq![
                    Offset { x: ((-PLAYER_WIDTH) as i64), y: 0i64 },
                    Offset { x: PLAYER_WIDTH, y: 0i64 },
                ]);
            }
        } else {
            gun_positions.push(Offset { x: -6_000, y: 0 });
            gun_positions.push(Offset { x: 6_000, y: 0 });
            proof {
                assert(gun_positions@ =~= seq![
                    Offset { x: -6_000i64, y: 0i64 },
                    Offset { x: 6_000i64, y: 0i64 },
                ]);
            }
        }
        Weapon {
            name: "Ratata 9000".to_owned(),
            cooldown_timer: Timer::new_paused(cooldown),
            mounting_point: if friendly {
                Offset { x: 0, y: -PLAYER_WING_TIPS }
            } else {
                Offset { x: 0, y: 0 }
            },
            gun_positions,
            projectile: Projectile {
                speed: if friendly { 15_000 } else { 12_000 },
                damage: 3,
                friendly,
                projectile_type: ProjectileType::Ratata,
                pushback: 0,
            },
        }
    }
}

/// Fires once a level-gated weapon slot is selected afresh.
#[derive(Clone, Copy, PartialEq, Eq, Structural, Debug)]
pub struct WeaponSwitchedEvent;

/// A weapon may fire when its cooldown has fully elapsed, or when it is
/// still in its initial paused state (the first trigger releases it).
pub open spec fn spec_fire_ready(t: Timer) -> bool {
    t.spec_finished() || t.paused
}

/// Where one barrel's projectile appears: the owner's center plus the mount
/// and barrel offsets, placed just outside the owner's box on the firing
/// side (above for friendly weapons, below for hostile ones).
pub open spec fn spec_emitted(w: Weapon, owner: Body, gun: Offset, proj_size: Size) -> ProjectileEntity {
    let edge = (owner.size.height + proj_size.height) / 2;
    let x = owner.x + w.mounting_point.x + gun.x;
    let y = if w.projectile.friendly {
        owner.y + w.mounting_point.y + gun.y + edge
    } else {
        owner.y + w.mounting_point.y + gun.y - edge
    };
    ProjectileEntity {
        projectile: w.projectile,
        body: Body { x: spec_confine(x) as i64, y: spec_confine(y) as i64, size: proj_size },
    }
}

/// One trigger pull: a projectile per barrel.
pub open spec fn spec_volley(w: Weapon, owner: Body, proj_size: Size) -> Seq<ProjectileEntity> {
    w.gun_positions@.map_values(|g: Offset| spec_emitted(w, owner, g, proj_size))
}

fn emit(w: &Weapon, owner: &Body, gun: &Offset, proj_size: &Size) -> (p: ProjectileEntity)
    requires
        w.wf(),
        owner.wf(),
        gun.wf(),
        proj_size.wf(),
    ensures
        p == spec_emitted(*w, *owner, *gun, *proj_size),
        p.wf(),
{
    let edge: i64 = ((owner.size.height as u64 + proj_size.height as u64) / 2) as i64;
    let x = confine(owner.x + w.mounting_point.x + gun.x);
    let y = if w.projectile.friendly {
        confine(owner.y + w.mounting_point.y + gun.y + edge)
    } else {
        confine(owner.y + w.mounting_point.y + gun.y - edge)
    };
    ProjectileEntity {
        projectile: w.projectile,
        body: Body { x, y, size: *proj_size },
    }
}

fn fire_volley(w: &Weapon, owner: &Body, proj_size: &Size) -> (shots: Vec<ProjectileEntity>)
    requires
        w.wf(),
        owner.wf(),
        proj_size.wf(),
    ensures
        shots@ == spec_volley(*w, *owner, *proj_size),
        forall|i: int| 0 <= i < shots@.len() ==> (#[trigger] shots@[i]).wf(),
{
    let ghost em = |g: Offset| spec_emitted(*w, *owner, g, *proj_size);
    let mut shots: Vec<ProjectileEntity> = Vec::new();
    let n = w.gun_positions.len();
    let mut i: usize = 0;
    proof {
        assert(shots@ =~= w.gun_positions@.subrange(0, 0).map_values(em));
    }
    while i < n
        invariant
            n == w.gun_positions@.len(),
            i <= n,
            w.wf(),
            owner.wf(),
            proj_size.wf(),
            em == |g: Offset| spec_emitted(*w, *owner, g, *proj_size),
            shots@ == w.gun_positions@.subrange(0, i as int).map_values(em),
            forall|k: int| 0 <= k < shots@.len() ==> (#[trigger] shots@[k]).wf(),
        decreases n - i,
    {
        let gun = w.gun_positions[i];
        let p = emit(w, owner, &gun, proj_size);
        shots.push(p);
        proof {
            assert(w.gun_positions@.subrange(0, i as int + 1) =~= w.gun_positions@.subrange(
                0,
                i as int,
            ).push(gun));
            assert(w.gun_positions@.subrange(0, i as int + 1).map_values(em) =~= w.gun_positions@
                .subrange(0, i as int).map_values(em).push(em(gun)));
        }
        i = i + 1;
    }
    proof {
        assert(w.gun_positions@.subrange(0, n as int) =~= w.gun_positions@);
    }
    shots
}

/// The current weapon's cooldown ticks every frame; on a fresh fire-key
/// press with the weapon ready (or still in its initial paused state) every
/// barrel emits one projectile just above the player and the cooldown
/// starts over.
pub fn player_shoot(
    player: &mut Player,
    player_body: &Body,
    fire_pressed: bool,
    dt: u64,
    sizes: &SpriteSizes,
) -> (shots: Vec<ProjectileEntity>)
    requires
        old(player).wf(),
        player_body.wf(),
        sizes.wf(),
        dt <= DT_LIMIT,
    ensures
        final(player).wf(),
        final(player).speed == old(player).speed,
        final(player).current_weapon_index == old(player).current_weapon_index,
        ({
            let idx = old(player).current_weapon_index as int;
            let w0 = old(player).weapons@[idx];
            let ticked = spec_ticked(w0.cooldown_timer, dt as int);
            let fired = fire_pressed && spec_fire_ready(ticked);
            let timer_after = if fired {
                Timer { duration_us: w0.cooldown_timer.duration_us, elapsed_us: 0u64, paused: false }
            } else {
                ticked
            };
            &&& final(player).weapons@ == old(player).weapons@.update(
                idx,
                Weapon { cooldown_timer: timer_after, ..w0 },
            )
            &&& shots@ == if fired {
                spec_volley(
                    (Weapon { cooldown_timer: ticked, ..w0 }),
                    *player_body,
                    sizes.spec_projectile_size(w0.projectile.projectile_type),
                )
            } else {
                Seq::<ProjectileEntity>::empty()
            }
        }),
        forall|i: int| 0 <= i < shots@.len() ==> (#[trigger] shots@[i]).wf(),
{
    let idx = player.current_weapon_index;
    let mut weapon = player.weapons.remove(idx);
    weapon.cooldown_timer.tick(dt);

    let ready = weapon.cooldown_timer.finished() || weapon.cooldown_timer.is_paused();
    let mut shots: Vec<ProjectileEntity> = Vec::new();
    if fire_pressed && ready {
        let proj_size = sizes.projectile_size(&weapon.projectile.projectile_type);
        shots = fire_volley(&weapon, player_body, &proj_size);
        if weapon.cooldown_timer.is_paused() {
            weapon.cooldown_timer.unpause();
        }
        weapon.cooldown_timer.reset();
    }
    player.weapons.insert(idx, weapon);
    proof {
        let idx = idx as int;
        let w0 = old(player).weapons@[idx];
        let ticked = spec_ticked(w0.cooldown_timer, dt as int);
        let fired = fire_pressed && spec_fire_ready(ticked);
        let timer_after = if fired {
            Timer { duration_us: w0.cooldown_timer.duration_us, elapsed_us: 0u64, paused: false }
        } else {
            ticked
        };
        assert(final(player).weapons@ =~= old(player).weapons@.update(
            idx,
            Weapon { cooldown_timer: timer_after, ..w0 },
        ));
    }
    shots
}

/// A safety margin below the top edge: an enemy counts as fully visible
/// only once its whole box is this far inside the viewport.
pub const FIRE_VISIBILITY_MARGIN: i64 = 12_000;

/// The enemy's box lies entirely below the top-edge safety margin.
pub open spec fn spec_fully_visible(b: Body, viewport: Size) -> bool {
    2 * b.y + b.size.height <= viewport.height - 2 * FIRE_VISIBILITY_MARGIN
}

/// The enemy's projected firing lane — a strip as wide as the player's box,
/// dropping from the enemy's row to the bottom of the viewport — overlaps
/// the player's box.
pub open spec fn spec_aims_at_player(ebody: Body, player: Body, viewport: Size) -> bool {
    &&& 2 * player.x - player.size.width < 2 * ebody.x + player.size.width
    &&& 2 * player.x + player.size.width > 2 * ebody.x - player.size.width
    &&& 2 * player.y - player.size.height < 2 * ebody.y
    &&& 2 * player.y + player.size.height > -viewport.height
}

/// The fire decision an enemy takes after its timer ticked this frame.
pub open spec fn spec_enemy_fires(e: EnemyEntity, player: Body, viewport: Size, dt: int) -> bool {
    match e.enemy.weapon {
        Some(w) => {
            &&& spec_fire_ready(spec_ticked(w.cooldown_timer, dt))
            &&& spec_fully_visible(e.body, viewport)
            &&& spec_aims_at_player(e.body, player, viewport)
        },
        None => false,
    }
}

/// The enemy after its weapon ticked and possibly fired this frame.
pub open spec fn spec_enemy_after_shoot(
    e: EnemyEntity,
    player: Body,
    viewport: Size,
    dt: int,
) -> EnemyEntity {
    match e.enemy.weapon {
        Some(w) => {
            let ticked = spec_ticked(w.cooldown_timer, dt);
            let timer_after = if spec_enemy_fires(e, player, viewport, dt) {
                Timer { duration_us: w.cooldown_timer.duration_us, elapsed_us: 0u64, paused: false }
            } else {
                ticked
            };
            EnemyEntity {
                enemy: crate::ships::Enemy {
                    weapon: Some(Weapon { cooldown_timer: timer_after, ..w }),
                    ..e.enemy
                },
                ..e
            }
        },
        None => e,
    }
}

/// What the enemy contributes to this frame's hostile fire.
pub open spec fn spec_enemy_volley(
    e: EnemyEntity,
    player: Body,
    viewport: Size,
    dt: int,
    sizes: SpriteSizes,
) -> Seq<ProjectileEntity> {
    match e.enemy.weapon {
        Some(w) => if spec_enemy_fires(e, player, viewport, dt) {
            spec_volley(
                (Weapon { cooldown_timer: spec_ticked(w.cooldown_timer, dt), ..w }),
                e.body,
                sizes.spec_projectile_size(w.projectile.projectile_type),
            )
        } else {
            Seq::<ProjectileEntity>::empty()
        },
        None => Seq::<ProjectileEntity>::empty(),
    }
}

/// All hostile fire of the frame, in enemy order.
pub open spec fn spec_volleys(
    es: Seq<EnemyEntity>,
    player: Body,
    viewport: Size,
    dt: int,
    sizes: SpriteSizes,
) -> Seq<ProjectileEntity>
    decreases es.len(),
{
    if es.len() == 0 {
        Seq::<ProjectileEntity>::empty()
    } else {
        spec_volleys(es.drop_last(), player, viewport, dt, sizes) + spec_enemy_volley(
            es.last(),
            player,
            viewport,
            dt,
            sizes,
        )
    }
}

/// Every armed enemy ticks its cooldown; one that is ready, fully visible
/// below the top-edge margin, and whose firing lane overlaps the player
/// opens fire: one hostile projectile per barrel, placed just below it,
/// and its cooldown starts over.
pub fn enemy_shoot(
    enemies: &mut Vec<EnemyEntity>,
    player_body: &Body,
    viewport: &Size,
    dt: u64,
    sizes: &SpriteSizes,
) -> (shots: Vec<ProjectileEntity>)
    requires
        forall|i: int| 0 <= i < old(enemies)@.len() ==> (#[trigger] old(enemies)@[i]).wf(),
        player_body.wf(),
        viewport.wf(),
        sizes.wf(),
        dt <= DT_LIMIT,
    ensures
        final(enemies)@ == old(enemies)@.map_values(
            |e: EnemyEntity| spec_enemy_after_shoot(e, *player_body, *viewport, dt as int),
        ),
        shots@ == spec_volleys(old(enemies)@, *player_body, *viewport, dt as int, *sizes),
        forall|i: int| 0 <= i < final(enemies)@.len() ==> (#[trigger] final(enemies)@[i]).wf(),
        forall|i: int| 0 <= i < shots@.len() ==> (#[trigger] shots@[i]).wf(),
{
    let ghost after = |e: EnemyEntity| spec_enemy_after_shoot(e, *player_body, *viewport, dt as int);
    let mut shots: Vec<ProjectileEntity> = Vec::new();
    let n = enemies.len();
    let mut i: usize = 0;
    while i < n
        invariant
            n == enemies@.len(),
            n == old(enemies)@.len(),
            i <= n,
            player_body.wf(),
            viewport.wf(),
            sizes.wf(),
            dt <= DT_LIMIT,
            after == |e: EnemyEntity| spec_enemy_after_shoot(e, *player_body, *viewport, dt as int),
            forall|k: int| 0 <= k < old(enemies)@.len() ==> (#[trigger] old(enemies)@[k]).wf(),
            forall|k: int| i <= k < n ==> enemies@[k] == old(enemies)@[k],
            forall|k: int| 0 <= k < i ==> enemies@[k] == after(old(enemies)@[k]),
            forall|k: int| 0 <= k < enemies@.len() ==> (#[trigger] enemies@[k]).wf(),
            shots@ == spec_volleys(
                old(enemies)@.subrange(0, i as int),
                *player_body,
                *viewport,
                dt as int,
                *sizes,
            ),
            forall|k: int| 0 <= k < shots@.len() ==> (#[trigger] shots@[k]).wf(),
        decreases n - i,
    {
        let ghost prev_enemies = enemies@;
        let mut ent = enemies.remove(i);
        let ghost ent0 = ent;
        if ent.enemy.weapon.is_some() {
            let mut weapon = ent.enemy.weapon.unwrap();
            weapon.cooldown_timer.tick(dt);

            let ready = weapon.cooldown_timer.finished() || weapon.cooldown_timer.is_paused();
            let fully_visible = 2 * ent.body.y + ent.body.size.height <= viewport.height - 2
                * FIRE_VISIBILITY_MARGIN;
            let aims = 2 * player_body.x - player_body.size.width < 2 * ent.body.x
                + player_body.size.width && 2 * player_body.x + player_body.size.width > 2
                * ent.body.x - player_body.size.width && 2 * player_body.y
                - player_body.size.height < 2 * ent.body.y && 2 * player_body.y
                + player_body.size.height > -viewport.height;

            if ready && fully_visible && aims {
                let proj_size = sizes.projectile_size(&weapon.projectile.projectile_type);
                let mut volley = fire_volley(&weapon, &ent.body, &proj_size);
                shots.append(&mut volley);
                if weapon.cooldown_timer.is_paused() {
                    weapon.cooldown_timer.unpause();
                }
                weapon.cooldown_timer.reset();
                assert(spec_enemy_fires(ent0, *player_body, *viewport, dt as int));
            } else {
                assert(!spec_enemy_fires(ent0, *player_body, *viewport, dt as int));
            }
            ent.enemy.weapon = Some(weapon);
        } else {
            assert(!spec_enemy_fires(ent0, *player_body, *viewport, dt as int));
        }
        assert(ent == after(ent0));
        enemies.insert(i, ent);
        proof {
            assert(enemies@ =~= prev_enemies.update(i as int, after(ent0)));
            assert(old(enemies)@.subrange(0, i as int + 1).drop_last() =~= old(enemies)@.subrange(
                0,
                i as int,
            ));
            assert(old(enemies)@.subrange(0, i as int + 1).last() == ent0);
        }
        i = i + 1;
    }
    proof {
        assert(old(enemies)@.subrange(0, n as int) =~= old(enemies)@);
        assert(enemies@ =~= old(enemies)@.map_values(after));
    }
    shots
}

/// Which weapon-slot keys were freshly pressed this frame.
#[derive(Clone, Copy, PartialEq, Eq, Structural, Debug)]
pub struct WeaponKeys {
    pub key1: bool,
    pub key2: bool,
    pub key3: bool,
    pub key4: bool,
    pub key5: bool,
}

/// The selected slot after the frame's switching pass: the keys are handled
/// in order, each gated on the level that unlocks its slot (slot one is
/// always available), and a later key overrides an earlier one.
pub open spec fn spec_selected_after(p: Player, g: Game, keys: WeaponKeys) -> int {
    let i0 = p.current_weapon_index as int;
    let i1 = if keys.key1 { 0 } else { i0 };
    let i2 = if keys.key2 && g.level >= 2 { 1 } else { i1 };
    let i3 = if keys.key3 && g.level >= 3 { 2 } else { i2 };
    let i4 = if keys.key4 && g.level >= 4 { 3 } else { i3 };
    if keys.key5 && g.level >= 5 { 4 } else { i4 }
}

/// How many switch events fire this frame: one per handled key that names a
/// slot other than the one selected at that moment.
pub open spec fn spec_switch_events(p: Player, g: Game, keys: WeaponKeys) -> int {
    let i0 = p.current_weapon_index as int;
    let c1: int = if keys.key1 && i0 != 0 { 1 } else { 0 };
    let i1 = if keys.key1 { 0 } else { i0 };
    let c2: int = if keys.key2 && g.level >= 2 && i1 != 1 { 1 } else { 0 };
    let i2 = if keys.key2 && g.level >= 2 { 1 } else { i1 };
    let c3: int = if keys.key3 && g.level >= 3 && i2 != 2 { 1 } else { 0 };
    let i3 = if keys.key3 && g.level >= 3 { 2 } else { i2 };
    let c4: int = if keys.key4 && g.level >= 4 && i3 != 3 { 1 } else { 0 };
    let i4 = if keys.key4 && g.level >= 4 { 3 } else { i3 };
    let c5: int = if keys.key5 && g.level >= 5 && i4 != 4 { 1 } else { 0 };
    c1 + c2 + c3 + c4 + c5
}

/// Law: switching can only land on the always-available first slot or on a
/// slot the level has unlocked — a locked slot can never become selected.
pub proof fn lemma_switching_respects_unlocks(p: Player, g: Game, keys: WeaponKeys)
    requires
        p.current_weapon_index == 0 || p.current_weapon_index < g.level,
    ensures
        ({
            let s = spec_selected_after(p, g, keys);
            s == 0 || s < g.level
        }),
{
}

/// Select a weapon slot by its number key; slots beyond the first unlock at
/// the level with the same number. One switch event fires per key that
/// actually changed the selection.
pub fn weapon_switching(player: &mut Player, game: &Game, keys: &WeaponKeys) -> (events: Vec<
    WeaponSwitchedEvent,
>)
    requires
        old(player).wf(),
    ensures
        final(player).wf(),
        final(player).speed == old(player).speed,
        final(player).weapons == old(player).weapons,
        final(player).current_weapon_index as int == spec_selected_after(*old(player), *game, *keys),
        events@.len() == spec_switch_events(*old(player), *game, *keys),
{
    let mut events: Vec<WeaponSwitchedEvent> = Vec::new();

    if keys.key1 {
        if player.current_weapon_index != 0 {
            player.current_weapon_index = 0;
            events.push(WeaponSwitchedEvent);
        }
    }
    if keys.key2 && game.level >= 2 {
        if player.current_weapon_index != 1 {
            player.current_weapon_index = 1;
            events.push(WeaponSwitchedEvent);
        }
    }
    if keys.key3 && game.level >= 3 {
        if player.current_weapon_index != 2 {
            player.current_weapon_index = 2;
            events.push(WeaponSwitchedEvent);
        }
    }
    if keys.key4 && game.level >= 4 {
        if player.current_weapon_index != 3 {
            player.current_weapon_index = 3;
            events.push(WeaponSwitchedEvent);
        }
    }
    if keys.key5 && game.level >= 5 {
        if player.current_weapon_index != 4 {
            player.current_weapon_index = 4;
            events.push(WeaponSwitchedEvent);
        }
    }
    events
}

} // verus!
