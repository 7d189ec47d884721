//! Collision and damage resolution, and the despawn pass that charges Earth
//! for enemies that slip past.
//!
//! All tests are strict axis-aligned box overlaps. A projectile scores at
//! most one hit: it is destroyed on its first qualifying overlap within the
//! frame's resolution pass, striking the first enemy in list order. Every
//! health decrement saturates at zero; every score increment is a saturating
//! add. Each pass is specified as a left-to-right fold over the entity list,
//! exactly as the loop walks it.

use vstd::prelude::*;
use crate::effects::{Effect, spec_explosion_at, spec_hit_flash_at};
use crate::game::{Game, spec_sat_add, spec_sat_sub};
use crate::geom::{Body, Size, overlaps, collide, spec_confine, spec_past_bottom, confine};
use crate::seq_util::lemma_filter_push;
use crate::shooting::ProjectileEntity;
use crate::ships::{Enemy, EnemyEntity};

verus! {

pub fn enemy_past_bottom(y: i64, viewport: &Size, size: &Size) -> (r: bool)
    requires
        viewport.wf(),
        size.wf(),
        -crate::geom::COORD_LIMIT <= y <= crate::geom::COORD_LIMIT,
    ensures
        r == spec_past_bottom(y as int, size.height as int, viewport.height as int),
{
    2 * y + size.height < -viewport.height
}

/// An enemy fully below the bottom edge has reached Earth.
pub open spec fn spec_enemy_escaped(e: EnemyEntity, viewport: Size) -> bool {
    spec_past_bottom(e.body.y as int, e.body.size.height as int, viewport.height as int)
}

/// Earth health after the escaped enemies in the list, in list order, each
/// charged its bounty with saturating subtraction.
pub open spec fn spec_earth_after_despawn(earth: u32, es: Seq<EnemyEntity>, viewport: Size) -> u32
    decreases es.len(),
{
    if es.len() == 0 {
        earth
    } else {
        let prev = spec_earth_after_despawn(earth, es.drop_last(), viewport);
        if spec_enemy_escaped(es.last(), viewport) {
            spec_sat_sub(prev, es.last().enemy.bounty)
        } else {
            prev
        }
    }
}

/// Remove every enemy fully past the bottom edge, charging Earth the
/// enemy's bounty for each one that got through.
pub fn despawn_enemies(game: &mut Game, enemies: &mut Vec<EnemyEntity>, viewport: &Size)
    requires
        forall|i: int| 0 <= i < old(enemies)@.len() ==> (#[trigger] old(enemies)@[i]).wf(),
        viewport.wf(),
    ensures
        *final(game) == (Game {
            earth_health: spec_earth_after_despawn(old(game).earth_health, old(enemies)@, *viewport),
            ..*old(game)
        }),
        final(enemies)@ == old(enemies)@.filter(
            |e: EnemyEntity| !spec_enemy_escaped(e, *viewport),
        ),
        forall|i: int| 0 <= i < final(enemies)@.len() ==> (#[trigger] final(enemies)@[i]).wf(),
{
    let ghost orig = old(enemies)@;
    let ghost keep = |e: EnemyEntity| !spec_enemy_escaped(e, *viewport);
    let mut kept: Vec<EnemyEntity> = Vec::new();
    let n = enemies.len();
    let mut i: usize = 0;
    proof {
        reveal(Seq::filter);
        assert(orig.subrange(0, 0) =~= Seq::<EnemyEntity>::empty());
        assert(kept@ =~= orig.subrange(0, 0).filter(keep));
        assert(enemies@ =~= orig.skip(0));
    }
    while i < n
        invariant
            n == orig.len(),
            i <= n,
            enemies@ == orig.skip(i as int),
            viewport.wf(),
            forall|k: int| 0 <= k < orig.len() ==> (#[trigger] orig[k]).wf(),
            keep == |e: EnemyEntity| !spec_enemy_escaped(e, *viewport),
            kept@ == orig.subrange(0, i as int).filter(keep),
            game.health == old(game).health,
            game.score == old(game).score,
            game.level == old(game).level,
            game.earth_health == spec_earth_after_despawn(
                old(game).earth_health,
                orig.subrange(0, i as int),
                *viewport,
            ),
            forall|k: int| 0 <= k < kept@.len() ==> (#[trigger] kept@[k]).wf(),
        decreases n - i,
    {
        let e = enemies.remove(0);
        let ghost e0 = e;
        proof {
            assert(e0 == orig[i as int]);
            assert(enemies@ =~= orig.skip(i as int + 1));
            lemma_filter_push(orig.subrange(0, i as int), e0, keep);
            assert(orig.subrange(0, i as int).push(e0) =~= orig.subrange(0, i as int + 1));
            assert(orig.subrange(0, i as int + 1).drop_last() =~= orig.subrange(0, i as int));
        }
        let escaped = enemy_past_bottom(e.body.y, viewport, &e.body.size);
        if escaped {
            let bounty = e.enemy.bounty;
            game.damage_earth(bounty);
        } else {
            kept.push(e);
        }
        i = i + 1;
    }
    proof {
        assert(orig.subrange(0, n as int) =~= orig);
    }
    *enemies = kept;
}

/// An enemy whose box overlaps the player's box rams the player.
pub open spec fn spec_enemy_hits_player(e: EnemyEntity, player: Body) -> bool {
    overlaps(e.body, player)
}

/// The scoreboard after the frame's ramming collisions, in list order: each
/// ramming enemy costs its collision damage and pays its bounty.
pub open spec fn spec_game_after_crashes(g: Game, es: Seq<EnemyEntity>, player: Body) -> Game
    decreases es.len(),
{
    if es.len() == 0 {
        g
    } else {
        let prev = spec_game_after_crashes(g, es.drop_last(), player);
        if spec_enemy_hits_player(es.last(), player) {
            Game {
                health: spec_sat_sub(prev.health, es.last().enemy.collision_damage),
                score: spec_sat_add(prev.score, es.last().enemy.bounty),
                ..prev
            }
        } else {
            prev
        }
    }
}

/// The explosions the frame's ramming collisions leave behind, one at each
/// rammed enemy's spot.
pub open spec fn spec_crash_explosions(es: Seq<EnemyEntity>, player: Body) -> Seq<Effect>
    decreases es.len(),
{
    if es.len() == 0 {
        Seq::<Effect>::empty()
    } else {
        let prev = spec_crash_explosions(es.drop_last(), player);
        if spec_enemy_hits_player(es.last(), player) {
            prev.push(spec_explosion_at(es.last().body.x, es.last().body.y))
        } else {
            prev
        }
    }
}

/// Resolve direct player-enemy collisions: each overlapping enemy damages
/// the player by its collision damage, pays its bounty, is destroyed, and
/// leaves an explosion at its last position.
pub fn enemy_collision(
    game: &mut Game,
    player_body: &Body,
    enemies: &mut Vec<EnemyEntity>,
) -> (explosions: Vec<Effect>)
    requires
        forall|i: int| 0 <= i < old(enemies)@.len() ==> (#[trigger] old(enemies)@[i]).wf(),
        player_body.wf(),
    ensures
        *final(game) == spec_game_after_crashes(*old(game), old(enemies)@, *player_body),
        final(enemies)@ == old(enemies)@.filter(
            |e: EnemyEntity| !spec_enemy_hits_player(e, *player_body),
        ),
        explosions@ == spec_crash_explosions(old(enemies)@, *player_body),
        forall|i: int| 0 <= i < final(enemies)@.len() ==> (#[trigger] final(enemies)@[i]).wf(),
        forall|i: int| 0 <= i < explosions@.len() ==> (#[trigger] explosions@[i]).wf(),
{
    let ghost orig = old(enemies)@;
    let ghost keep = |e: EnemyEntity| !spec_enemy_hits_player(e, *player_body);
    let mut kept: Vec<EnemyEntity> = Vec::new();
    let mut explosions: Vec<Effect> = Vec::new();
    let n = enemies.len();
    let mut i: usize = 0;
    proof {
        reveal(Seq::filter);
        assert(orig.subrange(0, 0) =~= Seq::<EnemyEntity>::empty());
        assert(kept@ =~= orig.subrange(0, 0).filter(keep));
        assert(enemies@ =~= orig.skip(0));
    }
    while i < n
        invariant
            n == orig.len(),
            i <= n,
            enemies@ == orig.skip(i as int),
            player_body.wf(),
            forall|k: int| 0 <= k < orig.len() ==> (#[trigger] orig[k]).wf(),
            keep == |e: EnemyEntity| !spec_enemy_hits_player(e, *player_body),
            kept@ == orig.subrange(0, i as int).filter(keep),
            *game == spec_game_after_crashes(*old(game), orig.subrange(0, i as int), *player_body),
            explosions@ == spec_crash_explosions(orig.subrange(0, i as int), *player_body),
            forall|k: int| 0 <= k < kept@.len() ==> (#[trigger] kept@[k]).wf(),
            forall|k: int| 0 <= k < explosions@.len() ==> (#[trigger] explosions@[k]).wf(),
        decreases n - i,
    {
        let e = enemies.remove(0);
        let ghost e0 = e;
        proof {
            assert(e0 == orig[i as int]);
            assert(enemies@ =~= orig.skip(i as int + 1));
            lemma_filter_push(orig.subrange(0, i as int), e0, keep);
            assert(orig.subrange(0, i as int).push(e0) =~= orig.subrange(0, i as int + 1));
            assert(orig.subrange(0, i as int + 1).drop_last() =~= orig.subrange(0, i as int));
        }
        let hits = collide(&e.body, player_body);
        if hits {
            let collision_damage = e.enemy.collision_damage;
            let bounty = e.enemy.bounty;
            game.damage_player(collision_damage);
            game.add_score(bounty);
            explosions.push(Effect::explosion(e.body.x, e.body.y));
        } else {
            kept.push(e);
        }
        i = i + 1;
    }
    proof {
        assert(orig.subrange(0, n as int) =~= orig);
    }
    *enemies = kept;
    explosions
}

/// Law: one ramming enemy costs the player exactly its collision damage,
/// saturating at zero, pays its bounty exactly once, is itself removed, and
/// leaves exactly one explosion at its last spot; earth health and the
/// level are untouched (and the pass never reads, let alone moves, the
/// player's box). The score bound is a machine limit: the score saturates
/// at the integer cap.
pub proof fn lemma_crash_resolution(g: Game, e: EnemyEntity, player: Body)
    requires
        overlaps(e.body, player),
        g.score + e.enemy.bounty <= u32::MAX,
    ensures
        ({
            let after = spec_game_after_crashes(g, seq![e], player);
            &&& after.health == spec_sat_sub(g.health, e.enemy.collision_damage)
            &&& after.score == g.score + e.enemy.bounty
            &&& after.earth_health == g.earth_health
            &&& after.level == g.level
        }),
        seq![e].filter(|x: EnemyEntity| !spec_enemy_hits_player(x, player)).len() == 0,
        spec_crash_explosions(seq![e], player) == seq![spec_explosion_at(e.body.x, e.body.y)],
{
    reveal(Seq::filter);
    let s = seq![e];
    assert(s.len() == 1);
    assert(s.last() == e);
    assert(s.drop_last() =~= Seq::<EnemyEntity>::empty());
    assert(spec_game_after_crashes(g, s.drop_last(), player) == g);
    assert(spec_crash_explosions(s.drop_last(), player) == Seq::<Effect>::empty());
    assert(spec_enemy_hits_player(e, player));
    assert(spec_crash_explosions(s, player) =~= seq![spec_explosion_at(e.body.x, e.body.y)]);
    let keep = |x: EnemyEntity| !spec_enemy_hits_player(x, player);
    assert(!keep(e));
    assert(s.drop_last().filter(keep) =~= Seq::<EnemyEntity>::empty());
    assert(s.filter(keep) =~= Seq::<EnemyEntity>::empty());
}

/// Law: a friendly projectile's first qualifying hit destroys the
/// projectile, nudges the enemy away from the shooter by the pushback,
/// costs it exactly the projectile's damage saturating at zero (never
/// negative), and leaves a hit flash keyed by the projectile's kind at the
/// point of impact. A lethal hit — damage at least the remaining health —
/// additionally removes the enemy, pays its bounty exactly once, and
/// leaves an explosion at the enemy's pushed position; a survivable hit
/// changes no score and keeps the enemy. The score bound is a machine
/// limit: the score saturates at the integer cap.
pub proof fn lemma_friendly_strike(g: Game, e: EnemyEntity, p: ProjectileEntity)
    requires
        overlaps(e.body, p.body),
        p.projectile.friendly,
        g.score + e.enemy.bounty <= u32::MAX,
    ensures
        ({
            let r = spec_resolve_friendly(g, seq![e], p);
            let pushed_y = spec_confine(e.body.y + p.projectile.pushback) as i64;
            let flash = spec_hit_flash_at(p.projectile.projectile_type, p.body.x, p.body.y);
            &&& !r.3
            &&& if p.projectile.damage >= e.enemy.health {
                &&& r.0.score == g.score + e.enemy.bounty
                &&& r.0.health == g.health
                &&& r.0.earth_health == g.earth_health
                &&& r.0.level == g.level
                &&& r.1.len() == 0
                &&& r.2 == seq![flash, spec_explosion_at(e.body.x, pushed_y)]
            } else {
                &&& r.0 == g
                &&& r.1 == seq![
                    (EnemyEntity {
                        enemy: Enemy {
                            health: (e.enemy.health - p.projectile.damage) as u32,
                            ..e.enemy
                        },
                        body: Body { y: pushed_y, ..e.body },
                    }),
                ]
                &&& r.2 == seq![flash]
            }
        }),
{
    assert(spec_first_hit(seq![e], p.body, 0) == 0);
    let pushed_y = spec_confine(e.body.y + p.projectile.pushback) as i64;
    if p.projectile.damage >= e.enemy.health {
        assert(seq![e].remove(0) =~= Seq::<EnemyEntity>::empty());
    } else {
        assert(seq![e].update(
            0,
            (EnemyEntity {
                enemy: Enemy { health: (e.enemy.health - p.projectile.damage) as u32, ..e.enemy },
                body: Body { y: pushed_y, ..e.body },
            }),
        ) =~= seq![
            (EnemyEntity {
                enemy: Enemy { health: (e.enemy.health - p.projectile.damage) as u32, ..e.enemy },
                body: Body { y: pushed_y, ..e.body },
            }),
        ]);
    }
}

/// The first enemy, from index `i` on, whose box the projectile's box
/// overlaps; the list length when none does.
pub open spec fn spec_first_hit(es: Seq<EnemyEntity>, b: Body, i: int) -> int
    decreases es.len() - i,
{
    if i < 0 || i >= es.len() {
        es.len() as int
    } else if overlaps(es[i].body, b) {
        i
    } else {
        spec_first_hit(es, b, i + 1)
    }
}

fn find_first_hit(enemies: &Vec<EnemyEntity>, b: &Body) -> (idx: usize)
    requires
        forall|i: int| 0 <= i < enemies@.len() ==> (#[trigger] enemies@[i]).wf(),
        b.wf(),
    ensures
        idx == spec_first_hit(enemies@, *b, 0),
        idx <= enemies@.len(),
{
    let n = enemies.len();
    let mut j: usize = 0;
    while j < n
        invariant
            n == enemies@.len(),
            j <= n,
            b.wf(),
            forall|k: int| 0 <= k < enemies@.len() ==> (#[trigger] enemies@[k]).wf(),
            spec_first_hit(enemies@, *b, 0) == spec_first_hit(enemies@, *b, j as int),
        decreases n - j,
    {
        if collide(&enemies[j].body, b) {
            return j;
        }
        j = j + 1;
    }
    n
}

/// What one friendly projectile does: it strikes the first overlapping
/// enemy, nudging it by the pushback, costing it the projectile's damage,
/// and leaving a hit flash; a kill also pays the bounty, removes the enemy
/// and leaves an explosion. Yields the scoreboard, the enemy list, the new
/// effects, and whether the projectile survives.
pub open spec fn spec_resolve_friendly(g: Game, es: Seq<EnemyEntity>, p: ProjectileEntity) -> (
    Game,
    Seq<EnemyEntity>,
    Seq<Effect>,
    bool,
) {
    let i = spec_first_hit(es, p.body, 0);
    if i >= es.len() {
        (g, es, Seq::<Effect>::empty(), true)
    } else {
        let e = es[i];
        let pushed = EnemyEntity {
            body: Body {
                y: spec_confine(e.body.y + p.projectile.pushback) as i64,
                ..e.body
            },
            ..e
        };
        let health_after = spec_sat_sub(e.enemy.health, p.projectile.damage);
        let flash = spec_hit_flash_at(p.projectile.projectile_type, p.body.x, p.body.y);
        if health_after == 0 {
            (
                Game { score: spec_sat_add(g.score, e.enemy.bounty), ..g },
                es.remove(i),
                seq![flash, spec_explosion_at(pushed.body.x, pushed.body.y)],
                false,
            )
        } else {
            (
                g,
                es.update(i, (EnemyEntity { enemy: Enemy { health: health_after, ..e.enemy }, ..pushed })),
                seq![flash],
                false,
            )
        }
    }
}

/// What one hostile projectile does: if it overlaps the player it costs the
/// player its damage, nudges the player down by the pushback, and leaves a
/// hit flash; otherwise it flies on.
pub open spec fn spec_resolve_hostile(g: Game, player: Body, p: ProjectileEntity) -> (
    Game,
    Body,
    Seq<Effect>,
    bool,
) {
    if overlaps(player, p.body) {
        (
            Game { health: spec_sat_sub(g.health, p.projectile.damage), ..g },
            Body { y: spec_confine(player.y - p.projectile.pushback) as i64, ..player },
            seq![spec_hit_flash_at(p.projectile.projectile_type, p.body.x, p.body.y)],
            false,
        )
    } else {
        (g, player, Seq::<Effect>::empty(), true)
    }
}

/// The whole resolution pass, projectile by projectile in list order, each
/// seeing the world as the previous ones left it. Yields the scoreboard,
/// the player's box, the enemy list, the frame's new effects, and the
/// surviving projectiles.
pub open spec fn spec_resolve_pass(
    g: Game,
    player: Body,
    es: Seq<EnemyEntity>,
    ps: Seq<ProjectileEntity>,
) -> (Game, Body, Seq<EnemyEntity>, Seq<Effect>, Seq<ProjectileEntity>)
    decreases ps.len(),
{
    if ps.len() == 0 {
        (g, player, es, Seq::<Effect>::empty(), Seq::<ProjectileEntity>::empty())
    } else {
        let r = spec_resolve_pass(g, player, es, ps.drop_last());
        let p = ps.last();
        if p.projectile.friendly {
            let s = spec_resolve_friendly(r.0, r.2, p);
            (s.0, r.1, s.1, r.3 + s.2, if s.3 { r.4.push(p) } else { r.4 })
        } else {
            let s = spec_resolve_hostile(r.0, r.1, p);
            (s.0, s.1, r.2, r.3 + s.2, if s.3 { r.4.push(p) } else { r.4 })
        }
    }
}

/// Resolve every projectile against its targets: friendly ones against the
/// enemy list, hostile ones against the player. Returns the frame's new
/// feedback effects.
pub fn projectile_collision(
    game: &mut Game,
    player_body: &mut Body,
    enemies: &mut Vec<EnemyEntity>,
    projectiles: &mut Vec<ProjectileEntity>,
) -> (new_effects: Vec<Effect>)
    requires
        old(player_body).wf(),
        forall|i: int| 0 <= i < old(enemies)@.len() ==> (#[trigger] old(enemies)@[i]).wf(),
        forall|i: int| 0 <= i < old(projectiles)@.len() ==> (#[trigger] old(projectiles)@[i]).wf(),
    ensures
        ({
            let r = spec_resolve_pass(
                *old(game),
                *old(player_body),
                old(enemies)@,
                old(projectiles)@,
            );
            &&& *final(game) == r.0
            &&& *final(player_body) == r.1
            &&& final(enemies)@ == r.2
            &&& new_effects@ == r.3
            &&& final(projectiles)@ == r.4
        }),
        final(player_body).wf(),
        forall|i: int| 0 <= i < final(enemies)@.len() ==> (#[trigger] final(enemies)@[i]).wf(),
        forall|i: int| 0 <= i < final(projectiles)@.len()
            ==> (#[trigger] final(projectiles)@[i]).wf(),
        forall|i: int| 0 <= i < new_effects@.len() ==> (#[trigger] new_effects@[i]).wf(),
{
    let mut new_effects: Vec<Effect> = Vec::new();
    let mut kept: Vec<ProjectileEntity> = Vec::new();
    let n = projectiles.len();
    let mut i: usize = 0;
    proof {
        assert(projectiles@.subrange(0, 0) =~= Seq::<ProjectileEntity>::empty());
    }
    while i < n
        invariant
            n == projectiles@.len(),
            i <= n,
            *projectiles == *old(projectiles),
            forall|k: int| 0 <= k < projectiles@.len() ==> (#[trigger] projectiles@[k]).wf(),
            ({
                let r = spec_resolve_pass(
                    *old(game),
                    *old(player_body),
                    old(enemies)@,
                    projectiles@.subrange(0, i as int),
                );
                &&& *game == r.0
                &&& *player_body == r.1
                &&& enemies@ == r.2
                &&& new_effects@ == r.3
                &&& kept@ == r.4
            }),
            player_body.wf(),
            forall|k: int| 0 <= k < enemies@.len() ==> (#[trigger] enemies@[k]).wf(),
            forall|k: int| 0 <= k < kept@.len() ==> (#[trigger] kept@[k]).wf(),
            forall|k: int| 0 <= k < new_effects@.len() ==> (#[trigger] new_effects@[k]).wf(),
        decreases n - i,
    {
        let p = projectiles[i];
        proof {
            assert(projectiles@.subrange(0, i as int + 1).drop_last() =~= projectiles@.subrange(
                0,
                i as int,
            ));
            assert(projectiles@.subrange(0, i as int + 1).last() == p);
        }
        if p.projectile.friendly {
            let ghost es_before = enemies@;
            let ghost fx_before = new_effects@;
            let idx = find_first_hit(enemies, &p.body);
            if idx < enemies.len() {
                let mut e = enemies.remove(idx);
                let ghost e0 = e;
                e.body.y = confine(e.body.y + p.projectile.pushback);
                e.enemy.health = if let Some(h) = e.enemy.health.checked_sub(p.projectile.damage) {
                    h
                } else {
                    0
                };
                new_effects.push(
                    Effect::hit_flash(p.projectile.projectile_type, p.body.x, p.body.y),
                );
                if e.enemy.health == 0 {
                    let bounty = e.enemy.bounty;
                    game.add_score(bounty);
                    new_effects.push(Effect::explosion(e.body.x, e.body.y));
                } else {
                    enemies.insert(idx, e);
                    proof {
                        assert(enemies@ =~= es_before.update(
                            idx as int,
                            (EnemyEntity {
                                enemy: Enemy { health: e.enemy.health, ..e0.enemy },
                                body: Body {
                                    y: spec_confine(e0.body.y + p.projectile.pushback) as i64,
                                    ..e0.body
                                },
                            }),
                        ));
                    }
                }
                proof {
                    let s = spec_resolve_friendly(
                        spec_resolve_pass(
                            *old(game),
                            *old(player_body),
                            old(enemies)@,
                            projectiles@.subrange(0, i as int),
                        ).0,
                        es_before,
                        p,
                    );
                    assert(new_effects@ =~= fx_before + s.2);
                }
            } else {
                kept.push(p);
            }
        } else {
            if collide(player_body, &p.body) {
                player_body.y = confine(player_body.y - p.projectile.pushback);
                let damage = p.projectile.damage;
                game.damage_player(damage);
                new_effects.push(
                    Effect::hit_flash(p.projectile.projectile_type, p.body.x, p.body.y),
                );
                proof {
                    let r = spec_resolve_pass(
                        *old(game),
                        *old(player_body),
                        old(enemies)@,
                        projectiles@.subrange(0, i as int),
                    );
                    let s = spec_resolve_hostile(r.0, r.1, p);
                    assert(new_effects@ =~= r.3 + s.2);
                }
            } else {
                kept.push(p);
            }
        }
        i = i + 1;
    }
    proof {
        assert(projectiles@.subrange(0, n as int) =~= projectiles@);
    }
    *projectiles = kept;
    new_effects
}

} // verus!
