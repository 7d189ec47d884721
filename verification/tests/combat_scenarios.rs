//! Collision and damage resolution scenarios.

use space_shooter::combat::{despawn_enemies, enemy_collision, projectile_collision};
use space_shooter::effects::EffectKind;
use space_shooter::game::Game;
use space_shooter::geom::{Body, Size};
use space_shooter::shooting::{ProjectileEntity, ProjectileType, Weapon};
use space_shooter::ships::{Enemy, EnemyEntity};

fn viewport() -> Size {
    Size { width: 1_120_000, height: 605_000 }
}

fn body(x: i64, y: i64, width: i64, height: i64) -> Body {
    Body { x, y, size: Size { width, height } }
}

fn big_ship_at(x: i64, y: i64) -> EnemyEntity {
    EnemyEntity { enemy: Enemy::big_ship(), body: body(x, y, 100_000, 80_000) }
}

fn friendly_blaster_at(x: i64, y: i64) -> ProjectileEntity {
    ProjectileEntity { projectile: Weapon::blaster(true).projectile, body: body(x, y, 9_000, 20_000) }
}

/// A player parked far from everything in these scenarios.
fn distant_player() -> Body {
    body(-400_000, -250_000, 99_000, 75_000)
}

#[test]
fn one_trespasser_reaching_the_bottom_costs_earth_its_bounty() {
    let mut game = Game::new();
    assert_eq!(game.health, 1_000);
    assert_eq!(game.earth_health, 5_000);
    let mut enemies = vec![
        EnemyEntity { enemy: Enemy::trespasser(), body: body(0, -400_000, 90_000, 80_000) },
    ];

    despawn_enemies(&mut game, &mut enemies, &viewport());

    assert_eq!(game.earth_health, 4_965);
    assert_eq!(game.health, 1_000);
    assert_eq!(game.score, 0);
    assert!(enemies.is_empty());
}

#[test]
fn an_enemy_still_on_screen_is_not_despawned() {
    let mut game = Game::new();
    let mut enemies = vec![
        EnemyEntity { enemy: Enemy::trespasser(), body: body(0, -260_000, 90_000, 80_000) },
    ];
    despawn_enemies(&mut game, &mut enemies, &viewport());
    assert_eq!(game.earth_health, 5_000);
    assert_eq!(enemies.len(), 1);
}

#[test]
fn blaster_fire_wears_a_big_ship_down_and_pays_the_bounty_exactly_once() {
    let mut game = Game::new();
    let mut player_body = distant_player();
    let mut enemies = vec![big_ship_at(0, 0)];

    // four clean hits: 100 - 4 * 12 = 52, still alive, nothing scored yet
    for _ in 0..4 {
        let mut projectiles = vec![friendly_blaster_at(0, 0)];
        projectile_collision(&mut game, &mut player_body, &mut enemies, &mut projectiles);
        assert!(projectiles.is_empty());
    }
    assert_eq!(enemies.len(), 1);
    assert_eq!(enemies[0].enemy.health, 52);
    assert_eq!(game.score, 0);

    // the fifth hit leaves 40
    let mut projectiles = vec![friendly_blaster_at(0, 0)];
    projectile_collision(&mut game, &mut player_body, &mut enemies, &mut projectiles);
    assert_eq!(enemies[0].enemy.health, 40);
    assert_eq!(game.score, 0);

    // three more: 28, 16, 4; the ninth saturates to 0, kills, and scores 120
    for _ in 0..3 {
        let mut projectiles = vec![friendly_blaster_at(0, 0)];
        projectile_collision(&mut game, &mut player_body, &mut enemies, &mut projectiles);
    }
    assert_eq!(enemies[0].enemy.health, 4);
    let mut projectiles = vec![friendly_blaster_at(0, 0)];
    let effects = projectile_collision(&mut game, &mut player_body, &mut enemies, &mut projectiles);
    assert!(enemies.is_empty());
    assert_eq!(game.score, 120);
    // the killing strike leaves a hit flash and an explosion
    assert_eq!(effects.len(), 2);
    assert!(matches!(effects[0].kind, EffectKind::HitFlash(ProjectileType::Blaster)));
    assert!(matches!(effects[1].kind, EffectKind::Explosion));

    // with no target left, a further projectile flies on and nothing changes
    let mut projectiles = vec![friendly_blaster_at(0, 0)];
    projectile_collision(&mut game, &mut player_body, &mut enemies, &mut projectiles);
    assert_eq!(projectiles.len(), 1);
    assert_eq!(game.score, 120);
    assert_eq!(game.health, 1_000);
}

#[test]
fn a_projectile_scores_at_most_one_hit() {
    let mut game = Game::new();
    let mut player_body = distant_player();
    let mut enemies = vec![big_ship_at(0, 0), big_ship_at(10_000, 0)];
    let mut projectiles = vec![friendly_blaster_at(0, 0)];

    projectile_collision(&mut game, &mut player_body, &mut enemies, &mut projectiles);

    assert!(projectiles.is_empty());
    assert_eq!(enemies[0].enemy.health, 88); // first in list order takes the hit
    assert_eq!(enemies[1].enemy.health, 100);
}

#[test]
fn a_hammer_hit_pushes_the_enemy_away_from_the_shooter() {
    let mut game = Game::new();
    let mut player_body = distant_player();
    let mut enemies = vec![big_ship_at(0, 0)];
    let hammer = Weapon::hammer(true).projectile;
    let mut projectiles = vec![
        ProjectileEntity { projectile: hammer, body: body(0, -30_000, 10_000, 20_000) },
    ];

    projectile_collision(&mut game, &mut player_body, &mut enemies, &mut projectiles);

    assert_eq!(enemies[0].body.y, 36_000); // nudged upward
    assert_eq!(enemies[0].enemy.health, 96);
}

#[test]
fn a_hostile_projectile_damages_and_pushes_the_player() {
    let mut game = Game::new();
    let mut player_body = body(0, -200_000, 99_000, 75_000);
    let mut enemies: Vec<EnemyEntity> = Vec::new();
    let hostile = Weapon::hammer(false).projectile;
    let mut projectiles = vec![
        ProjectileEntity { projectile: hostile, body: body(0, -180_000, 10_000, 20_000) },
    ];

    let effects = projectile_collision(&mut game, &mut player_body, &mut enemies, &mut projectiles);

    assert!(projectiles.is_empty());
    assert_eq!(game.health, 996);
    assert_eq!(game.score, 0);
    assert_eq!(player_body.y, -236_000); // pushed downward
    assert_eq!(effects.len(), 1);
    assert!(matches!(effects[0].kind, EffectKind::HitFlash(ProjectileType::Hammer)));
}

#[test]
fn a_hostile_projectile_that_misses_flies_on() {
    let mut game = Game::new();
    let mut player_body = body(0, -200_000, 99_000, 75_000);
    let mut enemies: Vec<EnemyEntity> = Vec::new();
    let hostile = Weapon::stomp(false).projectile;
    let mut projectiles = vec![
        ProjectileEntity { projectile: hostile, body: body(300_000, -180_000, 10_000, 20_000) },
    ];

    projectile_collision(&mut game, &mut player_body, &mut enemies, &mut projectiles);

    assert_eq!(projectiles.len(), 1);
    assert_eq!(game.health, 1_000);
}

#[test]
fn ramming_the_player_costs_health_pays_bounty_and_explodes() {
    let mut game = Game::new();
    let player_body = body(0, -200_000, 99_000, 75_000);
    let mut enemies = vec![big_ship_at(10_000, -190_000)];

    let explosions = enemy_collision(&mut game, &player_body, &mut enemies);

    assert!(enemies.is_empty());
    assert_eq!(game.health, 965); // collision damage 35
    assert_eq!(game.score, 120); // bounty
    assert_eq!(explosions.len(), 1);
    assert_eq!(explosions[0].x, 10_000);
    assert_eq!(explosions[0].y, -190_000);
}

#[test]
fn damage_saturates_at_zero_instead_of_underflowing() {
    let mut game = Game::new();
    game.damage_player(1_500);
    assert_eq!(game.health, 0);
    game.damage_player(10);
    assert_eq!(game.health, 0);
    game.damage_earth(1_000_000);
    assert_eq!(game.earth_health, 0);
}

#[test]
fn the_score_saturates_at_the_integer_limit() {
    let mut game = Game::new();
    game.score = u32::MAX - 10;
    game.add_score(120);
    assert_eq!(game.score, u32::MAX);
}
