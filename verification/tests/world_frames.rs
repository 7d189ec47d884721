//! Whole-frame behavior: spawning bounds, projectile travel directions,
//! player movement at the edges, firing, and the frame pipeline with its
//! pause freeze and end-of-game precedence.

use space_shooter::enemy_spawning::{EnemySpawnConfig, spawn_enemy};
use space_shooter::backdrop::spawn_stars;
use space_shooter::backdrop::BackdropSpawnConfig;
use space_shooter::game::AppState;
use space_shooter::geom::{Body, Size};
use space_shooter::player_control::{MoveKeys, player_border, player_movement, valid_move};
use space_shooter::shooting::{
    ProjectileEntity, Weapon, WeaponKeys, enemy_shoot, player_shoot, projectile_move,
};
use space_shooter::ships::{Enemy, EnemyEntity, Player};
use space_shooter::sprites::SpriteSizes;
use space_shooter::world::{InputState, World};

fn viewport() -> Size {
    Size { width: 1_120_000, height: 605_000 }
}

fn sizes() -> SpriteSizes {
    let ship = Size { width: 100_000, height: 80_000 };
    SpriteSizes {
        player: Size { width: 99_000, height: 75_000 },
        big_ship: ship,
        dark_lord: ship,
        space_crusader: ship,
        trespasser: ship,
        blaster: Size { width: 9_000, height: 20_000 },
        grim: Size { width: 14_000, height: 24_000 },
        hammer: Size { width: 12_000, height: 18_000 },
        ratata: Size { width: 6_000, height: 15_000 },
        stomp: Size { width: 10_000, height: 20_000 },
        stars: vec![Size { width: 8_000, height: 8_000 }; 3],
        planets: vec![Size { width: 120_000, height: 120_000 }; 10],
    }
}

fn no_input() -> InputState {
    InputState {
        move_keys: MoveKeys { up: false, down: false, left: false, right: false },
        fire_pressed: false,
        pause_pressed: false,
        weapon_keys: WeaponKeys {
            key1: false,
            key2: false,
            key3: false,
            key4: false,
            key5: false,
        },
    }
}

fn in_game_world() -> World {
    let mut w = World::new(viewport(), sizes());
    w.finish_loading();
    w
}

#[test]
fn spawned_enemies_keep_their_whole_box_inside_the_viewport_width() {
    let vp = viewport();
    let table = sizes();
    let mut config = EnemySpawnConfig::new();
    for _ in 0..100 {
        // a frame longer than the longest possible countdown always spawns
        let spawned = spawn_enemy(&mut config, 6_000_000, &vp, &table);
        let ent = spawned.expect("an elapsed countdown must spawn");
        let b = ent.body;
        assert!(2 * b.x + b.size.width <= vp.width);
        assert!(2 * b.x - b.size.width >= -vp.width);
        // entry row: fully above the top edge by half its own height
        assert_eq!(b.y, (vp.height + b.size.height) / 2);
    }
}

#[test]
fn the_spawn_countdown_must_elapse_before_an_enemy_enters() {
    let mut config = EnemySpawnConfig::new();
    // the shortest possible countdown is a full second
    let spawned = spawn_enemy(&mut config, 500_000, &viewport(), &sizes());
    assert!(spawned.is_none());
    assert_eq!(config.timer.elapsed_us, 500_000);
}

#[test]
fn spawned_stars_enter_from_the_top_within_the_width() {
    let vp = viewport();
    let table = sizes();
    let mut config = BackdropSpawnConfig::new();
    let spawned = spawn_stars(&mut config, 3_000_000, &vp, &table);
    assert_eq!(spawned.len(), 3);
    for star in &spawned {
        assert!(2 * star.body.x + star.body.size.width <= vp.width);
        assert!(2 * star.body.x - star.body.size.width >= -vp.width);
        assert_eq!(star.body.y, (vp.height + star.body.size.height) / 2);
        assert_eq!(star.obstacle.speed, 413);
    }
}

#[test]
fn the_initial_backdrop_population_fills_the_viewport() {
    let w = in_game_world();
    assert_eq!(w.obstacles.len(), 31);
    let vp = viewport();
    for o in &w.obstacles {
        assert!(2 * o.body.x + o.body.size.width <= vp.width);
        assert!(2 * o.body.x - o.body.size.width >= -vp.width);
    }
    // the one planet rests fully visible against the top edge
    let planet = &w.obstacles[30];
    assert_eq!(planet.obstacle.speed, 470);
    assert_eq!(planet.body.y, (vp.height - planet.body.size.height) / 2);
}

#[test]
fn friendly_projectiles_rise_and_hostile_ones_sink() {
    let vp = viewport();
    let friendly = ProjectileEntity {
        projectile: Weapon::blaster(true).projectile,
        body: Body { x: 0, y: 0, size: Size { width: 9_000, height: 20_000 } },
    };
    let hostile = ProjectileEntity {
        projectile: Weapon::blaster(false).projectile,
        body: Body { x: 0, y: 0, size: Size { width: 9_000, height: 20_000 } },
    };
    let mut projectiles = vec![friendly, hostile];

    // 25 ms at speed 15.0 units/tick and 40 ticks/s: exactly 15 units
    projectile_move(&mut projectiles, 25_000, &vp);

    assert_eq!(projectiles[0].body.y, 15_000);
    assert_eq!(projectiles[1].body.y, -5_000);
}

#[test]
fn projectiles_vanish_past_either_edge() {
    let vp = viewport();
    let mut projectiles = vec![
        ProjectileEntity {
            projectile: Weapon::blaster(true).projectile,
            body: Body { x: 0, y: 310_000, size: Size { width: 9_000, height: 20_000 } },
        },
        ProjectileEntity {
            projectile: Weapon::blaster(false).projectile,
            body: Body { x: 0, y: -310_000, size: Size { width: 9_000, height: 20_000 } },
        },
    ];
    projectile_move(&mut projectiles, 25_000, &vp);
    assert!(projectiles.is_empty());
}

#[test]
fn the_player_cannot_move_past_a_viewport_edge() {
    let vp = viewport();
    let keys = MoveKeys { up: false, down: false, left: false, right: true };
    // close to the right edge, which sits at (1_120_000 - 99_000) / 2 = 510_500:
    // the step is clamped to the edge rather than rejected
    let mut body = Body { x: 510_000, y: 0, size: Size { width: 99_000, height: 75_000 } };
    player_movement(&mut body, 5_618, &keys, 25_000, &vp);
    assert_eq!(body.x, 510_500);

    // away from the edge the same step goes through in full
    let keys = MoveKeys { up: false, down: false, left: true, right: false };
    player_movement(&mut body, 5_618, &keys, 25_000, &vp);
    assert_eq!(body.x, 510_500 - 5_618);
}

#[test]
fn valid_move_accepts_exactly_the_in_viewport_positions() {
    let vp = viewport();
    let player = Size { width: 99_000, height: 75_000 };
    assert!(valid_move(0, 0, &vp, &player));
    assert!(valid_move(510_500, -265_000, &vp, &player));
    assert!(!valid_move(510_501, 0, &vp, &player));
    assert!(!valid_move(0, 265_001, &vp, &player));
}

#[test]
fn the_border_clamp_brings_an_out_of_bounds_player_back() {
    let vp = viewport();
    let mut body = Body { x: 900_000, y: -600_000, size: Size { width: 99_000, height: 75_000 } };
    player_border(&mut body, &vp);
    assert_eq!(body.x, 510_500);
    assert_eq!(body.y, -265_000);
}

#[test]
fn the_stomp_fires_one_shot_from_the_left_wing() {
    let mut player = Player::new();
    let body = Body { x: 0, y: 0, size: Size { width: 99_000, height: 75_000 } };
    let shots = player_shoot(&mut player, &body, true, 0, &sizes());
    assert_eq!(shots.len(), 1);
    assert_eq!(shots[0].body.x, -49_500);
    assert_eq!(shots[0].body.y, -25_000 + (75_000 + 20_000) / 2);
    assert!(shots[0].projectile.friendly);
    assert_eq!(shots[0].projectile.damage, 6);
}

#[test]
fn firing_again_before_the_cooldown_elapses_does_nothing() {
    let mut player = Player::new();
    let body = Body { x: 0, y: 0, size: Size { width: 99_000, height: 75_000 } };
    assert_eq!(player_shoot(&mut player, &body, true, 0, &sizes()).len(), 1);
    assert_eq!(player_shoot(&mut player, &body, true, 0, &sizes()).len(), 0);
    // once the stomp's 125 ms have passed, it fires again
    assert_eq!(player_shoot(&mut player, &body, true, 125_000, &sizes()).len(), 1);
}

#[test]
fn the_ratata_fires_from_both_wing_tips() {
    let mut player = Player::new();
    player.current_weapon_index = 4;
    let body = Body { x: 0, y: 0, size: Size { width: 99_000, height: 75_000 } };
    let shots = player_shoot(&mut player, &body, true, 0, &sizes());
    assert_eq!(shots.len(), 2);
    assert_eq!(shots[0].body.x, -49_500);
    assert_eq!(shots[1].body.x, 49_500);
    assert_eq!(shots[0].body.y, -25_000 + (75_000 + 15_000) / 2);
}

#[test]
fn a_visible_aligned_enemy_opens_fire_below_itself() {
    let vp = viewport();
    let player_body = Body { x: 0, y: -200_000, size: Size { width: 99_000, height: 75_000 } };
    let mut enemies = vec![
        EnemyEntity {
            enemy: Enemy::big_ship(),
            body: Body { x: 0, y: 0, size: Size { width: 100_000, height: 80_000 } },
        },
    ];

    let shots = enemy_shoot(&mut enemies, &player_body, &vp, 0, &sizes());

    assert_eq!(shots.len(), 1);
    assert!(!shots[0].projectile.friendly);
    assert_eq!(shots[0].body.y, -(80_000 + 20_000) / 2);
    // the released cooldown is now running
    let w = enemies[0].enemy.weapon.as_ref().unwrap();
    assert!(!w.cooldown_timer.paused);
    assert_eq!(w.cooldown_timer.elapsed_us, 0);

    // and it gates the very next frame's fire
    let shots = enemy_shoot(&mut enemies, &player_body, &vp, 10_000, &sizes());
    assert!(shots.is_empty());
}

#[test]
fn an_enemy_that_is_not_aimed_at_the_player_holds_fire() {
    let vp = viewport();
    let player_body = Body { x: 500_000, y: -200_000, size: Size { width: 99_000, height: 75_000 } };
    let mut enemies = vec![
        EnemyEntity {
            enemy: Enemy::big_ship(),
            body: Body { x: 0, y: 0, size: Size { width: 100_000, height: 80_000 } },
        },
    ];
    let shots = enemy_shoot(&mut enemies, &player_body, &vp, 10_000, &sizes());
    assert!(shots.is_empty());
    // an untriggered enemy weapon stays paused
    assert!(enemies[0].enemy.weapon.as_ref().unwrap().cooldown_timer.paused);
}

#[test]
fn an_enemy_still_entering_the_screen_holds_fire() {
    let vp = viewport();
    let player_body = Body { x: 0, y: -200_000, size: Size { width: 99_000, height: 75_000 } };
    let mut enemies = vec![
        EnemyEntity {
            enemy: Enemy::big_ship(),
            // entry row: box not yet fully below the top-edge margin
            body: Body { x: 0, y: 342_500, size: Size { width: 100_000, height: 80_000 } },
        },
    ];
    let shots = enemy_shoot(&mut enemies, &player_body, &vp, 10_000, &sizes());
    assert!(shots.is_empty());
}

#[test]
fn pausing_freezes_every_timer_and_resuming_continues_without_a_jump() {
    let mut w = in_game_world();

    // run one in-game frame so the spawn countdown has visibly advanced
    w.step(&no_input(), 100_000);
    assert_eq!(w.state, AppState::InGame);
    assert_eq!(w.enemy_spawn.timer.elapsed_us, 100_000);

    // the pausing frame itself still runs before the state flips
    let pause = InputState { pause_pressed: true, ..no_input() };
    w.step(&pause, 50_000);
    assert_eq!(w.state, AppState::Paused);
    assert_eq!(w.enemy_spawn.timer.elapsed_us, 150_000);
    let frozen_weapon = w.player.weapons[0].cooldown_timer;

    // while paused, however long the frames, nothing advances
    w.step(&no_input(), 9_000_000);
    w.step(&no_input(), 9_000_000);
    assert_eq!(w.state, AppState::Paused);
    assert_eq!(w.enemy_spawn.timer.elapsed_us, 150_000);
    assert_eq!(w.player.weapons[0].cooldown_timer, frozen_weapon);

    // unpausing returns in game without any timer jump
    w.step(&pause, 9_000_000);
    assert_eq!(w.state, AppState::InGame);
    assert_eq!(w.enemy_spawn.timer.elapsed_us, 150_000);

    // the next in-game frame resumes from where the timers stopped
    w.step(&no_input(), 10_000);
    assert_eq!(w.enemy_spawn.timer.elapsed_us, 160_000);
}

#[test]
fn a_loss_and_a_victory_on_the_same_frame_resolve_to_the_loss() {
    // the documented precedence: the game-over check runs first and wins
    let mut w = in_game_world();
    w.game.health = 0;
    w.game.score = 8_000;
    w.step(&no_input(), 10_000);
    assert_eq!(w.state, AppState::GameOver);

    // a finished session ignores further frames
    let before_enemies = w.enemies.len();
    w.step(&no_input(), 10_000);
    assert_eq!(w.state, AppState::GameOver);
    assert_eq!(w.enemies.len(), before_enemies);
}

#[test]
fn reaching_the_victory_score_alone_wins() {
    let mut w = in_game_world();
    w.game.score = 8_000;
    w.step(&no_input(), 10_000);
    assert_eq!(w.state, AppState::GameWon);
}

#[test]
fn a_level_up_event_fires_on_the_frame_the_threshold_is_passed() {
    let mut w = in_game_world();
    w.game.score = 1_001;
    let events = w.step(&no_input(), 10_000);
    assert!(events.level_up);
    assert_eq!(w.game.level, 2);
    let events = w.step(&no_input(), 10_000);
    assert!(!events.level_up);
    assert_eq!(w.game.level, 2);
}

#[test]
fn an_enemy_enters_within_the_longest_spawn_interval() {
    let mut w = in_game_world();
    let mut seen_enemy = false;
    // 6 simulated seconds of 25 ms frames cover the longest countdown (5.5 s)
    for _ in 0..240 {
        w.step(&no_input(), 25_000);
        seen_enemy = seen_enemy || !w.enemies.is_empty();
    }
    assert!(seen_enemy);
}

#[test]
fn firing_in_a_frame_adds_projectiles_to_the_world() {
    let mut w = in_game_world();
    let fire = InputState { fire_pressed: true, ..no_input() };
    w.step(&fire, 10_000);
    assert_eq!(w.projectiles.len(), 1);
    assert!(w.projectiles[0].projectile.friendly);
}
