//! The static catalog: enemy stats, weighted selection bands, weapon stats
//! and barrel layouts, and weapon-slot switching rules.

use space_shooter::game::Game;
use space_shooter::shooting::{ProjectileType, Weapon, WeaponKeys, weapon_switching};
use space_shooter::ships::{Enemy, Player, ShipType};

fn no_keys() -> WeaponKeys {
    WeaponKeys { key1: false, key2: false, key3: false, key4: false, key5: false }
}

#[test]
fn roll_bands_match_the_cumulative_table() {
    assert_eq!(ShipType::for_roll(0), ShipType::Trespasser);
    assert_eq!(ShipType::for_roll(44), ShipType::Trespasser);
    assert_eq!(ShipType::for_roll(45), ShipType::SpaceCrusader);
    assert_eq!(ShipType::for_roll(69), ShipType::SpaceCrusader);
    assert_eq!(ShipType::for_roll(70), ShipType::BigShip);
    assert_eq!(ShipType::for_roll(94), ShipType::BigShip);
    assert_eq!(ShipType::for_roll(95), ShipType::DarkLord);
    assert_eq!(ShipType::for_roll(99), ShipType::DarkLord);
}

#[test]
fn every_roll_falls_in_exactly_one_band() {
    let mut counts = [0usize; 4];
    for roll in 0..100 {
        match ShipType::for_roll(roll) {
            ShipType::Trespasser => counts[0] += 1,
            ShipType::SpaceCrusader => counts[1] += 1,
            ShipType::BigShip => counts[2] += 1,
            ShipType::DarkLord => counts[3] += 1,
        }
    }
    assert_eq!(counts, [45, 25, 25, 5]);
}

#[test]
fn enemy_constructors_match_the_catalog() {
    let t = Enemy::trespasser();
    assert_eq!(t.health, 30);
    assert_eq!(t.collision_damage, 13);
    assert_eq!(t.bounty, 35);
    assert!(t.speed >= 1440 && t.speed < 1610);
    assert!(t.weapon.is_none());

    let c = Enemy::space_crusader();
    assert_eq!(c.health, 80);
    assert_eq!(c.collision_damage, 55);
    assert_eq!(c.bounty, 180);
    assert!(c.speed >= 961 && c.speed < 1041);
    assert_eq!(c.weapon.as_ref().unwrap().name, "Space Hammer");

    let b = Enemy::big_ship();
    assert_eq!(b.health, 100);
    assert_eq!(b.collision_damage, 35);
    assert_eq!(b.bounty, 120);
    assert!(b.speed >= 941 && b.speed < 1005);
    assert_eq!(b.weapon.as_ref().unwrap().name, "Stomp O' Matic");

    let d = Enemy::dark_lord();
    assert_eq!(d.health, 250);
    assert_eq!(d.collision_damage, 75);
    assert_eq!(d.bounty, 250);
    assert!(d.speed >= 600 && d.speed < 690);
    assert_eq!(d.weapon.as_ref().unwrap().name, "Grim Reaper");
}

#[test]
fn random_enemy_always_lands_in_a_catalog_band() {
    for _ in 0..200 {
        let e = Enemy::random();
        match e.ship_type {
            ShipType::Trespasser => assert!(e.speed >= 1440 && e.speed < 1610),
            ShipType::SpaceCrusader => assert!(e.speed >= 961 && e.speed < 1041),
            ShipType::BigShip => assert!(e.speed >= 941 && e.speed < 1005),
            ShipType::DarkLord => assert!(e.speed >= 600 && e.speed < 690),
        }
    }
}

#[test]
fn friendly_weapon_stats_match_the_catalog() {
    let stomp = Weapon::stomp(true);
    assert_eq!(stomp.projectile.speed, 13_000);
    assert_eq!(stomp.projectile.damage, 6);
    assert!(stomp.projectile.friendly);
    assert_eq!(stomp.cooldown_timer.duration_us, 125_000);
    assert_eq!(stomp.gun_positions.len(), 1);
    assert!(stomp.cooldown_timer.paused);

    let blaster = Weapon::blaster(true);
    assert_eq!(blaster.projectile.speed, 15_000);
    assert_eq!(blaster.projectile.damage, 12);
    assert_eq!(blaster.cooldown_timer.duration_us, 1_437_500);

    let grim = Weapon::grim(true);
    assert_eq!(grim.projectile.speed, 5_000);
    assert_eq!(grim.projectile.damage, 50);
    assert_eq!(grim.cooldown_timer.duration_us, 1_562_500);

    let hammer = Weapon::hammer(true);
    assert_eq!(hammer.projectile.speed, 10_000);
    assert_eq!(hammer.projectile.damage, 4);
    assert_eq!(hammer.projectile.pushback, 36_000);
    assert_eq!(hammer.cooldown_timer.duration_us, 1_250_000);
    assert_eq!(hammer.gun_positions.len(), 3);

    let ratata = Weapon::ratata(true);
    assert_eq!(ratata.projectile.speed, 15_000);
    assert_eq!(ratata.projectile.damage, 3);
    assert_eq!(ratata.cooldown_timer.duration_us, 100_000);
    assert_eq!(ratata.gun_positions.len(), 2);
}

#[test]
fn hostile_weapons_cool_down_twice_as_slowly() {
    assert_eq!(Weapon::stomp(false).cooldown_timer.duration_us, 250_000);
    assert_eq!(Weapon::blaster(false).cooldown_timer.duration_us, 2_875_000);
    assert_eq!(Weapon::grim(false).cooldown_timer.duration_us, 3_125_000);
    assert_eq!(Weapon::hammer(false).cooldown_timer.duration_us, 2_500_000);
    assert_eq!(Weapon::ratata(false).cooldown_timer.duration_us, 200_000);
}

#[test]
fn hostile_projectiles_differ_in_speed_and_damage() {
    let blaster = Weapon::blaster(false);
    assert_eq!(blaster.projectile.speed, 5_000);
    assert_eq!(blaster.projectile.damage, 50);
    assert!(!blaster.projectile.friendly);
    assert!(matches!(blaster.projectile.projectile_type, ProjectileType::Blaster));

    let ratata = Weapon::ratata(false);
    assert_eq!(ratata.projectile.speed, 12_000);
    assert_eq!(ratata.gun_positions.len(), 2);
}

#[test]
fn player_starts_with_five_weapons_and_the_stomp_selected() {
    let p = Player::new();
    assert_eq!(p.weapons.len(), 5);
    assert_eq!(p.current_weapon_index, 0);
    assert_eq!(p.speed, 5_618);
    assert_eq!(p.current_weapon().name, "Stomp O' Matic");
    assert_eq!(p.weapons[1].name, "Space Blaster");
    assert_eq!(p.weapons[2].name, "Grim Reaper");
    assert_eq!(p.weapons[3].name, "Space Hammer");
    assert_eq!(p.weapons[4].name, "Ratata 9000");
}

#[test]
fn locked_weapon_slots_ignore_their_keys() {
    let mut p = Player::new();
    let game = Game::new();
    let keys = WeaponKeys { key2: true, ..no_keys() };
    let events = weapon_switching(&mut p, &game, &keys);
    assert_eq!(events.len(), 0);
    assert_eq!(p.current_weapon_index, 0);
}

#[test]
fn unlocked_weapon_slot_switches_and_fires_one_event() {
    let mut p = Player::new();
    let mut game = Game::new();
    game.level = 2;
    let keys = WeaponKeys { key2: true, ..no_keys() };
    let events = weapon_switching(&mut p, &game, &keys);
    assert_eq!(events.len(), 1);
    assert_eq!(p.current_weapon_index, 1);

    // selecting the already-selected slot again raises no event
    let events = weapon_switching(&mut p, &game, &keys);
    assert_eq!(events.len(), 0);
    assert_eq!(p.current_weapon_index, 1);
}

#[test]
fn later_keys_override_earlier_ones_in_one_frame() {
    let mut p = Player::new();
    let mut game = Game::new();
    game.level = 3;
    let keys = WeaponKeys { key2: true, key3: true, ..no_keys() };
    let events = weapon_switching(&mut p, &game, &keys);
    assert_eq!(events.len(), 2);
    assert_eq!(p.current_weapon_index, 2);
}
