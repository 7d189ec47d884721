//! Ships: the four enemy kinds with their catalog stats and weighted
//! selection, and the player with its five-slot weapon loadout.
//!
//! Enemy selection is a roulette over 100: a uniform roll falls into one of
//! four cumulative bands (Trespasser 0-44, SpaceCrusader 45-69, BigShip
//! 70-94, DarkLord 95-99). Each spawn also jitters the kind's base speed
//! within a fixed band.

use vstd::prelude::*;
use crate::geom::{Body, SPEED_LIMIT};
use crate::rng::random_in_range;
use crate::shooting::{
    Weapon, is_stomp, is_blaster, is_grim, is_hammer, is_ratata, fresh_timer,
};

verus! {

#[derive(Clone, Copy, PartialEq, Eq, Structural, Debug)]
pub enum ShipType {
    BigShip,
    DarkLord,
    SpaceCrusader,
    Trespasser,
}

/// Catalog: starting health per enemy kind.
pub open spec fn spec_kind_health(t: ShipType) -> u32 {
    match t {
        ShipType::BigShip => 100u32,
        ShipType::DarkLord => 250u32,
        ShipType::SpaceCrusader => 80u32,
        ShipType::Trespasser => 30u32,
    }
}

/// Catalog: damage dealt by ramming the player.
pub open spec fn spec_kind_collision_damage(t: ShipType) -> u32 {
    match t {
        ShipType::BigShip => 35u32,
        ShipType::DarkLord => 75u32,
        ShipType::SpaceCrusader => 55u32,
        ShipType::Trespasser => 13u32,
    }
}

/// Catalog: score gained on a kill, and earth health lost on an escape.
pub open spec fn spec_kind_bounty(t: ShipType) -> u32 {
    match t {
        ShipType::BigShip => 120u32,
        ShipType::DarkLord => 250u32,
        ShipType::SpaceCrusader => 180u32,
        ShipType::Trespasser => 35u32,
    }
}

/// Catalog: lowest speed of the kind's jitter band, in milli-units per tick.
pub open spec fn spec_kind_speed_min(t: ShipType) -> i64 {
    match t {
        ShipType::BigShip => 941i64,
        ShipType::DarkLord => 600i64,
        ShipType::SpaceCrusader => 961i64,
        ShipType::Trespasser => 1440i64,
    }
}

/// Catalog: the band's exclusive upper end.
pub open spec fn spec_kind_speed_max(t: ShipType) -> i64 {
    match t {
        ShipType::BigShip => 1005i64,
        ShipType::DarkLord => 690i64,
        ShipType::SpaceCrusader => 1041i64,
        ShipType::Trespasser => 1610i64,
    }
}

/// Catalog: the hostile weapon each kind carries; the Trespasser has none.
pub open spec fn spec_kind_weapon_matches(t: ShipType, w: Option<Weapon>) -> bool {
    match t {
        ShipType::BigShip => match w {
            Some(wp) => is_stomp(wp, false),
            None => false,
        },
        ShipType::DarkLord => match w {
            Some(wp) => is_grim(wp, false),
            None => false,
        },
        ShipType::SpaceCrusader => match w {
            Some(wp) => is_hammer(wp, false),
            None => false,
        },
        ShipType::Trespasser => w is None,
    }
}

/// The cumulative-percentage roulette over a roll in `0..100`.
pub open spec fn spec_kind_for_roll(roll: int) -> ShipType {
    if roll < 45 {
        ShipType::Trespasser
    } else if roll < 70 {
        ShipType::SpaceCrusader
    } else if roll < 95 {
        ShipType::BigShip
    } else {
        ShipType::DarkLord
    }
}

impl ShipType {
    /// The deterministic half of enemy selection: which kind a roll lands on.
    pub fn for_roll(roll: i64) -> (t: ShipType)
        requires
            0 <= roll < 100,
        ensures
            t == spec_kind_for_roll(roll as int),
    {
        if roll < 45 {
            ShipType::Trespasser
        } else if roll < 70 {
            ShipType::SpaceCrusader
        } else if roll < 95 {
            ShipType::BigShip
        } else {
            ShipType::DarkLord
        }
    }
}

/// Law: the four selection bands tile `0..100` exactly — every roll lands in
/// exactly one band, with the documented cut points 45, 70 and 95.
pub proof fn lemma_roll_bands(roll: int)
    requires
        0 <= roll < 100,
    ensures
        (spec_kind_for_roll(roll) == ShipType::Trespasser <==> 0 <= roll <= 44),
        (spec_kind_for_roll(roll) == ShipType::SpaceCrusader <==> 45 <= roll <= 69),
        (spec_kind_for_roll(roll) == ShipType::BigShip <==> 70 <= roll <= 94),
        (spec_kind_for_roll(roll) == ShipType::DarkLord <==> 95 <= roll <= 99),
{
}

/// An enemy ship: catalog stats, remaining health, and its hostile weapon.
#[derive(Clone, Debug)]
pub struct Enemy {
    pub ship_type: ShipType,
    pub health: u32,
    pub collision_damage: u32,
    pub bounty: u32,
    pub speed: i64,
    pub weapon: Option<Weapon>,
}

impl Enemy {
    /// The stats agree with the catalog for the ship's kind; only `health`
    /// (which falls under fire) and the weapon's timer evolve.
    pub open spec fn matches_catalog(self) -> bool {
        &&& self.collision_damage == spec_kind_collision_damage(self.ship_type)
        &&& self.bounty == spec_kind_bounty(self.ship_type)
        &&& spec_kind_speed_min(self.ship_type) <= self.speed < spec_kind_speed_max(self.ship_type)
        &&& spec_kind_weapon_matches(self.ship_type, self.weapon)
    }

    pub open spec fn wf(self) -> bool {
        &&& self.matches_catalog()
        &&& self.health <= spec_kind_health(self.ship_type)
        &&& match self.weapon {
            Some(w) => w.wf(),
            None => true,
        }
    }

    /// Full catalog health, as every enemy starts out.
    pub open spec fn undamaged(self) -> bool {
        self.health == spec_kind_health(self.ship_type)
    }

    pub open spec fn weapon_fresh(self) -> bool {
        match self.weapon {
            Some(w) => fresh_timer(w),
            None => true,
        }
    }

    /// Select a kind by the weighted roulette and build it with a fresh
    /// speed jitter. Everything past the two draws is fixed by the catalog.
    pub fn random() -> (e: Enemy)
        ensures
            e.wf(),
            e.undamaged(),
            e.weapon_fresh(),
    {
        let roll = random_in_range(0, 100);
        match ShipType::for_roll(roll) {
            ShipType::Trespasser => Self::trespasser(),
            ShipType::SpaceCrusader => Self::space_crusader(),
            ShipType::BigShip => Self::big_ship(),
            ShipType::DarkLord => Self::dark_lord(),
        }
    }

    pub fn big_ship() -> (e: Enemy)
        ensures
            e.ship_type == ShipType::BigShip,
            e.wf(),
            e.undamaged(),
            e.weapon_fresh(),
    {
        let speed = random_in_range(941, 1005);
        Enemy {
            ship_type: ShipType::BigShip,
            health: 100,
            speed,
            collision_damage: 35,
            bounty: 120,
            weapon: Some(Weapon::stomp(false)),
        }
    }

    pub fn dark_lord() -> (e: Enemy)
        ensures
            e.ship_type == ShipType::DarkLord,
            e.wf(),
            e.undamaged(),
            e.weapon_fresh(),
    {
        let speed = random_in_range(600, 690);
        Enemy {
            ship_type: ShipType::DarkLord,
            health: 250,
            speed,
            collision_damage: 75,
            bounty: 250,
            weapon: Some(Weapon::grim(false)),
        }
    }

    pub fn space_crusader() -> (e: Enemy)
        ensures
            e.ship_type == ShipType::SpaceCrusader,
            e.wf(),
            e.undamaged(),
            e.weapon_fresh(),
    {
        let speed = random_in_range(961, 1041);
        Enemy {
            ship_type: ShipType::SpaceCrusader,
            health: 80,
            speed,
            collision_damage: 55,
            bounty: 180,
            weapon: Some(Weapon::hammer(false)),
        }
    }

    pub fn trespasser() -> (e: Enemy)
        ensures
            e.ship_type == ShipType::Trespasser,
            e.wf(),
            e.undamaged(),
            e.weapon_fresh(),
    {
        let speed = random_in_range(1440, 1610);
        Enemy {
            ship_type: ShipType::Trespasser,
            health: 30,
            speed,
            collision_damage: 13,
            bounty: 35,
            weapon: None,
        }
    }
}

/// An enemy together with its bounding box in the world.
#[derive(Clone, Debug)]
pub struct EnemyEntity {
    pub enemy: Enemy,
    pub body: Body,
}

impl EnemyEntity {
    pub open spec fn wf(self) -> bool {
        self.enemy.wf() && self.body.wf()
    }
}

/// The player's movement speed, in milli-units per reference tick.
pub const PLAYER_SPEED: i64 = 5_618;

/// The player ship: a fixed loadout of the five friendly weapons, unlocked
/// progressively by level, with one currently selected.
#[derive(Clone, Debug)]
pub struct Player {
    pub speed: i64,
    pub current_weapon_index: usize,
    pub weapons: Vec<Weapon>,
}

impl Player {
    /// The loadout never changes: five weapons, in catalog order, each well
    /// formed; the selected slot always exists.
    pub open spec fn wf(self) -> bool {
        &&& 0 < self.speed <= SPEED_LIMIT
        &&& self.weapons@.len() == 5
        &&& self.current_weapon_index < 5
        &&& forall|i: int| 0 <= i < 5 ==> (#[trigger] self.weapons@[i]).wf()
        &&& is_stomp(self.weapons@[0], true)
        &&& is_blaster(self.weapons@[1], true)
        &&& is_grim(self.weapons@[2], true)
        &&& is_hammer(self.weapons@[3], true)
        &&& is_ratata(self.weapons@[4], true)
    }

    pub fn new() -> (p: Player)
        ensures
            p.wf(),
            p.speed == PLAYER_SPEED,
            p.current_weapon_index == 0,
            forall|i: int| 0 <= i < 5 ==> fresh_timer(#[trigger] p.weapons@[i]),
    {
        let mut weapons: Vec<Weapon> = Vec::new();
        weapons.push(Weapon::stomp(true));
        weapons.push(Weapon::blaster(true));
        weapons.push(Weapon::grim(true));
        weapons.push(Weapon::hammer(true));
        weapons.push(Weapon::ratata(true));
        Player { speed: PLAYER_SPEED, weapons, current_weapon_index: 0 }
    }

    /// The currently selected weapon.
    pub fn current_weapon(&self) -> (w: &Weapon)
        requires
            self.wf(),
        ensures
            *w == self.weapons@[self.current_weapon_index as int],
    {
        &self.weapons[self.current_weapon_index]
    }
}

} // verus!
