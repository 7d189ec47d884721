//! Sprite bounding-box sizes, looked up by entity kind.
//!
//! The sizes come from loaded image assets, which are the embedding
//! program's business: it fills this table once loading has finished, and
//! the simulation then uses it wherever an entity's bounding box is needed
//! (spawning, collision, despawning).

use vstd::prelude::*;
use crate::geom::Size;
use crate::shooting::ProjectileType;
use crate::ships::ShipType;

verus! {

/// How many star sprite variants the backdrop chooses between.
pub const STAR_VARIANTS: usize = 3;

/// How many planet sprite variants the backdrop chooses between.
pub const PLANET_VARIANTS: usize = 10;

/// The bounding-box size of every sprite the simulation can spawn.
#[derive(Clone, Debug)]
pub struct SpriteSizes {
    pub player: Size,
    pub big_ship: Size,
    pub dark_lord: Size,
    pub space_crusader: Size,
    pub trespasser: Size,
    pub blaster: Size,
    pub grim: Size,
    pub hammer: Size,
    pub ratata: Size,
    pub stomp: Size,
    pub stars: Vec<Size>,
    pub planets: Vec<Size>,
}

impl SpriteSizes {
    pub open spec fn wf(self) -> bool {
        &&& self.player.wf()
        &&& self.big_ship.wf()
        &&& self.dark_lord.wf()
        &&& self.space_crusader.wf()
        &&& self.trespasser.wf()
        &&& self.blaster.wf()
        &&& self.grim.wf()
        &&& self.hammer.wf()
        &&& self.ratata.wf()
        &&& self.stomp.wf()
        &&& self.stars@.len() == STAR_VARIANTS
        &&& self.planets@.len() == PLANET_VARIANTS
        &&& forall|i: int| 0 <= i < self.stars@.len() ==> (#[trigger] self.stars@[i]).wf()
        &&& forall|i: int| 0 <= i < self.planets@.len() ==> (#[trigger] self.planets@[i]).wf()
    }

    /// Every enemy sprite leaves room for a nonempty spawn span.
    pub open spec fn enemies_fit(self, viewport: Size) -> bool {
        &&& self.big_ship.width + 2 <= viewport.width
        &&& self.dark_lord.width + 2 <= viewport.width
        &&& self.space_crusader.width + 2 <= viewport.width
        &&& self.trespasser.width + 2 <= viewport.width
    }

    /// Every backdrop sprite leaves room for a nonempty spawn span.
    pub open spec fn backdrop_fits(self, viewport: Size) -> bool {
        &&& forall|i: int|
            0 <= i < self.stars@.len() ==> (#[trigger] self.stars@[i]).width + 2 <= viewport.width
        &&& forall|i: int|
            0 <= i < self.planets@.len() ==> (#[trigger] self.planets@[i]).width + 2
                <= viewport.width
        &&& forall|i: int|
            0 <= i < self.stars@.len() ==> (#[trigger] self.stars@[i]).height + 2
                <= viewport.height
        &&& forall|i: int|
            0 <= i < self.planets@.len() ==> (#[trigger] self.planets@[i]).height
                <= viewport.height
    }

    /// The player's sprite fits inside the viewport on both axes.
    pub open spec fn player_fits(self, viewport: Size) -> bool {
        self.player.width <= viewport.width && self.player.height <= viewport.height
    }

    pub open spec fn spec_enemy_size(self, t: ShipType) -> Size {
        match t {
            ShipType::BigShip => self.big_ship,
            ShipType::DarkLord => self.dark_lord,
            ShipType::SpaceCrusader => self.space_crusader,
            ShipType::Trespasser => self.trespasser,
        }
    }

    pub fn enemy_size(&self, t: &ShipType) -> (s: Size)
        ensures
            s == self.spec_enemy_size(*t),
    {
        match t {
            ShipType::BigShip => self.big_ship,
            ShipType::DarkLord => self.dark_lord,
            ShipType::SpaceCrusader => self.space_crusader,
            ShipType::Trespasser => self.trespasser,
        }
    }

    pub open spec fn spec_projectile_size(self, t: ProjectileType) -> Size {
        match t {
            ProjectileType::Blaster => self.blaster,
            ProjectileType::Grim => self.grim,
            ProjectileType::Hammer => self.hammer,
            ProjectileType::Ratata => self.ratata,
            ProjectileType::Stomp => self.stomp,
        }
    }

    pub fn projectile_size(&self, t: &ProjectileType) -> (s: Size)
        ensures
            s == self.spec_projectile_size(*t),
    {
        match t {
            ProjectileType::Blaster => self.blaster,
            ProjectileType::Grim => self.grim,
            ProjectileType::Hammer => self.hammer,
            ProjectileType::Ratata => self.ratata,
            ProjectileType::Stomp => self.stomp,
        }
    }
}

} // verus!
