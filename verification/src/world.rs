//! The whole simulation world and its per-frame pipeline.
//!
//! Each frame runs a fixed-order pipeline over the world: spawning, then
//! movement, then weapons, then collision resolution, then out-of-bounds
//! despawning, then feedback animation, then the state checks. The game-over
//! check runs before the game-won check, so a loss detected on a frame takes
//! effect even if the victory score is reached on the same frame; pausing
//! yields to both. While paused, nothing runs but the unpause check, so
//! every timer stays exactly where it was.

use vstd::prelude::*;
use crate::backdrop::{
    BackdropSpawnConfig, ObstacleEntity, setup_initial_backdrop, spawn_stars, spawn_planets,
    obstacle_movement, despawn_obstacle, spec_obstacle_moved, spec_obstacle_gone, wf_star,
    wf_planet, INITIAL_STARS, STARS_PER_SPAWN, MIN_STAR_SPAWN_US, MAX_STAR_SPAWN_US,
    MIN_PLANET_SPAWN_US, MAX_PLANET_SPAWN_US,
};
use crate::combat::{
    despawn_enemies, enemy_collision, projectile_collision, spec_earth_after_despawn,
    spec_enemy_escaped, spec_enemy_hits_player, spec_game_after_crashes, spec_crash_explosions,
    spec_resolve_pass,
};
use crate::effects::{Effect, animate_sprite, spec_animated};
use crate::enemy_spawning::{
    EnemySpawnConfig, spawn_enemy, enemy_movement, spec_enemy_moved,
};
use crate::game::{
    AppState, Game, spec_in_game_transition, spec_level_up_due, check_game_unpaused,
    check_player_level_up, in_game_transition,
};
use crate::geom::{Body, Size, spec_inside_x, spec_inside_y, DT_LIMIT};
use crate::player_control::{MoveKeys, player_movement, spec_player_moved};
use crate::ships::{EnemyEntity, Player};
use crate::shooting::{
    ProjectileEntity, Weapon, WeaponKeys, weapon_switching, player_shoot, enemy_shoot,
    projectile_move, spec_selected_after, spec_switch_events, spec_fire_ready, spec_volley,
    spec_volleys, spec_enemy_after_shoot, spec_projectile_moved, spec_projectile_gone,
};
use crate::spawn::spec_top_entry_y;
use crate::sprites::SpriteSizes;
use crate::timer::{Timer, spec_ticked};

verus! {

/// Everything the embedding program reads off its input layer each frame:
/// held movement keys, fresh fire and pause presses, and fresh weapon-slot
/// presses.
#[derive(Clone, Copy, PartialEq, Eq, Structural, Debug)]
pub struct InputState {
    pub move_keys: MoveKeys,
    pub fire_pressed: bool,
    pub pause_pressed: bool,
    pub weapon_keys: WeaponKeys,
}

/// The discrete events one frame may raise for the UI layer.
#[derive(Clone, Copy, PartialEq, Eq, Structural, Debug)]
pub struct FrameEvents {
    pub level_up: bool,
    pub weapon_switches: u32,
}

/// The full state of one session.
#[derive(Clone, Debug)]
pub struct World {
    pub state: AppState,
    pub game: Game,
    pub player: Player,
    pub player_body: Body,
    pub enemies: Vec<EnemyEntity>,
    pub projectiles: Vec<ProjectileEntity>,
    pub obstacles: Vec<ObstacleEntity>,
    pub effects: Vec<Effect>,
    pub enemy_spawn: EnemySpawnConfig,
    pub backdrop_spawn: BackdropSpawnConfig,
    pub viewport: Size,
    pub sizes: SpriteSizes,
}

/// What one frame's random spawns may look like, and the entity lists that
/// follow from them. Each spawn batch is empty unless its countdown elapsed;
/// stars and planets enter on the top row inside the viewport width, and a
/// new enemy is an undamaged catalog ship with a fresh weapon entering the
/// same way. The lists after the half-frame are exactly the movement, fire
/// and flight passes applied to the world plus the batches.
pub open spec fn spec_spawn_outcome(
    w0: World,
    w1: World,
    input: InputState,
    dt: int,
    stars: Seq<ObstacleEntity>,
    planets: Seq<ObstacleEntity>,
    newcomers: Seq<EnemyEntity>,
) -> bool {
    let sel = spec_selected_after(w0.player, w0.game, input.weapon_keys);
    let w_sel = w0.player.weapons@[sel];
    let ticked = spec_ticked(w_sel.cooldown_timer, dt);
    let fired = input.fire_pressed && spec_fire_ready(ticked);
    let body1 = spec_player_moved(
        w0.player_body,
        w0.player.speed as int,
        input.move_keys,
        dt,
        w0.viewport,
    );
    let entered = (w0.enemies@ + newcomers).map_values(|e: EnemyEntity| spec_enemy_moved(e, dt));
    let pvolley = if fired {
        spec_volley(
            (Weapon { cooldown_timer: ticked, ..w_sel }),
            body1,
            w0.sizes.spec_projectile_size(w_sel.projectile.projectile_type),
        )
    } else {
        Seq::<ProjectileEntity>::empty()
    };
    let evolleys = spec_volleys(entered, body1, w0.viewport, dt, w0.sizes);
    &&& if spec_ticked(w0.backdrop_spawn.star_timer, dt).spec_finished() {
        &&& stars.len() == STARS_PER_SPAWN
        &&& forall|i: int|
            0 <= i < stars.len() ==> wf_star(#[trigger] stars[i], w0.sizes, w0.viewport)
                && stars[i].body.y == spec_top_entry_y(w0.viewport, stars[i].body.size)
    } else {
        stars.len() == 0
    }
    &&& if spec_ticked(w0.backdrop_spawn.planet_timer, dt).spec_finished() {
        &&& planets.len() == 1
        &&& wf_planet(planets[0], w0.sizes, w0.viewport)
        &&& planets[0].body.y == spec_top_entry_y(w0.viewport, planets[0].body.size)
    } else {
        planets.len() == 0
    }
    &&& if spec_ticked(w0.enemy_spawn.timer, dt).spec_finished() {
        &&& newcomers.len() == 1
        &&& newcomers[0].wf()
        &&& newcomers[0].enemy.undamaged()
        &&& newcomers[0].enemy.weapon_fresh()
        &&& newcomers[0].body.size == w0.sizes.spec_enemy_size(newcomers[0].enemy.ship_type)
        &&& newcomers[0].body.y == spec_top_entry_y(w0.viewport, newcomers[0].body.size)
        &&& spec_inside_x(
            newcomers[0].body.x as int,
            newcomers[0].body.size.width as int,
            w0.viewport.width as int,
        )
    } else {
        newcomers.len() == 0
    }
    &&& w1.obstacles@ == (w0.obstacles@ + stars + planets).map_values(
        |e: ObstacleEntity| spec_obstacle_moved(e, dt),
    )
    &&& w1.enemies@ == entered.map_values(
        |e: EnemyEntity| spec_enemy_after_shoot(e, body1, w0.viewport, dt),
    )
    &&& w1.projectiles@ == (w0.projectiles@ + pvolley + evolleys).map_values(
        |e: ProjectileEntity| spec_projectile_moved(e, dt),
    ).filter(|e: ProjectileEntity| !spec_projectile_gone(e, w0.viewport))
}

/// The frame's first half as a relation between the world before and after:
/// spawning, movement, weapon switching and fire, and projectile flight.
/// The scoreboard, state and effects are untouched; the player ends exactly
/// one clamped key-step away; every spawn countdown and the selected
/// weapon's cooldown advance exactly once by `dt`, restarting (with a fresh
/// random spawn duration) only on elapse or fire; and the entity lists are
/// tied to the spawn draws by `spec_spawn_outcome`.
pub open spec fn spec_first_half(w0: World, w1: World, input: InputState, dt: int) -> bool {
    let sel = spec_selected_after(w0.player, w0.game, input.weapon_keys);
    let w_sel = w0.player.weapons@[sel];
    let ticked = spec_ticked(w_sel.cooldown_timer, dt);
    let fired = input.fire_pressed && spec_fire_ready(ticked);
    let star_ticked = spec_ticked(w0.backdrop_spawn.star_timer, dt);
    let planet_ticked = spec_ticked(w0.backdrop_spawn.planet_timer, dt);
    let enemy_ticked = spec_ticked(w0.enemy_spawn.timer, dt);
    &&& w1.state == w0.state
    &&& w1.game == w0.game
    &&& w1.viewport == w0.viewport
    &&& w1.sizes == w0.sizes
    &&& w1.effects == w0.effects
    &&& w1.player_body == spec_player_moved(
        w0.player_body,
        w0.player.speed as int,
        input.move_keys,
        dt,
        w0.viewport,
    )
    &&& w1.player.speed == w0.player.speed
    &&& w1.player.current_weapon_index as int == sel
    &&& w1.player.weapons@ == w0.player.weapons@.update(
        sel,
        (Weapon {
            cooldown_timer: if fired {
                Timer { duration_us: w_sel.cooldown_timer.duration_us, elapsed_us: 0u64, paused: false }
            } else {
                ticked
            },
            ..w_sel
        }),
    )
    &&& if star_ticked.spec_finished() {
        &&& w1.backdrop_spawn.star_timer.elapsed_us == 0
        &&& !w1.backdrop_spawn.star_timer.paused
        &&& MIN_STAR_SPAWN_US <= w1.backdrop_spawn.star_timer.duration_us <= MAX_STAR_SPAWN_US
    } else {
        w1.backdrop_spawn.star_timer == star_ticked
    }
    &&& if planet_ticked.spec_finished() {
        &&& w1.backdrop_spawn.planet_timer.elapsed_us == 0
        &&& !w1.backdrop_spawn.planet_timer.paused
        &&& MIN_PLANET_SPAWN_US <= w1.backdrop_spawn.planet_timer.duration_us
            <= MAX_PLANET_SPAWN_US
    } else {
        w1.backdrop_spawn.planet_timer == planet_ticked
    }
    &&& if enemy_ticked.spec_finished() {
        w1.enemy_spawn.timer.elapsed_us == 0 && w1.enemy_spawn.wf()
    } else {
        w1.enemy_spawn.timer == enemy_ticked
    }
    &&& exists|stars: Seq<ObstacleEntity>, planets: Seq<ObstacleEntity>, newcomers: Seq<EnemyEntity>|
        spec_spawn_outcome(w0, w1, input, dt, stars, planets, newcomers)
}

/// The frame's second half as a relation between the world before and
/// after: ramming collisions, projectile strikes, out-of-bounds despawning
/// with the Earth charge, and feedback animation — each pass exactly its
/// own fold, composed in the documented order.
pub open spec fn spec_second_half(w1: World, w2: World, dt: int) -> bool {
    let g1 = spec_game_after_crashes(w1.game, w1.enemies@, w1.player_body);
    let survivors = w1.enemies@.filter(
        |e: EnemyEntity| !spec_enemy_hits_player(e, w1.player_body),
    );
    let crash_fx = spec_crash_explosions(w1.enemies@, w1.player_body);
    let r = spec_resolve_pass(g1, w1.player_body, survivors, w1.projectiles@);
    &&& w2.state == w1.state
    &&& w2.viewport == w1.viewport
    &&& w2.sizes == w1.sizes
    &&& w2.player == w1.player
    &&& w2.enemy_spawn == w1.enemy_spawn
    &&& w2.backdrop_spawn == w1.backdrop_spawn
    &&& w2.game == (Game {
        earth_health: spec_earth_after_despawn(r.0.earth_health, r.2, w1.viewport),
        ..r.0
    })
    &&& w2.player_body == r.1
    &&& w2.enemies@ == r.2.filter(|e: EnemyEntity| !spec_enemy_escaped(e, w1.viewport))
    &&& w2.projectiles@ == r.4
    &&& w2.obstacles@ == w1.obstacles@.filter(
        |e: ObstacleEntity| !spec_obstacle_gone(e, w1.viewport),
    )
    &&& w2.effects@ == spec_animated(w1.effects@ + crash_fx + r.3, dt)
}

/// The frame's closing checks: the level-up rule applied once to the
/// scoreboard the passes left behind, the level-up event raised exactly
/// when it applies, the state settled by the documented precedence, and
/// everything else carried over unchanged.
pub open spec fn spec_frame_checks(post: World, w2: World, events: FrameEvents, pause_pressed: bool) -> bool {
    &&& events.level_up == spec_level_up_due(post.game)
    &&& w2.game == if spec_level_up_due(post.game) {
        Game { level: (post.game.level + 1) as u32, ..post.game }
    } else {
        post.game
    }
    &&& w2.state == spec_in_game_transition(w2.game, pause_pressed)
    &&& w2.player == post.player
    &&& w2.player_body == post.player_body
    &&& w2.enemies == post.enemies
    &&& w2.projectiles == post.projectiles
    &&& w2.obstacles == post.obstacles
    &&& w2.effects == post.effects
    &&& w2.enemy_spawn == post.enemy_spawn
    &&& w2.backdrop_spawn == post.backdrop_spawn
    &&& w2.viewport == post.viewport
    &&& w2.sizes == post.sizes
}

/// One whole in-game frame: some half-frame worlds `mid` and `post` witness
/// the pipeline — first half, second half, closing checks — and the switch
/// events are counted by the switching rule on the frame's input.
pub open spec fn spec_in_game_frame(
    w0: World,
    w2: World,
    events: FrameEvents,
    input: InputState,
    dt: int,
) -> bool {
    &&& events.weapon_switches as int == spec_switch_events(w0.player, w0.game, input.weapon_keys)
    &&& exists|mid: World, post: World|
        #![trigger spec_first_half(w0, mid, input, dt), spec_second_half(mid, post, dt)]
        {
            &&& spec_first_half(w0, mid, input, dt)
            &&& spec_second_half(mid, post, dt)
            &&& spec_frame_checks(post, w2, events, input.pause_pressed)
        }
}

impl World {
    pub open spec fn wf(self) -> bool {
        &&& self.game.wf()
        &&& self.player.wf()
        &&& (self.player.current_weapon_index == 0 || self.player.current_weapon_index
            < self.game.level)
        &&& self.player_body.wf()
        &&& self.player_body.size == self.sizes.player
        &&& self.viewport.wf()
        &&& self.sizes.wf()
        &&& self.sizes.enemies_fit(self.viewport)
        &&& self.sizes.backdrop_fits(self.viewport)
        &&& self.sizes.player_fits(self.viewport)
        &&& self.enemy_spawn.wf()
        &&& self.backdrop_spawn.wf()
        &&& forall|i: int| 0 <= i < self.enemies@.len() ==> (#[trigger] self.enemies@[i]).wf()
        &&& forall|i: int|
            0 <= i < self.projectiles@.len() ==> (#[trigger] self.projectiles@[i]).wf()
        &&& forall|i: int| 0 <= i < self.obstacles@.len() ==> (#[trigger] self.obstacles@[i]).wf()
        &&& forall|i: int| 0 <= i < self.effects@.len() ==> (#[trigger] self.effects@[i]).wf()
    }

    /// A fresh session, still loading assets: full health, level one, the
    /// player centered, nothing else in the world yet.
    pub fn new(viewport: Size, sizes: SpriteSizes) -> (w: World)
        requires
            viewport.wf(),
            sizes.wf(),
            sizes.enemies_fit(viewport),
            sizes.backdrop_fits(viewport),
            sizes.player_fits(viewport),
        ensures
            w.wf(),
            w.state == AppState::Loading,
            w.game == Game::spec_initial(),
            w.player_body.x == 0 && w.player_body.y == 0,
            w.enemies@.len() == 0,
            w.projectiles@.len() == 0,
            w.obstacles@.len() == 0,
            w.effects@.len() == 0,
    {
        let player_body = Body { x: 0, y: 0, size: sizes.player };
        World {
            state: AppState::Loading,
            game: Game::new(),
            player: Player::new(),
            player_body,
            enemies: Vec::new(),
            projectiles: Vec::new(),
            obstacles: Vec::new(),
            effects: Vec::new(),
            enemy_spawn: EnemySpawnConfig::new(),
            backdrop_spawn: BackdropSpawnConfig::new(),
            viewport,
            sizes,
        }
    }

    /// The asset collaborator's ready signal: leave `Loading`, scatter the
    /// initial backdrop, and start playing. Everything else is untouched:
    /// the initial star field is appended, with one planet resting fully
    /// visible against the top edge after it.
    pub fn finish_loading(&mut self)
        requires
            old(self).wf(),
            old(self).state == AppState::Loading,
        ensures
            final(self).wf(),
            final(self).state == AppState::InGame,
            final(self).game == old(self).game,
            final(self).player == old(self).player,
            final(self).player_body == old(self).player_body,
            final(self).enemies == old(self).enemies,
            final(self).projectiles == old(self).projectiles,
            final(self).effects == old(self).effects,
            final(self).enemy_spawn == old(self).enemy_spawn,
            final(self).backdrop_spawn == old(self).backdrop_spawn,
            final(self).viewport == old(self).viewport,
            final(self).sizes == old(self).sizes,
            ({
                let n = old(self).obstacles@.len() as int;
                let all = final(self).obstacles@;
                &&& all.len() == n + INITIAL_STARS + 1
                &&& all.subrange(0, n) == old(self).obstacles@
                &&& forall|i: int|
                    n <= i < n + INITIAL_STARS ==> wf_star(
                        #[trigger] all[i],
                        old(self).sizes,
                        old(self).viewport,
                    ) && spec_inside_y(
                        all[i].body.y as int,
                        all[i].body.size.height as int,
                        old(self).viewport.height as int,
                    )
                &&& wf_planet(all[n + INITIAL_STARS], old(self).sizes, old(self).viewport)
                &&& all[n + INITIAL_STARS].body.y == (old(self).viewport.height - all[n
                    + INITIAL_STARS].body.size.height) / 2
            }),
    {
        self.state = AppState::InGame;
        let ghost before = self.obstacles@;
        let mut field = setup_initial_backdrop(&self.viewport, &self.sizes);
        let ghost laid_out = field@;
        self.obstacles.append(&mut field);
        proof {
            assert(self.obstacles@.subrange(0, before.len() as int) =~= before);
            assert forall|i: int|
                before.len() <= i < before.len() + INITIAL_STARS + 1 implies self.obstacles@[i]
                == laid_out[i - before.len()] by {}
        }
    }

    /// One simulated frame of `dt` microseconds under the given input.
    ///
    /// While in game the pipeline runs in its fixed order; the resulting
    /// state follows the documented precedence (loss, then victory, then
    /// pause). In any other state nothing advances: while paused only the
    /// unpause check runs — every timer is frozen exactly where it was —
    /// and a finished or still-loading session ignores frames entirely.
    pub fn step(&mut self, input: &InputState, dt: u64) -> (events: FrameEvents)
        requires
            old(self).wf(),
            dt <= DT_LIMIT,
        ensures
            final(self).wf(),
            final(self).viewport == old(self).viewport,
            final(self).sizes == old(self).sizes,
            old(self).state == AppState::Loading ==> *final(self) == *old(self) && events == (
            FrameEvents { level_up: false, weapon_switches: 0u32 }),
            old(self).state == AppState::GameOver ==> *final(self) == *old(self) && events == (
            FrameEvents { level_up: false, weapon_switches: 0u32 }),
            old(self).state == AppState::GameWon ==> *final(self) == *old(self) && events == (
            FrameEvents { level_up: false, weapon_switches: 0u32 }),
            old(self).state == AppState::Paused ==> *final(self) == (World {
                state: if input.pause_pressed {
                    AppState::InGame
                } else {
                    AppState::Paused
                },
                ..*old(self)
            }) && events == (FrameEvents { level_up: false, weapon_switches: 0u32 }),
            old(self).state == AppState::InGame ==> {
                &&& spec_in_game_frame(*old(self), *final(self), events, *input, dt as int)
                &&& final(self).state == spec_in_game_transition(final(self).game, input.pause_pressed)
                &&& final(self).game.score >= old(self).game.score
                &&& final(self).game.health <= old(self).game.health
                &&& final(self).game.earth_health <= old(self).game.earth_health
                &&& final(self).game.level >= old(self).game.level
                &&& (events.level_up ==> final(self).game.level == old(self).game.level + 1)
                &&& (!events.level_up ==> final(self).game.level == old(self).game.level)
            },
    {
        match self.state {
            AppState::Loading => FrameEvents { level_up: false, weapon_switches: 0 },
            AppState::GameOver => FrameEvents { level_up: false, weapon_switches: 0 },
            AppState::GameWon => FrameEvents { level_up: false, weapon_switches: 0 },
            AppState::Paused => {
                if let Some(s) = check_game_unpaused(input.pause_pressed) {
                    self.state = s;
                }
                FrameEvents { level_up: false, weapon_switches: 0 }
            },
            AppState::InGame => self.step_in_game(input, dt),
        }
    }

    /// The in-game pipeline: spawning, movement, weapons and projectile
    /// flight, then collision resolution and despawning, and finally the
    /// level-up and state checks.
    fn step_in_game(&mut self, input: &InputState, dt: u64) -> (events: FrameEvents)
        requires
            old(self).wf(),
            old(self).state == AppState::InGame,
            dt <= DT_LIMIT,
        ensures
            final(self).wf(),
            final(self).viewport == old(self).viewport,
            final(self).sizes == old(self).sizes,
            spec_in_game_frame(*old(self), *final(self), events, *input, dt as int),
            final(self).state == spec_in_game_transition(final(self).game, input.pause_pressed),
            final(self).game.score >= old(self).game.score,
            final(self).game.health <= old(self).game.health,
            final(self).game.earth_health <= old(self).game.earth_health,
            final(self).game.level >= old(self).game.level,
            events.level_up ==> final(self).game.level == old(self).game.level + 1,
            !events.level_up ==> final(self).game.level == old(self).game.level,
    {
        let weapon_switches = self.step_spawns_movement_weapons(input, dt);
        let ghost mid = *self;
        self.step_combat_and_despawn(dt);
        let ghost post = *self;

        // The state checks, in their documented order.
        let level_up = check_player_level_up(&mut self.game);
        self.state = in_game_transition(&self.game, input.pause_pressed);

        let events = FrameEvents { level_up, weapon_switches };
        proof {
            assert(spec_first_half(*old(self), mid, *input, dt as int));
            assert(spec_second_half(mid, post, dt as int));
            assert(spec_frame_checks(post, *self, events, input.pause_pressed));
        }
        events
    }

    /// The frame's first half: spawning, movement, weapon handling and
    /// firing, and projectile flight. The scoreboard does not change here.
    fn step_spawns_movement_weapons(&mut self, input: &InputState, dt: u64) -> (weapon_switches:
        u32)
        requires
            old(self).wf(),
            dt <= DT_LIMIT,
        ensures
            final(self).wf(),
            final(self).viewport == old(self).viewport,
            final(self).sizes == old(self).sizes,
            final(self).state == old(self).state,
            final(self).game == old(self).game,
            weapon_switches as int == spec_switch_events(
                old(self).player,
                old(self).game,
                input.weapon_keys,
            ),
            spec_first_half(*old(self), *final(self), *input, dt as int),
    {
        let ghost w0 = *old(self);

        // Spawning: backdrop and enemies enter on their own countdowns.
        let mut new_stars = spawn_stars(&mut self.backdrop_spawn, dt, &self.viewport, &self.sizes);
        let ghost stars_batch = new_stars@;
        self.obstacles.append(&mut new_stars);
        let planet = spawn_planets(&mut self.backdrop_spawn, dt, &self.viewport, &self.sizes);
        let ghost planets_batch = match planet {
            Some(p) => seq![p],
            None => Seq::<ObstacleEntity>::empty(),
        };
        if let Some(p) = planet {
            self.obstacles.push(p);
        }
        let newcomer = spawn_enemy(&mut self.enemy_spawn, dt, &self.viewport, &self.sizes);
        let ghost newcomer_batch = if newcomer is Some {
            seq![newcomer->0]
        } else {
            Seq::<EnemyEntity>::empty()
        };
        if let Some(e) = newcomer {
            self.enemies.push(e);
        }
        proof {
            assert(self.obstacles@ =~= w0.obstacles@ + stars_batch + planets_batch);
            assert(self.enemies@ =~= w0.enemies@ + newcomer_batch);
        }

        // Movement: everything drifts; the player answers the held keys,
        // clamped so its box never leaves the viewport.
        obstacle_movement(&mut self.obstacles, dt);
        enemy_movement(&mut self.enemies, dt);
        player_movement(&mut self.player_body, self.player.speed, &input.move_keys, dt, &self.viewport);

        // Weapons: slot switching first, then this frame's fire.
        proof {
            crate::shooting::lemma_switching_respects_unlocks(
                self.player,
                self.game,
                input.weapon_keys,
            );
        }
        let switch_events = weapon_switching(&mut self.player, &self.game, &input.weapon_keys);
        assert(switch_events@.len() <= 5);
        let weapon_switches: u32 = switch_events.len() as u32;
        let mut player_shots = player_shoot(
            &mut self.player,
            &self.player_body,
            input.fire_pressed,
            dt,
            &self.sizes,
        );
        let ghost pvolley = player_shots@;
        self.projectiles.append(&mut player_shots);
        let mut enemy_shots = enemy_shoot(
            &mut self.enemies,
            &self.player_body,
            &self.viewport,
            dt,
            &self.sizes,
        );
        let ghost evolleys = enemy_shots@;
        self.projectiles.append(&mut enemy_shots);
        proof {
            assert(self.projectiles@ =~= w0.projectiles@ + pvolley + evolleys);
        }

        // Projectile flight, with both-ended out-of-bounds despawning.
        projectile_move(&mut self.projectiles, dt, &self.viewport);

        proof {
            assert(spec_spawn_outcome(
                w0,
                *self,
                *input,
                dt as int,
                stars_batch,
                planets_batch,
                newcomer_batch,
            ));
            assert(spec_first_half(w0, *self, *input, dt as int));
        }
        weapon_switches
    }

    /// The frame's second half: collision resolution, out-of-bounds
    /// despawning, and feedback animation. Health and earth health can only
    /// fall here, the score can only rise, and the level does not change.
    fn step_combat_and_despawn(&mut self, dt: u64)
        requires
            old(self).wf(),
            dt <= DT_LIMIT,
        ensures
            final(self).wf(),
            final(self).viewport == old(self).viewport,
            final(self).sizes == old(self).sizes,
            final(self).state == old(self).state,
            final(self).game.score >= old(self).game.score,
            final(self).game.health <= old(self).game.health,
            final(self).game.earth_health <= old(self).game.earth_health,
            final(self).game.level == old(self).game.level,
            spec_second_half(*old(self), *final(self), dt as int),
    {
        // Collision resolution: rams first, then projectile strikes.
        let ghost game_before_crashes = self.game;
        let ghost enemies_before_crashes = self.enemies@;
        let ghost body_before_crashes = self.player_body;
        let mut explosions = enemy_collision(&mut self.game, &self.player_body, &mut self.enemies);
        let ghost crash_fx = explosions@;
        self.effects.append(&mut explosions);
        proof {
            lemma_crashes_monotonic(game_before_crashes, enemies_before_crashes, body_before_crashes);
        }
        let ghost game_before_strikes = self.game;
        let ghost body_before_strikes = self.player_body;
        let ghost enemies_before_strikes = self.enemies@;
        let ghost projectiles_before_strikes = self.projectiles@;
        let mut strike_effects = projectile_collision(
            &mut self.game,
            &mut self.player_body,
            &mut self.enemies,
            &mut self.projectiles,
        );
        let ghost strike_fx = strike_effects@;
        self.effects.append(&mut strike_effects);
        proof {
            lemma_resolve_pass_monotonic(
                game_before_strikes,
                body_before_strikes,
                enemies_before_strikes,
                projectiles_before_strikes,
            );
            assert(self.effects@ =~= old(self).effects@ + crash_fx + strike_fx);
        }

        // Enemies that slipped past charge Earth; spent backdrop leaves.
        let ghost earth_before_despawn = self.game.earth_health;
        let ghost enemies_before_despawn = self.enemies@;
        despawn_enemies(&mut self.game, &mut self.enemies, &self.viewport);
        proof {
            lemma_despawn_monotonic(earth_before_despawn, enemies_before_despawn, self.viewport);
        }
        despawn_obstacle(&mut self.obstacles, &self.viewport);

        // Feedback animation frames advance; finished ones disappear.
        animate_sprite(&mut self.effects, dt);

        proof {
            assert(spec_second_half(*old(self), *self, dt as int));
        }
    }
}

/// Ramming collisions never raise health, never lower the score, and never
/// touch earth health or the level.
proof fn lemma_crashes_monotonic(g: Game, es: Seq<EnemyEntity>, player: Body)
    ensures
        spec_game_after_crashes(g, es, player).health <= g.health,
        spec_game_after_crashes(g, es, player).score >= g.score,
        spec_game_after_crashes(g, es, player).earth_health == g.earth_health,
        spec_game_after_crashes(g, es, player).level == g.level,
    decreases es.len(),
{
    if es.len() > 0 {
        lemma_crashes_monotonic(g, es.drop_last(), player);
    }
}

/// Projectile strikes never raise health, never lower the score, never
/// touch earth health or the level, and move the player only vertically.
proof fn lemma_resolve_pass_monotonic(
    g: Game,
    player: Body,
    es: Seq<EnemyEntity>,
    ps: Seq<ProjectileEntity>,
)
    ensures
        spec_resolve_pass(g, player, es, ps).0.health <= g.health,
        spec_resolve_pass(g, player, es, ps).0.score >= g.score,
        spec_resolve_pass(g, player, es, ps).0.earth_health == g.earth_health,
        spec_resolve_pass(g, player, es, ps).0.level == g.level,
        spec_resolve_pass(g, player, es, ps).1.x == player.x,
        spec_resolve_pass(g, player, es, ps).1.size == player.size,
    decreases ps.len(),
{
    if ps.len() > 0 {
        lemma_resolve_pass_monotonic(g, player, es, ps.drop_last());
    }
}

/// The despawn charge never raises earth health.
proof fn lemma_despawn_monotonic(earth: u32, es: Seq<EnemyEntity>, viewport: Size)
    ensures
        spec_earth_after_despawn(earth, es, viewport) <= earth,
    decreases es.len(),
{
    if es.len() > 0 {
        lemma_despawn_monotonic(earth, es.drop_last(), viewport);
    }
}

} // verus!
