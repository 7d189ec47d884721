//! The game singleton (health, earth health, score, level) and the global
//! state machine.
//!
//! Health and earth health only ever fall, by saturating subtraction; the
//! score only ever rises. The state machine runs `Loading -> InGame`,
//! toggles `InGame <-> Paused` on the pause key, and leaves `InGame` for
//! good on a loss or a win. When the loss and the victory condition hold on
//! the same frame, this implementation documents and fixes the precedence:
//! the loss wins (the game-over check runs first and takes effect).

use vstd::prelude::*;

verus! {

pub const PLAYER_HEALTH: u32 = 1000;

pub const EARTH_HEALTH: u32 = 5000;

/// Reaching this score while in game wins the session.
pub const VICTORY_SCORE: u32 = 8000;

pub const MAX_LEVEL: u32 = 5;

pub open spec fn spec_sat_sub(a: u32, d: u32) -> u32 {
    if a >= d {
        (a - d) as u32
    } else {
        0u32
    }
}

pub open spec fn spec_sat_add(a: u32, d: u32) -> u32 {
    if a + d <= u32::MAX {
        (a + d) as u32
    } else {
        u32::MAX
    }
}

#[derive(Clone, Copy, PartialEq, Eq, Structural, Debug)]
pub enum AppState {
    Loading,
    InGame,
    Paused,
    GameOver,
    GameWon,
}

/// The session-wide scoreboard and the level, which gates weapon slots.
#[derive(Clone, Copy, PartialEq, Eq, Structural, Debug)]
pub struct Game {
    pub health: u32,
    pub earth_health: u32,
    pub score: u32,
    pub level: u32,
}

impl Game {
    pub open spec fn wf(self) -> bool {
        1 <= self.level <= MAX_LEVEL
    }

    /// The scoreboard a session starts from.
    pub open spec fn spec_initial() -> Game {
        Game { health: PLAYER_HEALTH, earth_health: EARTH_HEALTH, score: 0u32, level: 1u32 }
    }

    pub fn new() -> (g: Game)
        ensures
            g == Game::spec_initial(),
            g.wf(),
    {
        Game { health: PLAYER_HEALTH, earth_health: EARTH_HEALTH, score: 0, level: 1 }
    }

    /// The player takes a hit; health saturates at zero.
    pub fn damage_player(&mut self, damage: u32)
        ensures
            *final(self) == (Game { health: spec_sat_sub(old(self).health, damage), ..*old(self) }),
    {
        self.health = if let Some(i) = self.health.checked_sub(damage) {
            i
        } else {
            0
        };
    }

    /// An enemy reached Earth; earth health saturates at zero.
    pub fn damage_earth(&mut self, damage: u32)
        ensures
            *final(self) == (Game {
                earth_health: spec_sat_sub(old(self).earth_health, damage),
                ..*old(self)
            }),
    {
        self.earth_health = if let Some(i) = self.earth_health.checked_sub(damage) {
            i
        } else {
            0
        };
    }

    /// A bounty is collected; the score saturates only at the integer limit.
    pub fn add_score(&mut self, bounty: u32)
        ensures
            *final(self) == (Game { score: spec_sat_add(old(self).score, bounty), ..*old(self) }),
    {
        self.score = if let Some(i) = self.score.checked_add(bounty) {
            i
        } else {
            u32::MAX
        };
    }
}

pub open spec fn spec_game_over(g: Game) -> bool {
    g.health == 0 || g.earth_health == 0
}

pub open spec fn spec_game_won(g: Game) -> bool {
    g.score >= VICTORY_SCORE
}

/// The level-up rule: the score must exceed `level * 1000` and the level
/// must still be below the cap.
pub open spec fn spec_level_up_due(g: Game) -> bool {
    g.score > g.level * 1000 && g.level < MAX_LEVEL
}

/// Checked once per frame while in game: a loss ends the session.
pub fn check_game_over(game: &Game) -> (next: Option<AppState>)
    ensures
        next == if spec_game_over(*game) {
            Some(AppState::GameOver)
        } else {
            None::<AppState>
        },
{
    if game.health == 0 || game.earth_health == 0 {
        Some(AppState::GameOver)
    } else {
        None
    }
}

/// Checked once per frame while in game, after the game-over check.
pub fn check_game_won(game: &Game) -> (next: Option<AppState>)
    ensures
        next == if spec_game_won(*game) {
            Some(AppState::GameWon)
        } else {
            None::<AppState>
        },
{
    if game.score >= VICTORY_SCORE {
        Some(AppState::GameWon)
    } else {
        None
    }
}

/// While in game, a fresh pause key press suspends the session.
pub fn check_game_paused(pause_pressed: bool) -> (next: Option<AppState>)
    ensures
        next == if pause_pressed {
            Some(AppState::Paused)
        } else {
            None::<AppState>
        },
{
    if pause_pressed {
        Some(AppState::Paused)
    } else {
        None
    }
}

/// While paused, the same key press resumes the session.
pub fn check_game_unpaused(pause_pressed: bool) -> (next: Option<AppState>)
    ensures
        next == if pause_pressed {
            Some(AppState::InGame)
        } else {
            None::<AppState>
        },
{
    if pause_pressed {
        Some(AppState::InGame)
    } else {
        None
    }
}

/// Advance the level when the score passes the current threshold; reports
/// whether a level-up event fires this frame (at most one per frame).
pub fn check_player_level_up(game: &mut Game) -> (leveled: bool)
    requires
        old(game).wf(),
    ensures
        leveled == spec_level_up_due(*old(game)),
        *final(game) == if spec_level_up_due(*old(game)) {
            Game { level: (old(game).level + 1) as u32, ..*old(game) }
        } else {
            *old(game)
        },
        final(game).wf(),
{
    if game.score > game.level * 1000 && game.level < MAX_LEVEL {
        game.level = game.level + 1;
        true
    } else {
        false
    }
}

/// The state the machine settles on after one in-game frame, given the
/// final scoreboard of that frame. Documented precedence for simultaneous
/// conditions: game over beats game won, and both beat pausing.
pub open spec fn spec_in_game_transition(g: Game, pause_pressed: bool) -> AppState {
    if spec_game_over(g) {
        AppState::GameOver
    } else if spec_game_won(g) {
        AppState::GameWon
    } else if pause_pressed {
        AppState::Paused
    } else {
        AppState::InGame
    }
}

pub fn in_game_transition(game: &Game, pause_pressed: bool) -> (next: AppState)
    ensures
        next == spec_in_game_transition(*game, pause_pressed),
{
    if let Some(s) = check_game_over(game) {
        s
    } else if let Some(s) = check_game_won(game) {
        s
    } else if let Some(s) = check_game_paused(pause_pressed) {
        s
    } else {
        AppState::InGame
    }
}

/// A sequence of damage events folded with saturating subtraction.
pub open spec fn spec_apply_damage_seq(h: u32, damages: Seq<u32>) -> u32
    decreases damages.len(),
{
    if damages.len() == 0 {
        h
    } else {
        spec_apply_damage_seq(spec_sat_sub(h, damages[0]), damages.drop_first())
    }
}

pub open spec fn spec_damage_total(damages: Seq<u32>) -> int
    decreases damages.len(),
{
    if damages.len() == 0 {
        0
    } else {
        damages[0] + spec_damage_total(damages.drop_first())
    }
}

/// Law: an arbitrary sequence of damage events, including ones exceeding
/// the remaining value, leaves exactly `max(0, start - total)` behind — the
/// saturating fold never underflows and never loses more than the total.
pub proof fn lemma_damage_seq_saturates(h: u32, damages: Seq<u32>)
    ensures
        spec_apply_damage_seq(h, damages) == if spec_damage_total(damages) >= h {
            0u32
        } else {
            (h - spec_damage_total(damages)) as u32
        },
    decreases damages.len(),
{
    if damages.len() > 0 {
        lemma_damage_seq_saturates(spec_sat_sub(h, damages[0]), damages.drop_first());
        lemma_damage_total_nonnegative(damages.drop_first());
    }
}

pub proof fn lemma_damage_total_nonnegative(damages: Seq<u32>)
    ensures
        spec_damage_total(damages) >= 0,
    decreases damages.len(),
{
    if damages.len() > 0 {
        lemma_damage_total_nonnegative(damages.drop_first());
    }
}

} // verus!
