//! The game state machine: level-up rule, loss and victory checks, the
//! documented precedence between them, and pause transitions.

use space_shooter::game::{
    AppState, Game, check_game_over, check_game_paused, check_game_unpaused, check_game_won,
    check_player_level_up, in_game_transition,
};

#[test]
fn passing_the_level_threshold_levels_up_exactly_once() {
    let mut game = Game::new();
    game.score = 1_001;
    assert!(check_player_level_up(&mut game));
    assert_eq!(game.level, 2);

    // the same score raises no further event at the new level
    assert!(!check_player_level_up(&mut game));
    assert_eq!(game.level, 2);

    // it takes passing the next threshold to level again
    game.score = 2_001;
    assert!(check_player_level_up(&mut game));
    assert_eq!(game.level, 3);
}

#[test]
fn the_level_threshold_is_strictly_above_level_times_1000() {
    let mut game = Game::new();
    game.score = 1_000;
    assert!(!check_player_level_up(&mut game));
    assert_eq!(game.level, 1);
}

#[test]
fn the_level_caps_at_five() {
    let mut game = Game::new();
    game.level = 5;
    game.score = 100_000;
    assert!(!check_player_level_up(&mut game));
    assert_eq!(game.level, 5);
}

#[test]
fn losing_all_health_ends_the_game() {
    let mut game = Game::new();
    assert_eq!(check_game_over(&game), None);
    game.health = 0;
    assert_eq!(check_game_over(&game), Some(AppState::GameOver));
}

#[test]
fn losing_the_earth_ends_the_game() {
    let mut game = Game::new();
    game.earth_health = 0;
    assert_eq!(check_game_over(&game), Some(AppState::GameOver));
}

#[test]
fn reaching_the_victory_score_wins_the_game() {
    let mut game = Game::new();
    game.score = 7_999;
    assert_eq!(check_game_won(&game), None);
    game.score = 8_000;
    assert_eq!(check_game_won(&game), Some(AppState::GameWon));
}

#[test]
fn a_simultaneous_loss_and_victory_resolves_to_the_loss() {
    // the documented precedence: the game-over check runs first and wins
    let mut game = Game::new();
    game.health = 0;
    game.score = 8_000;
    assert_eq!(in_game_transition(&game, false), AppState::GameOver);
    assert_eq!(in_game_transition(&game, true), AppState::GameOver);
}

#[test]
fn a_victory_also_outranks_pausing() {
    let mut game = Game::new();
    game.score = 8_000;
    assert_eq!(in_game_transition(&game, true), AppState::GameWon);
}

#[test]
fn an_uneventful_frame_stays_in_game_or_pauses() {
    let game = Game::new();
    assert_eq!(in_game_transition(&game, false), AppState::InGame);
    assert_eq!(in_game_transition(&game, true), AppState::Paused);
}

#[test]
fn the_pause_key_toggles_between_the_two_states() {
    assert_eq!(check_game_paused(true), Some(AppState::Paused));
    assert_eq!(check_game_paused(false), None);
    assert_eq!(check_game_unpaused(true), Some(AppState::InGame));
    assert_eq!(check_game_unpaused(false), None);
}
