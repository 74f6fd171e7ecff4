use shooting_range::levels::{LevelController, Position};
use shooting_range::session::{GameSession, Hit, TargetController};
use shooting_range::state::{GameState, LevelState, MenuButtonAction};
use shooting_range::timer::{Countdown, NANOS_PER_SECOND};

fn started() -> GameSession {
    let mut s = GameSession::new();
    assert!(!s.menu_interactions(MenuButtonAction::Play));
    s
}

fn playing() -> GameSession {
    let mut s = started();
    s.frame(false, 0, Hit::StartButton);
    assert_eq!(s.game_state, GameState::Playing);
    s
}

/// Shoots every target of the current level but the last `keep` ones,
/// front first.
fn shoot_all_but(s: &mut GameSession, keep: usize) {
    let level = s.level_state;
    while s.level_state == level && s.targets.len() > keep {
        s.frame(false, 0, Hit::Target(0));
    }
}

/// Plays from the first level until `level` is reached, on its start screen.
fn reach(level: LevelState) -> GameSession {
    let mut s = playing();
    while s.level_state != level {
        shoot_all_but(&mut s, 0);
        assert_eq!(s.game_state, GameState::Start);
        s.frame(false, 0, Hit::StartButton);
    }
    s
}

#[test]
fn a_new_session_is_at_the_main_menu() {
    let s = GameSession::new();
    assert_eq!(s.game_state, GameState::MainMenu);
    assert_eq!(s.level_state, LevelState::NoLevel);
    assert_eq!(s.last_state.state, None);
    assert_eq!(s.time_controller.time_left, None);
    assert!(s.targets.is_empty());
    assert!(!s.start_button);
}

#[test]
fn play_starts_the_first_level() {
    let s = started();
    assert_eq!(s.game_state, GameState::Start);
    assert_eq!(s.level_state, LevelState::Level1);
    assert_eq!(s.targets.len(), 8);
    assert_eq!(s.targets[0].position, Position { x: -281820, y: 17458, z: 96431 });
    assert_eq!(s.targets[0].controller, TargetController::default());
    assert!(s.start_button);
    assert_eq!(
        s.time_controller.time_left,
        Some(Countdown { duration: 50 * NANOS_PER_SECOND, elapsed: 0 })
    );
}

#[test]
fn quit_is_reported_from_the_main_menu_only() {
    let mut s = GameSession::new();
    assert!(s.menu_interactions(MenuButtonAction::Quit));
    assert_eq!(s.game_state, GameState::MainMenu);
    let mut p = started();
    p.update(true);
    assert!(!p.menu_interactions(MenuButtonAction::Quit));
    assert_eq!(p.game_state, GameState::PauseMenu);
}

#[test]
fn pause_and_resume_return_to_the_start_screen() {
    let mut s = started();
    s.frame(true, 0, Hit::Nothing);
    assert_eq!(s.game_state, GameState::PauseMenu);
    assert_eq!(s.last_state.state, Some(GameState::Start));
    s.menu_interactions(MenuButtonAction::Resume);
    assert_eq!(s.game_state, GameState::Start);
    assert_eq!(s.level_state, LevelState::Level1);
    assert_eq!(s.last_state.state, None);
    assert_eq!(s.targets.len(), 8);
}

#[test]
fn escape_in_the_pause_menu_is_ignored() {
    let mut s = playing();
    s.frame(true, NANOS_PER_SECOND, Hit::Nothing);
    assert_eq!(s.game_state, GameState::PauseMenu);
    let before_time = s.time_controller;
    s.frame(true, NANOS_PER_SECOND, Hit::Target(0));
    assert_eq!(s.game_state, GameState::PauseMenu);
    assert_eq!(s.last_state.state, Some(GameState::Playing));
    assert_eq!(s.time_controller, before_time);
    assert_eq!(s.targets.len(), 8);
}

#[test]
fn the_countdown_runs_only_while_playing() {
    let mut s = started();
    s.frame(false, NANOS_PER_SECOND, Hit::Nothing);
    assert_eq!(s.time_controller.time_left.unwrap().elapsed, 0);
    s.frame(false, NANOS_PER_SECOND, Hit::StartButton);
    s.frame(false, NANOS_PER_SECOND, Hit::Nothing);
    assert_eq!(s.time_controller.time_left.unwrap().elapsed, NANOS_PER_SECOND);
}

#[test]
fn a_hit_removes_a_target() {
    let mut s = playing();
    let second = s.targets[1];
    s.frame(false, 0, Hit::Target(0));
    assert_eq!(s.target_count(), 7);
    assert_eq!(s.targets[0], second);
    s.frame(false, 0, Hit::Target(7));
    assert_eq!(s.targets.len(), 7);
}

#[test]
fn a_target_with_more_health_takes_more_hits() {
    let mut s = playing();
    s.targets[2].controller.health = 2;
    s.resolve_hit(Hit::Target(2));
    assert_eq!(s.targets.len(), 8);
    assert_eq!(s.targets[2].controller.health, 1);
    s.resolve_hit(Hit::Target(2));
    assert_eq!(s.targets.len(), 7);
}

#[test]
fn clearing_the_first_level_spawns_the_second() {
    let mut s = playing();
    shoot_all_but(&mut s, 0);
    assert_eq!(s.level_state, LevelState::Level2);
    assert_eq!(s.game_state, GameState::Start);
    assert_eq!(s.targets.len(), LevelController::default().level_2_pos.len());
    assert_eq!(s.targets.len(), 10);
    assert!(s.start_button);
}

#[test]
fn destroying_the_last_target_of_level_three_starts_level_four() {
    let mut s = reach(LevelState::Level3);
    s.frame(false, 0, Hit::StartButton);
    assert_eq!(s.game_state, GameState::Playing);
    shoot_all_but(&mut s, 1);
    assert_eq!(s.targets.len(), 1);
    assert_eq!(s.level_state, LevelState::Level3);
    s.frame(false, 0, Hit::Target(0));
    assert_eq!(s.level_state, LevelState::Level4);
    assert_eq!(s.game_state, GameState::Start);
    assert_eq!(s.targets.len(), 46);
    assert_eq!(
        s.time_controller.time_left,
        Some(Countdown { duration: 80 * NANOS_PER_SECOND, elapsed: 0 })
    );
}

#[test]
fn clearing_the_last_level_wins() {
    let mut s = reach(LevelState::Level5);
    s.frame(false, 0, Hit::StartButton);
    assert_eq!(s.targets.len(), 75);
    shoot_all_but(&mut s, 0);
    assert_eq!(s.game_state, GameState::Won);
    assert_eq!(s.level_state, LevelState::NoLevel);
    assert_eq!(s.time_controller.time_left, None);
    s.frame(true, 0, Hit::Nothing);
    assert_eq!(s.game_state, GameState::PauseMenu);
    s.menu_interactions(MenuButtonAction::Resume);
    assert_eq!(s.game_state, GameState::Won);
}

#[test]
fn the_countdown_running_out_fails_the_level_and_restarts_the_first() {
    let mut s = reach(LevelState::Level2);
    s.frame(false, 0, Hit::StartButton);
    s.update_level_timer(50 * NANOS_PER_SECOND);
    assert!(s.time_controller.is_finished());
    s.update(false);
    assert_eq!(s.level_state, LevelState::Failed);
    assert_eq!(s.time_controller.time_left, None);
    assert!(s.targets.is_empty());
    s.change_level_state();
    assert_eq!(s.level_state, LevelState::Level1);
    assert_eq!(s.game_state, GameState::Start);
    assert_eq!(s.targets.len(), 8);
}

#[test]
fn a_frame_past_the_budget_fails_and_restarts() {
    let mut s = playing();
    s.frame(false, 49 * NANOS_PER_SECOND, Hit::Nothing);
    assert_eq!(s.level_state, LevelState::Level1);
    assert_eq!(s.game_state, GameState::Playing);
    s.frame(false, 2 * NANOS_PER_SECOND, Hit::Nothing);
    assert_eq!(s.level_state, LevelState::Level1);
    assert_eq!(s.game_state, GameState::Start);
    assert_eq!(s.time_controller.time_left.unwrap().elapsed, 0);
    assert_eq!(s.targets.len(), 8);
}

#[test]
fn main_menu_from_the_pause_menu_ends_the_round() {
    let mut s = playing();
    s.frame(true, 0, Hit::Nothing);
    s.menu_interactions(MenuButtonAction::GoToMainMenu);
    assert_eq!(s.game_state, GameState::MainMenu);
    assert_eq!(s.level_state, LevelState::NoLevel);
    assert_eq!(s.last_state.state, None);
    assert_eq!(s.time_controller.time_left, None);
    assert!(s.targets.is_empty());
    assert!(!s.start_button);
}

#[test]
fn buttons_of_the_other_menu_are_ignored() {
    let mut s = GameSession::new();
    s.menu_interactions(MenuButtonAction::Resume);
    assert_eq!(s.game_state, GameState::MainMenu);
    let mut p = started();
    p.frame(true, 0, Hit::Nothing);
    p.menu_interactions(MenuButtonAction::Play);
    assert_eq!(p.game_state, GameState::PauseMenu);
}

#[test]
fn despawning_targets_empties_the_registry() {
    let mut s = started();
    s.despawn_targets();
    assert!(s.targets.is_empty());
    assert_eq!(s.level_state, LevelState::Level1);
}
