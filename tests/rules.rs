use shooting_range::gun::{GunController, BULLET_DELAY};
use shooting_range::levels::{LevelController, Position};
use shooting_range::overlay::{level_text, targets_text, time_text};
use shooting_range::state::{
    in_main_menu_state, in_pause_menu_state, in_playing_state, in_start_state, in_won_state,
    GameState, LevelState,
};
use shooting_range::timer::{TimeController, NANOS_PER_SECOND};

#[test]
fn state_checks() {
    assert!(in_main_menu_state(GameState::MainMenu));
    assert!(!in_main_menu_state(GameState::Start));
    assert!(in_pause_menu_state(GameState::PauseMenu));
    assert!(in_start_state(GameState::Start));
    assert!(!in_start_state(GameState::Playing));
    assert!(in_playing_state(GameState::Playing));
    assert!(in_won_state(GameState::Won));
    assert!(!in_won_state(GameState::Failed));
}

#[test]
fn what_follows_a_cleared_level() {
    assert_eq!(LevelState::NoLevel.after_clear(), None);
    assert_eq!(LevelState::Failed.after_clear(), Some((LevelState::Level1, GameState::Start)));
    assert_eq!(LevelState::Level1.after_clear(), Some((LevelState::Level2, GameState::Start)));
    assert_eq!(LevelState::Level4.after_clear(), Some((LevelState::Level5, GameState::Start)));
    assert_eq!(LevelState::Level5.after_clear(), Some((LevelState::NoLevel, GameState::Won)));
    assert!(LevelState::Level3.is_playable());
    assert!(!LevelState::Failed.is_playable());
    assert!(!LevelState::NoLevel.is_playable());
}

#[test]
fn catalog_sizes_and_positions() {
    let c = LevelController::default();
    assert_eq!(c.level_1_pos.len(), 8);
    assert_eq!(c.level_2_pos.len(), 10);
    assert_eq!(c.level_3_pos.len(), 23);
    assert_eq!(c.level_4_pos.len(), 46);
    assert_eq!(c.level_5_pos.len(), 75);
    assert_eq!(c.positions(LevelState::Level3).len(), 23);
    assert_eq!(c.level_4_pos[4], Position { x: 29636, y: -5250, z: 44072 });
    assert_eq!(c.level_5_pos[74], Position { x: 109497, y: 16030, z: 9789 });
    assert_eq!(c.positions(LevelState::Level2)[9], Position { x: -8334, y: -7380, z: 84862 });
}

#[test]
fn overlay_lines() {
    assert_eq!(level_text(LevelState::Level3), "LEVEL 3 - MEDIUM");
    assert_eq!(level_text(LevelState::Level5), "LEVEL 5 - IMPOSSIBLE");
    assert_eq!(level_text(LevelState::NoLevel), "LEVEL NONE - NONE");
    assert_eq!(level_text(LevelState::Failed), "LEVEL FAILED - FAILED");
    assert_eq!(targets_text(0), "TARGETS LEFT: 0");
    assert_eq!(targets_text(46), "TARGETS LEFT: 46");
    let mut t = TimeController::default();
    assert_eq!(time_text(&t), "TIME: No timer");
    t.set_timer(t.level_3_time);
    t.run_timer(NANOS_PER_SECOND / 4);
    assert_eq!(time_text(&t), "TIME: 69.75s");
}

#[test]
fn a_gun_without_delay_never_fires() {
    let mut g = GunController::default();
    assert!(!g.trigger(true, false));
    assert!(g.shooting);
}

#[test]
fn a_press_fires_and_holding_waits_for_the_delay() {
    let mut g = GunController::armed();
    assert!(g.trigger(true, false));
    assert!(!g.just_pressed);
    assert!(!g.trigger(false, false));
    g.tick(BULLET_DELAY - 1);
    assert!(!g.trigger(false, false));
    g.tick(1);
    assert!(g.trigger(false, false));
    assert_eq!(g.bullet_delay.unwrap().elapsed, 0);
    g.tick(BULLET_DELAY);
    assert!(!g.trigger(false, true));
    assert!(!g.shooting);
    assert!(g.trigger(true, false));
}
