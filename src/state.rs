//! The two state enums of a round and the pure rules that move between them.
use vstd::prelude::*;

verus! {

/// Where the player is in a round: a menu, the start screen of a level,
/// the level itself, or one of its two outcomes.
#[derive(Debug, Clone, Copy, PartialEq, Eq, Hash, Structural)]
pub enum GameState {
    MainMenu,
    PauseMenu,
    Start,
    Playing,
    Failed,
    Won,
}

/// Which level's targets and countdown are active.
#[derive(Debug, Clone, Copy, PartialEq, Eq, Hash, Structural)]
pub enum LevelState {
    NoLevel,
    Level1,
    Level2,
    Level3,
    Level4,
    Level5,
    Failed,
}

/// The buttons of the two menus.
#[derive(Debug, Clone, Copy, PartialEq, Eq, Hash, Structural)]
pub enum MenuButtonAction {
    Play,
    Quit,
    Resume,
    GoToMainMenu,
}

/// A state from which escape opens the pause menu.
pub open spec fn pausable(state: GameState) -> bool {
    state == GameState::Playing || state == GameState::Start || state == GameState::Won
}

impl LevelState {
    /// One of the five levels that have targets and a countdown.
    pub open spec fn spec_is_playable(self) -> bool {
        !(self == LevelState::NoLevel || self == LevelState::Failed)
    }

    /// Position of a playable level in the catalog, from 0 to 4.
    pub open spec fn index(self) -> int {
        match self {
            LevelState::Level2 => 1,
            LevelState::Level3 => 2,
            LevelState::Level4 => 3,
            LevelState::Level5 => 4,
            _ => 0,
        }
    }

    /// The level state and game state entered once every target of this
    /// level is gone: the next level's start screen, victory after the last
    /// level, and a restart from the first level after a failure.
    pub open spec fn spec_after_clear(self) -> Option<(LevelState, GameState)> {
        match self {
            LevelState::NoLevel => None,
            LevelState::Failed => Some((LevelState::Level1, GameState::Start)),
            LevelState::Level1 => Some((LevelState::Level2, GameState::Start)),
            LevelState::Level2 => Some((LevelState::Level3, GameState::Start)),
            LevelState::Level3 => Some((LevelState::Level4, GameState::Start)),
            LevelState::Level4 => Some((LevelState::Level5, GameState::Start)),
            LevelState::Level5 => Some((LevelState::NoLevel, GameState::Won)),
        }
    }

    #[verifier::when_used_as_spec(spec_is_playable)]
    pub fn is_playable(self) -> (r: bool)
        ensures
            r == self.spec_is_playable(),
    {
        match self {
            LevelState::NoLevel | LevelState::Failed => false,
            _ => true,
        }
    }

    /// What follows once this level has no target left; `None` where no
    /// level is active.
    pub fn after_clear(self) -> (r: Option<(LevelState, GameState)>)
        ensures
            r == self.spec_after_clear(),
    {
        match self {
            LevelState::NoLevel => None,
            LevelState::Failed => Some((LevelState::Level1, GameState::Start)),
            LevelState::Level1 => Some((LevelState::Level2, GameState::Start)),
            LevelState::Level2 => Some((LevelState::Level3, GameState::Start)),
            LevelState::Level3 => Some((LevelState::Level4, GameState::Start)),
            LevelState::Level4 => Some((LevelState::Level5, GameState::Start)),
            LevelState::Level5 => Some((LevelState::NoLevel, GameState::Won)),
        }
    }

    /// The level's number and difficulty as shown in the overlay.
    pub open spec fn spec_info(self) -> (Seq<char>, Seq<char>) {
        match self {
            LevelState::NoLevel => ("NONE"@, "NONE"@),
            LevelState::Level1 => ("1"@, "VERY EASY"@),
            LevelState::Level2 => ("2"@, "EASY"@),
            LevelState::Level3 => ("3"@, "MEDIUM"@),
            LevelState::Level4 => ("4"@, "HARD"@),
            LevelState::Level5 => ("5"@, "IMPOSSIBLE"@),
            LevelState::Failed => ("FAILED"@, "FAILED"@),
        }
    }

    pub fn info(self) -> (r: (&'static str, &'static str))
        ensures
            r.0@ == self.spec_info().0,
            r.1@ == self.spec_info().1,
    {
        proof {
            reveal_strlit("NONE");
            reveal_strlit("1");
            reveal_strlit("VERY EASY");
            reveal_strlit("2");
            reveal_strlit("EASY");
            reveal_strlit("3");
            reveal_strlit("MEDIUM");
            reveal_strlit("4");
            reveal_strlit("HARD");
            reveal_strlit("5");
            reveal_strlit("IMPOSSIBLE");
            reveal_strlit("FAILED");
        }
        match self {
            LevelState::NoLevel => ("NONE", "NONE"),
            LevelState::Level1 => ("1", "VERY EASY"),
            LevelState::Level2 => ("2", "EASY"),
            LevelState::Level3 => ("3", "MEDIUM"),
            LevelState::Level4 => ("4", "HARD"),
            LevelState::Level5 => ("5", "IMPOSSIBLE"),
            LevelState::Failed => ("FAILED", "FAILED"),
        }
    }
}

pub fn in_main_menu_state(game_state: GameState) -> (r: bool)
    ensures
        r == (game_state == GameState::MainMenu),
{
    game_state == GameState::MainMenu
}

pub fn in_pause_menu_state(game_state: GameState) -> (r: bool)
    ensures
        r == (game_state == GameState::PauseMenu),
{
    game_state == GameState::PauseMenu
}

pub fn in_start_state(game_state: GameState) -> (r: bool)
    ensures
        r == (game_state == GameState::Start),
{
    game_state == GameState::Start
}

pub fn in_playing_state(game_state: GameState) -> (r: bool)
    ensures
        r == (game_state == GameState::Playing),
{
    game_state == GameState::Playing
}

pub fn in_won_state(game_state: GameState) -> (r: bool)
    ensures
        r == (game_state == GameState::Won),
{
    game_state == GameState::Won
}

} // verus!
