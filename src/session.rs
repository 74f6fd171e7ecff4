//! One play session: the round state machine, the target registry and the
//! level countdown, advanced one frame at a time.
use vstd::prelude::*;
use crate::levels::{LevelController, Position};
use crate::state::{pausable, GameState, LevelState, MenuButtonAction};
use crate::timer::{run_ticks, lemma_ticks_without_countdown, Countdown, TimeController};

verus! {

/// The health of a target.
#[derive(Debug, Clone, Copy, PartialEq, Eq, Structural)]
pub struct TargetController {
    pub health: i32,
}

impl TargetController {
    /// A fresh target takes one hit.
    pub fn default() -> (r: TargetController)
        ensures
            r.health == 1,
    {
        TargetController { health: 1 }
    }
}

/// A live target of the current level.
#[derive(Debug, Clone, Copy, PartialEq, Eq, Structural)]
pub struct Target {
    pub position: Position,
    pub controller: TargetController,
}

/// The state to go back to when the pause menu is left.
#[derive(Debug, Clone, Copy, PartialEq, Eq, Structural)]
pub struct LastState {
    pub state: Option<GameState>,
}

impl LastState {
    pub fn default() -> (r: LastState)
        ensures
            r.state.is_none(),
    {
        LastState { state: None }
    }
}

/// What a shot struck.
#[derive(Debug, Clone, Copy, PartialEq, Eq, Structural)]
pub enum Hit {
    Nothing,
    /// The live target at this index of the registry.
    Target(usize),
    StartButton,
}

/// Everything the rules of a session read and change.
pub struct GameSession {
    pub game_state: GameState,
    pub level_state: LevelState,
    pub last_state: LastState,
    pub time_controller: TimeController,
    pub levels: LevelController,
    /// The live targets of the current level.
    pub targets: Vec<Target>,
    /// Whether the start button of the current level still stands.
    pub start_button: bool,
}

/// The session as the contracts see it: the registry and the catalog as
/// sequences.
pub ghost struct SessionView {
    pub game_state: GameState,
    pub level_state: LevelState,
    pub last_state: Option<GameState>,
    pub time: TimeController,
    pub catalog: Seq<Seq<Position>>,
    pub targets: Seq<Target>,
    pub start_button: bool,
}

impl View for GameSession {
    type V = SessionView;

    open spec fn view(&self) -> SessionView {
        SessionView {
            game_state: self.game_state,
            level_state: self.level_state,
            last_state: self.last_state.state,
            time: self.time_controller,
            catalog: self.levels@,
            targets: self.targets@,
            start_button: self.start_button,
        }
    }
}

/// A fresh target at `p`.
pub open spec fn new_target(p: Position) -> Target {
    Target { position: p, controller: TargetController { health: 1 } }
}

/// The targets spawned at the given positions, in order.
pub open spec fn spawn(positions: Seq<Position>) -> Seq<Target> {
    positions.map_values(|p: Position| new_target(p))
}

/// A state in which the level countdown is kept.
pub open spec fn keeps_timer(state: GameState, last: Option<GameState>) -> bool {
    state == GameState::Start || state == GameState::Playing || (state == GameState::PauseMenu
        && (last == Some(GameState::Start) || last == Some(GameState::Playing)))
}

impl SessionView {
    pub open spec fn wf(self) -> bool {
        &&& self.time.wf()
        &&& self.catalog.len() == 5
        &&& forall|i: int| 0 <= i < self.targets.len() ==> self.targets[i].controller.health >= 1
        &&& (self.game_state == GameState::PauseMenu <==> self.last_state.is_some())
        &&& (self.last_state matches Some(s) ==> pausable(s))
        &&& (self.time.time_left.is_some() <==> (self.level_state.spec_is_playable()
            && keeps_timer(self.game_state, self.last_state)))
    }

    /// What entering the current level does: a playable level gets its
    /// countdown, its targets and its start button; any other state has none.
    pub open spec fn spec_initiate_level(self) -> SessionView {
        if self.level_state.spec_is_playable() {
            SessionView {
                time: self.time.spec_set_timer(self.time.spec_level_time(self.level_state)),
                targets: spawn(self.catalog[self.level_state.index()]),
                start_button: true,
                ..self
            }
        } else {
            SessionView { time: self.time.spec_clear(), targets: Seq::empty(), start_button: false, ..self }
        }
    }

    /// Enters `level` in game state `state`.
    pub open spec fn spec_enter(self, level: LevelState, state: GameState) -> SessionView {
        SessionView { level_state: level, game_state: state, ..self }.spec_initiate_level()
    }

    /// Escape opens the pause menu from a state that allows it and is
    /// ignored elsewhere.
    pub open spec fn spec_escape(self) -> SessionView {
        if pausable(self.game_state) {
            SessionView { game_state: GameState::PauseMenu, last_state: Some(self.game_state), ..self }
        } else {
            self
        }
    }

    /// The countdown ran out: the level fails, its countdown is dropped and
    /// its targets are removed.
    pub open spec fn spec_fail(self) -> SessionView {
        SessionView {
            level_state: LevelState::Failed,
            time: self.time.spec_clear(),
            targets: Seq::empty(),
            ..self
        }
    }

    /// The per-frame check of the start, playing and won states: escape,
    /// then a finished countdown.
    pub open spec fn spec_update(self, escape_pressed: bool) -> SessionView {
        if pausable(self.game_state) {
            let a = if escape_pressed {
                self.spec_escape()
            } else {
                self
            };
            if a.time.spec_is_finished() {
                a.spec_fail()
            } else {
                a
            }
        } else {
            self
        }
    }

    /// The countdown runs only while playing.
    pub open spec fn spec_update_level_timer(self, delta: u64) -> SessionView {
        if self.game_state == GameState::Playing {
            SessionView { time: self.time.spec_run_timer(delta), ..self }
        } else {
            self
        }
    }

    /// A shot, on the start screen or while playing: a target loses one
    /// health and goes once it has none; the start button goes and play
    /// begins.
    pub open spec fn spec_resolve_hit(self, hit: Hit) -> SessionView {
        if self.game_state == GameState::Start || self.game_state == GameState::Playing {
            match hit {
                Hit::Target(i) => if i < self.targets.len() {
                    let t = self.targets[i as int];
                    if t.controller.health - 1 <= 0 {
                        SessionView { targets: self.targets.remove(i as int), ..self }
                    } else {
                        SessionView {
                            targets: self.targets.update(
                                i as int,
                                Target {
                                    controller: TargetController {
                                        health: (t.controller.health - 1) as i32,
                                    },
                                    ..t
                                },
                            ),
                            ..self
                        }
                    }
                } else {
                    self
                },
                Hit::StartButton => if self.start_button {
                    SessionView { start_button: false, game_state: GameState::Playing, ..self }
                } else {
                    self
                },
                Hit::Nothing => self,
            }
        } else {
            self
        }
    }

    /// While playing, a level without targets gives way to what follows it.
    pub open spec fn spec_change_level_state(self) -> SessionView {
        if self.game_state == GameState::Playing && self.targets.len() == 0 {
            match self.level_state.spec_after_clear() {
                Some((level, state)) => self.spec_enter(level, state),
                None => self,
            }
        } else {
            self
        }
    }

    /// A menu button, acted on only in the menu that shows it.
    pub open spec fn spec_menu_interactions(self, action: MenuButtonAction) -> SessionView {
        if self.game_state == GameState::MainMenu && action == MenuButtonAction::Play {
            self.spec_enter(LevelState::Level1, GameState::Start)
        } else if self.game_state == GameState::PauseMenu && action == MenuButtonAction::Resume {
            SessionView {
                game_state: match self.last_state {
                    Some(s) => s,
                    None => GameState::Playing,
                },
                last_state: None,
                ..self
            }
        } else if self.game_state == GameState::PauseMenu && action
            == MenuButtonAction::GoToMainMenu {
            SessionView { last_state: None, ..self }.spec_enter(
                LevelState::NoLevel,
                GameState::MainMenu,
            )
        } else {
            self
        }
    }

    /// One frame: the countdown runs, escape and the countdown are checked,
    /// the shot is resolved, and a cleared level gives way.
    pub open spec fn spec_frame(self, escape_pressed: bool, delta: u64, hit: Hit) -> SessionView {
        self.spec_update_level_timer(delta).spec_update(escape_pressed).spec_resolve_hit(
            hit,
        ).spec_change_level_state()
    }
}

impl GameSession {
    /// A session at the main menu, with no level, no countdown and no target.
    pub fn new() -> (r: GameSession)
        ensures
            r@.wf(),
            r.game_state == GameState::MainMenu,
            r.level_state == LevelState::NoLevel,
            r.last_state.state.is_none(),
            r.time_controller == TimeController::spec_default(),
            r.levels@ == crate::levels::default_catalog(),
            r.targets@.len() == 0,
            !r.start_button,
    {
        GameSession {
            game_state: GameState::MainMenu,
            level_state: LevelState::NoLevel,
            last_state: LastState::default(),
            time_controller: TimeController::default(),
            levels: LevelController::default(),
            targets: Vec::new(),
            start_button: false,
        }
    }

    /// Sets up the current level: its countdown, targets and start button
    /// for a playable level, none of them otherwise.
    pub fn initiate_level(&mut self)
        requires
            old(self)@.catalog.len() == 5,
        ensures
            final(self)@ == old(self)@.spec_initiate_level(),
    {
        if self.level_state.is_playable() {
            let duration = self.time_controller.level_time(self.level_state);
            self.time_controller.set_timer(duration);
            let positions = self.levels.positions(self.level_state);
            let mut targets: Vec<Target> = Vec::new();
            let mut i: usize = 0;
            while i < positions.len()
                invariant
                    i <= positions@.len(),
                    targets@ == spawn(positions@.take(i as int)),
                decreases positions@.len() - i,
            {
                targets.push(Target { position: positions[i], controller: TargetController::default() });
                proof {
                    assert(positions@.take(i + 1) =~= positions@.take(i as int).push(positions@[i as int]));
                    assert(spawn(positions@.take(i + 1)) =~= spawn(positions@.take(i as int)).push(
                        new_target(positions@[i as int]),
                    ));
                }
                i = i + 1;
            }
            assert(positions@.take(positions@.len() as int) =~= positions@);
            self.targets = targets;
            self.start_button = true;
        } else {
            self.time_controller.clear_timer();
            self.targets = Vec::new();
            self.start_button = false;
        }
    }

    fn enter_level(&mut self, level: LevelState, state: GameState)
        requires
            old(self)@.catalog.len() == 5,
        ensures
            final(self)@ == old(self)@.spec_enter(level, state),
    {
        self.level_state = level;
        self.game_state = state;
        self.initiate_level();
    }

    /// The number of live targets of the current level.
    pub fn target_count(&self) -> (r: usize)
        ensures
            r == self.targets@.len(),
    {
        self.targets.len()
    }

    /// Removes every target of the current level.
    pub fn despawn_targets(&mut self)
        requires
            old(self)@.wf(),
        ensures
            final(self)@ == (SessionView { targets: Seq::empty(), ..old(self)@ }),
            final(self)@.wf(),
    {
        self.targets = Vec::new();
    }

    /// Escape and the countdown, checked each frame on the start screen,
    /// while playing and after victory.
    pub fn update(&mut self, escape_pressed: bool)
        requires
            old(self)@.wf(),
        ensures
            final(self)@ == old(self)@.spec_update(escape_pressed),
            final(self)@.wf(),
    {
        let state = self.game_state;
        if state == GameState::Playing || state == GameState::Start || state == GameState::Won {
            if escape_pressed {
                self.last_state = LastState { state: Some(state) };
                self.game_state = GameState::PauseMenu;
            }
            if self.time_controller.is_finished() {
                self.level_state = LevelState::Failed;
                self.time_controller.clear_timer();
                self.targets = Vec::new();
            }
        }
    }

    /// Runs the countdown by `delta_time` nanoseconds while playing.
    pub fn update_level_timer(&mut self, delta_time: u64)
        requires
            old(self)@.wf(),
        ensures
            final(self)@ == old(self)@.spec_update_level_timer(delta_time),
            final(self)@.wf(),
    {
        if self.game_state == GameState::Playing {
            self.time_controller.run_timer(delta_time);
        }
    }

    /// Applies what a shot struck, on the start screen or while playing.
    pub fn resolve_hit(&mut self, hit: Hit)
        requires
            old(self)@.wf(),
        ensures
            final(self)@ == old(self)@.spec_resolve_hit(hit),
            final(self)@.wf(),
    {
        if self.game_state == GameState::Start || self.game_state == GameState::Playing {
            match hit {
                Hit::Target(i) => {
                    if i < self.targets.len() {
                        let t = self.targets[i];
                        if t.controller.health - 1 <= 0 {
                            self.targets.remove(i);
                        } else {
                            self.targets.set(
                                i,
                                Target {
                                    position: t.position,
                                    controller: TargetController { health: t.controller.health - 1 },
                                },
                            );
                        }
                    }
                },
                Hit::StartButton => {
                    if self.start_button {
                        self.start_button = false;
                        self.game_state = GameState::Playing;
                    }
                },
                Hit::Nothing => {},
            }
        }
    }

    /// While playing, moves on once the level has no target left.
    pub fn change_level_state(&mut self)
        requires
            old(self)@.wf(),
        ensures
            final(self)@ == old(self)@.spec_change_level_state(),
            final(self)@.wf(),
    {
        if self.game_state == GameState::Playing && self.targets.len() == 0 {
            match self.level_state.after_clear() {
                Some((level, state)) => self.enter_level(level, state),
                None => {},
            }
        }
    }

    /// Acts on a pressed menu button; returns whether the player asked to quit.
    pub fn menu_interactions(&mut self, action: MenuButtonAction) -> (quit: bool)
        requires
            old(self)@.wf(),
        ensures
            final(self)@ == old(self)@.spec_menu_interactions(action),
            final(self)@.wf(),
            quit == (old(self).game_state == GameState::MainMenu && action == MenuButtonAction::Quit),
    {
        let state = self.game_state;
        if state == GameState::MainMenu {
            match action {
                MenuButtonAction::Play => {
                    self.enter_level(LevelState::Level1, GameState::Start);
                    false
                },
                MenuButtonAction::Quit => true,
                _ => false,
            }
        } else if state == GameState::PauseMenu {
            match action {
                MenuButtonAction::Resume => {
                    self.game_state = match self.last_state.state {
                        Some(s) => s,
                        None => GameState::Playing,
                    };
                    self.last_state = LastState { state: None };
                },
                MenuButtonAction::GoToMainMenu => {
                    self.last_state = LastState { state: None };
                    self.enter_level(LevelState::NoLevel, GameState::MainMenu);
                },
                _ => {},
            }
            false
        } else {
            false
        }
    }

    /// One frame, in this order: the countdown runs, escape and the
    /// countdown are checked, the shot is resolved, and a cleared level
    /// gives way to the next.
    pub fn frame(&mut self, escape_pressed: bool, delta_time: u64, hit: Hit)
        requires
            old(self)@.wf(),
        ensures
            final(self)@ == old(self)@.spec_frame(escape_pressed, delta_time, hit),
            final(self)@.wf(),
    {
        self.update_level_timer(delta_time);
        self.update(escape_pressed);
        self.resolve_hit(hit);
        self.change_level_state();
    }
}

/// Once the countdown is seen finished it is dropped and the level fails,
/// so the failure fires once: no later tick finishes it again.
pub proof fn lemma_failure_fires_once(v: SessionView, escape_pressed: bool, deltas: Seq<u64>)
    requires
        v.wf(),
        pausable(v.game_state),
        v.time.spec_is_finished(),
    ensures
        v.spec_update(escape_pressed).level_state == LevelState::Failed,
        v.spec_update(escape_pressed).time.time_left.is_none(),
        v.spec_update(escape_pressed).targets.len() == 0,
        !run_ticks(v.spec_update(escape_pressed).time, deltas).spec_is_finished(),
{
    lemma_ticks_without_countdown(v.spec_update(escape_pressed).time, deltas);
}

/// Clearing a level before the last one while playing enters the next
/// level's start screen with exactly the catalog's targets for it, in
/// catalog order, and a fresh countdown of its time budget.
pub proof fn lemma_level_clear_spawns_catalog(v: SessionView)
    requires
        v.wf(),
        v.game_state == GameState::Playing,
        v.targets.len() == 0,
        v.level_state.spec_is_playable(),
        v.level_state != LevelState::Level5,
    ensures
        ({
            let w = v.spec_change_level_state();
            &&& v.level_state.spec_after_clear() == Some((w.level_state, GameState::Start))
            &&& w.level_state.spec_is_playable()
            &&& w.level_state.index() == v.level_state.index() + 1
            &&& w.game_state == GameState::Start
            &&& w.targets == spawn(v.catalog[w.level_state.index()])
            &&& w.targets.len() == v.catalog[w.level_state.index()].len()
            &&& w.time.time_left == Some(
                Countdown { duration: v.time.spec_level_time(w.level_state), elapsed: 0 },
            )
            &&& w.wf()
        }),
{
}

/// From the main menu, play, pause and resume lead back to the first
/// level's start screen, as it was before the pause. A level without any
/// time budget fails at once and is left out.
pub proof fn lemma_pause_round_trip(v: SessionView)
    requires
        v.wf(),
        v.game_state == GameState::MainMenu,
        v.time.level_1_time > 0,
    ensures
        ({
            let started = v.spec_menu_interactions(MenuButtonAction::Play);
            let paused = started.spec_update(true);
            let resumed = paused.spec_menu_interactions(MenuButtonAction::Resume);
            &&& started.game_state == GameState::Start
            &&& started.level_state == LevelState::Level1
            &&& paused.game_state == GameState::PauseMenu
            &&& resumed.game_state == GameState::Start
            &&& resumed.level_state == LevelState::Level1
            &&& resumed == started
        }),
{
}

/// Pausing and resuming returns to exactly the state that was paused, as
/// long as the countdown had not run out.
pub proof fn lemma_pause_resume(v: SessionView)
    requires
        v.wf(),
        pausable(v.game_state),
        !v.time.spec_is_finished(),
    ensures
        v.spec_update(true).game_state == GameState::PauseMenu,
        v.spec_update(true).spec_menu_interactions(MenuButtonAction::Resume) == v,
{
}

/// Escape is ignored in the pause menu: a frame there changes nothing.
pub proof fn lemma_pause_menu_frame(v: SessionView, delta: u64, hit: Hit)
    requires
        v.wf(),
        v.game_state == GameState::PauseMenu,
    ensures
        v.spec_frame(true, delta, hit) == v,
{
}

} // verus!
