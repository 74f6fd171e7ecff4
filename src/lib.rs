//! Rules of a first-person shooting range: the menu and round state machine,
//! the level catalog, the level countdown and the target registry.
pub mod state;
pub mod timer;
pub mod levels;
pub mod session;
pub mod gun;
pub mod overlay;
