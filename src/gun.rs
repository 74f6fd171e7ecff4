//! The trigger: when a held or pressed mouse button fires a shot.
use vstd::prelude::*;
use crate::timer::Countdown;

verus! {

/// Nanoseconds between two shots while the trigger is held.
pub const BULLET_DELAY: u64 = 100000000;

/// The trigger state of the gun.
#[derive(Debug, Clone, Copy, PartialEq, Eq, Structural)]
pub struct GunController {
    pub shooting: bool,
    /// The time since the last shot; a gun without it never fires.
    pub bullet_delay: Option<Countdown>,
    /// Set by a press, cleared by the shot it fires.
    pub just_pressed: bool,
    pub is_rotated: bool,
}

impl GunController {
    pub open spec fn spec_fires(self, pressed: bool, released: bool) -> bool {
        let shooting = if pressed {
            true
        } else if released {
            false
        } else {
            self.shooting
        };
        let just_pressed = pressed || self.just_pressed;
        match self.bullet_delay {
            Some(d) => shooting && (just_pressed || d.spec_finished()),
            None => false,
        }
    }

    /// The trigger after one frame's button edges; a shot restarts the delay.
    pub open spec fn spec_trigger(self, pressed: bool, released: bool) -> GunController {
        let shooting = if pressed {
            true
        } else if released {
            false
        } else {
            self.shooting
        };
        let just_pressed = pressed || self.just_pressed;
        if self.spec_fires(pressed, released) {
            GunController {
                shooting,
                just_pressed: false,
                bullet_delay: Some(
                    Countdown { duration: self.bullet_delay.unwrap().duration, elapsed: 0 },
                ),
                ..self
            }
        } else {
            GunController { shooting, just_pressed, ..self }
        }
    }

    /// An idle gun without a bullet delay.
    pub fn default() -> (r: GunController)
        ensures
            r == (GunController {
                shooting: false,
                bullet_delay: None,
                just_pressed: false,
                is_rotated: false,
            }),
    {
        GunController { shooting: false, bullet_delay: None, just_pressed: false, is_rotated: false }
    }

    /// An idle gun ready to fire, with the standard delay between shots.
    pub fn armed() -> (r: GunController)
        ensures
            r == (GunController {
                shooting: false,
                bullet_delay: Some(Countdown { duration: BULLET_DELAY, elapsed: 0 }),
                just_pressed: false,
                is_rotated: false,
            }),
    {
        GunController {
            shooting: false,
            bullet_delay: Some(Countdown::new(BULLET_DELAY)),
            just_pressed: false,
            is_rotated: false,
        }
    }

    /// Lets `delta_time` nanoseconds pass on the bullet delay.
    pub fn tick(&mut self, delta_time: u64)
        ensures
            *final(self) == (match old(self).bullet_delay {
                Some(d) => GunController { bullet_delay: Some(d.spec_tick(delta_time)), ..*old(self) },
                None => *old(self),
            }),
    {
        if let Some(d) = &mut self.bullet_delay {
            d.tick(delta_time);
        }
    }

    /// Takes this frame's press and release of the button and says whether
    /// a shot is fired: on a press, or while held once the delay has passed.
    pub fn trigger(&mut self, pressed: bool, released: bool) -> (fire: bool)
        ensures
            fire == old(self).spec_fires(pressed, released),
            *final(self) == old(self).spec_trigger(pressed, released),
    {
        if pressed {
            self.shooting = true;
            self.just_pressed = true;
        } else if released {
            self.shooting = false;
        }
        let shooting = self.shooting;
        let just_pressed = self.just_pressed;
        match &mut self.bullet_delay {
            Some(d) => {
                if shooting && (just_pressed || d.finished()) {
                    d.reset();
                    self.just_pressed = false;
                    true
                } else {
                    false
                }
            },
            None => false,
        }
    }
}

} // verus!
