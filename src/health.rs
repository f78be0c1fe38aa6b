//! Hit points with a display timer for the health bar.

use vstd::prelude::*;

verus! {

/// How long the health bar stays visible after a hit, in milliseconds.
pub const BAR_VISIBLE_MS: u32 = 5000;

pub struct Health {
    pub health: u16,
    pub max_health: u16,
    /// Milliseconds for which the health bar is still shown.
    pub timer: u32,
}

impl Health {
    /// This health after a hit of `amount`: it stops at zero, and a real
    /// hit shows the bar again.
    pub open spec fn spec_damaged(self, amount: u16) -> Health {
        if amount > 0 {
            Health {
                health: if amount >= self.health {
                    0
                } else {
                    (self.health - amount) as u16
                },
                max_health: self.max_health,
                timer: BAR_VISIBLE_MS,
            }
        } else {
            self
        }
    }

    /// This health after `delta` milliseconds.
    pub open spec fn spec_updated(self, delta: u32) -> Health {
        Health {
            health: self.health,
            max_health: self.max_health,
            timer: if delta >= self.timer {
                0
            } else {
                (self.timer - delta) as u32
            },
        }
    }

    pub fn new(max_health: u16) -> (r: Self)
        ensures
            r == (Health { health: max_health, max_health, timer: 0 }),
    {
        Health { health: max_health, max_health, timer: 0 }
    }

    pub fn is_empty(&self) -> (r: bool)
        ensures
            r == (self.health == 0),
    {
        self.health == 0
    }

    pub fn damage(&mut self, amount: u16)
        ensures
            *final(self) == old(self).spec_damaged(amount),
    {
        if amount > 0 {
            self.timer = BAR_VISIBLE_MS;
            self.health = self.health.saturating_sub(amount);
        }
    }

    pub fn update(&mut self, delta: u32)
        ensures
            *final(self) == old(self).spec_updated(delta),
    {
        self.timer = self.timer.saturating_sub(delta);
    }
}

} // verus!
