//! Level objectives: a progress counter tagged with what it counts.

use vstd::prelude::*;

verus! {

/// What an objective counts.
#[derive(Clone, Copy, Debug, PartialEq, Eq, Structural)]
pub enum Kind {
    NoGoal,
    SaveAnimals,
    DestroyBuildings,
    KillEnemies,
    KillBosses,
}

/// A progress counter towards a target.
pub struct Objective {
    kind: Kind,
    current: u8,
    target: u8,
}

impl Objective {
    pub closed spec fn spec_kind(&self) -> Kind {
        self.kind
    }

    pub closed spec fn spec_current(&self) -> u8 {
        self.current
    }

    pub closed spec fn spec_target(&self) -> u8 {
        self.target
    }

    /// This objective once the death ball has `count` followers.
    pub closed spec fn spec_counted(self, count: u8) -> Objective {
        if self.kind == Kind::SaveAnimals {
            Objective { current: count, ..self }
        } else {
            self
        }
    }

    /// This objective once an enemy has died.
    pub closed spec fn spec_killed(self) -> Objective {
        if (self.kind == Kind::KillEnemies || self.kind == Kind::KillBosses) && self.current < 255 {
            Objective { current: (self.current + 1) as u8, ..self }
        } else {
            self
        }
    }

    /// This objective once a building has been destroyed.
    pub closed spec fn spec_demolished(self) -> Objective {
        if self.kind == Kind::DestroyBuildings && self.current < 255 {
            Objective { current: (self.current + 1) as u8, ..self }
        } else {
            self
        }
    }

    pub open spec fn spec_is_complete(&self) -> bool {
        self.spec_current() >= self.spec_target()
    }

    pub fn new(kind: Kind, target: u8) -> (r: Self)
        ensures
            r.spec_kind() == kind,
            r.spec_current() == 0,
            r.spec_target() == target,
    {
        Objective { kind, current: 0, target }
    }

    /// A level without a goal: no event advances it.
    pub fn none() -> (r: Self)
        ensures
            r.spec_kind() == Kind::NoGoal,
            r.spec_current() == 0,
            r.spec_target() == 1,
    {
        Self::new(Kind::NoGoal, 1)
    }

    pub fn save_animals(target: u8) -> (r: Self)
        ensures
            r.spec_kind() == Kind::SaveAnimals,
            r.spec_current() == 0,
            r.spec_target() == target,
    {
        Self::new(Kind::SaveAnimals, target)
    }

    pub fn destroy_buildings(target: u8) -> (r: Self)
        ensures
            r.spec_kind() == Kind::DestroyBuildings,
            r.spec_current() == 0,
            r.spec_target() == target,
    {
        Self::new(Kind::DestroyBuildings, target)
    }

    pub fn kill_enemies(target: u8) -> (r: Self)
        ensures
            r.spec_kind() == Kind::KillEnemies,
            r.spec_current() == 0,
            r.spec_target() == target,
    {
        Self::new(Kind::KillEnemies, target)
    }

    pub fn kill_bosses(target: u8) -> (r: Self)
        ensures
            r.spec_kind() == Kind::KillBosses,
            r.spec_current() == 0,
            r.spec_target() == target,
    {
        Self::new(Kind::KillBosses, target)
    }

    pub fn is_complete(&self) -> (r: bool)
        ensures
            r == self.spec_is_complete(),
    {
        self.current >= self.target
    }

    /// The death ball now has `current` followers: a rescue objective takes
    /// that as its progress.
    pub fn on_update_death_ball_count(&mut self, current: u8)
        ensures
            *final(self) == old(self).spec_counted(current),
            final(self).spec_kind() == old(self).spec_kind(),
            final(self).spec_target() == old(self).spec_target(),
            final(self).spec_current() == if old(self).spec_kind() == Kind::SaveAnimals {
                current
            } else {
                old(self).spec_current()
            },
    {
        if let Kind::SaveAnimals = self.kind {
            self.current = current;
        }
    }

    /// An enemy died: kill objectives count it (saturating at 255).
    pub fn on_kill_enemy(&mut self)
        ensures
            *final(self) == old(self).spec_killed(),
            final(self).spec_kind() == old(self).spec_kind(),
            final(self).spec_target() == old(self).spec_target(),
            final(self).spec_current() == if old(self).spec_kind() == Kind::KillEnemies
                || old(self).spec_kind() == Kind::KillBosses {
                if old(self).spec_current() < 255 {
                    (old(self).spec_current() + 1) as u8
                } else {
                    255u8
                }
            } else {
                old(self).spec_current()
            },
    {
        match self.kind {
            Kind::KillEnemies | Kind::KillBosses => {
                self.current = self.current.saturating_add(1);
            },
            _ => {},
        }
    }

    /// A building was destroyed: a demolition objective counts it
    /// (saturating at 255).
    pub fn on_destroy_building(&mut self)
        ensures
            *final(self) == old(self).spec_demolished(),
            final(self).spec_kind() == old(self).spec_kind(),
            final(self).spec_target() == old(self).spec_target(),
            final(self).spec_current() == if old(self).spec_kind() == Kind::DestroyBuildings {
                if old(self).spec_current() < 255 {
                    (old(self).spec_current() + 1) as u8
                } else {
                    255u8
                }
            } else {
                old(self).spec_current()
            },
    {
        if let Kind::DestroyBuildings = self.kind {
            self.current = self.current.saturating_add(1);
        }
    }

    pub fn current(&self) -> (r: u8)
        ensures
            r == self.spec_current(),
    {
        self.current
    }

    pub fn target(&self) -> (r: u8)
        ensures
            r == self.spec_target(),
    {
        self.target
    }

    pub fn kind(&self) -> (r: Kind)
        ensures
            r == self.spec_kind(),
    {
        self.kind
    }
}

} // verus!
