//! A combat session: the entity collections of one level, the routing of
//! physics events to gameplay rules, and the win/lose state machine.

use vstd::prelude::*;

use crate::animals::{Animal, Variant as AnimalVariant};
use crate::buildings::{spec_spawn_plan, Building};
use crate::enemies::{Enemy, Variant as EnemyVariant};
use crate::entities::{live_values, slot_values, Entities, GenerationalIndex, Slot};
use crate::groups::{spec_death_ball, ANIMAL, BUILDING, ENEMY, ENEMY_ATTACK, HIT_EFFECT};
use crate::levels::Level;
use crate::objectives::Objective;
use crate::physics::{Handle, PhysicsEvent, PhysicsEventKind, StaticHandle};

verus! {

/// How long the death ball may stay empty before the level is lost, in
/// milliseconds.
pub const LOSE_MS: u32 = 5000;

/// The session's state.
#[derive(Clone, Copy, Debug, PartialEq, Eq, Structural)]
pub enum Status {
    Playing,
    /// The death ball has no followers; the level is lost in `timer`
    /// milliseconds unless it gets one back.
    Losing { timer: u32 },
    HasLost,
    HasWon,
}

/// What the player's confirmation leads to.
#[derive(Clone, Copy, Debug, PartialEq, Eq, Structural)]
pub enum Transition {
    Stay,
    /// Play the level again from the start.
    Retry,
    /// Mark the level beaten, award `points` and go to level selection.
    Advance { points: u32 },
}

/// How the caller completes a handled event.
#[derive(Clone, Copy, Debug, PartialEq, Eq, Structural)]
pub enum Outcome {
    Ignored,
    /// An animal joined the death ball.
    Followed,
    /// An animal rammed a building or enemy: play the "killed" cue when
    /// `destroyed`, the "hit" cue otherwise, and spawn a hit effect at the
    /// contact point.
    Hit { destroyed: bool },
    NearbyAdded,
    NearbyRemoved,
    /// Push `animal` away from the attack sensor `from` with the impulse of
    /// an enemy of `variant`.
    Knockback { animal: Handle, from: Handle, variant: EnemyVariant },
}

/// An event named an entity that is no longer in its collection.
#[derive(Clone, Copy, Debug, PartialEq, Eq, Structural)]
pub enum DispatchError {
    MissingEntity(GenerationalIndex),
}

/// The rule an event falls under, by the groups of its two entities.
#[derive(Clone, Copy, Debug, PartialEq, Eq, Structural)]
pub enum Route {
    DeathBallAnimal,
    AnimalBuilding,
    AnimalEnemy,
    AnimalAttack,
    Unrouted,
}

pub open spec fn spec_route(idx1: GenerationalIndex, idx2: GenerationalIndex) -> Route {
    if idx1 == spec_death_ball() && idx2.spec_group() == ANIMAL {
        Route::DeathBallAnimal
    } else if idx1.spec_group() == ANIMAL && idx2.spec_group() == BUILDING {
        Route::AnimalBuilding
    } else if idx1.spec_group() == ANIMAL && idx2.spec_group() == ENEMY {
        Route::AnimalEnemy
    } else if idx1.spec_group() == ANIMAL && idx2.spec_group() == ENEMY_ATTACK {
        Route::AnimalAttack
    } else {
        Route::Unrouted
    }
}

/// Routes an event by the groups of its entities; the canonical order of
/// events means each rule is looked for in one direction only.
pub fn route(idx1: GenerationalIndex, idx2: GenerationalIndex) -> (r: Route)
    ensures
        r == spec_route(idx1, idx2),
{
    let g1 = idx1.group();
    let g2 = idx2.group();
    if idx1 == crate::groups::death_ball() && g2 == ANIMAL {
        Route::DeathBallAnimal
    } else if g1 == ANIMAL && g2 == BUILDING {
        Route::AnimalBuilding
    } else if g1 == ANIMAL && g2 == ENEMY {
        Route::AnimalEnemy
    } else if g1 == ANIMAL && g2 == ENEMY_ATTACK {
        Route::AnimalAttack
    } else {
        Route::Unrouted
    }
}

/// How many of `s` follow the death ball.
pub open spec fn followers(s: Seq<Animal>) -> nat
    decreases s.len(),
{
    if s.len() == 0 {
        0
    } else {
        followers(s.drop_last()) + if s.last().is_affected_by_death_ball {
            1nat
        } else {
            0nat
        }
    }
}

/// A follower count as the session keeps it: at most 255.
pub open spec fn clamp_count(n: nat) -> u8 {
    if n > 255 {
        255
    } else {
        n as u8
    }
}

proof fn lemma_followers_append(a: Seq<Animal>, x: Slot<Animal>)
    ensures
        followers(a + slot_values(x)) == followers(a) + match x.value {
            Some(v) => if v.is_affected_by_death_ball {
                1nat
            } else {
                0nat
            },
            None => 0nat,
        },
{
    match x.value {
        Some(v) => {
            assert((a + slot_values(x)).drop_last() =~= a);
        },
        None => {
            assert(a + slot_values(x) =~= a);
        },
    }
}

/// Setting the follow flag of one animal that did not follow adds exactly
/// one follower; clearing it on one that did removes exactly one.
pub proof fn lemma_follow_count(s: Seq<Slot<Animal>>, i: int, a: Animal, g: u64)
    requires
        0 <= i < s.len(),
        s[i].value is Some,
    ensures
        ({
            let old_a = s[i].value->Some_0;
            let t = s.update(i, Slot { generation: g, value: Some(a) });
            followers(live_values(t)) + (if old_a.is_affected_by_death_ball {
                1nat
            } else {
                0nat
            }) == followers(live_values(s)) + (if a.is_affected_by_death_ball {
                1nat
            } else {
                0nat
            })
        }),
    decreases s.len(),
{
    let t = s.update(i, Slot { generation: g, value: Some(a) });
    lemma_followers_append(live_values(s.drop_last()), s.last());
    lemma_followers_append(live_values(t.drop_last()), t.last());
    if i == s.len() - 1 {
        assert(t.drop_last() =~= s.drop_last());
    } else {
        assert(t.drop_last() =~= s.drop_last().update(i, Slot { generation: g, value: Some(a) }));
        lemma_follow_count(s.drop_last(), i, a, g);
    }
}

/// The rest of the session is as it was: collections other than the ones a
/// rule touches, the level, the score and the status.
pub open spec fn same_elsewhere<D>(o: Combat<D>, n: Combat<D>) -> bool {
    &&& n.level == o.level
    &&& n.score == o.score
    &&& n.status == o.status
}

/// Animal `idx` now follows the death ball (`follow`) or no longer does,
/// and the follower count and objective are brought up to date.
pub open spec fn spec_refollowed<D>(
    o: Combat<D>,
    n: Combat<D>,
    idx: GenerationalIndex,
    follow: bool,
) -> bool {
    &&& n.animals.changed_only_at(&o.animals, idx)
    &&& n.animals.value_at(idx) == (Animal {
        is_affected_by_death_ball: follow,
        ..o.animals.value_at(idx)
    })
    &&& n.death_ball_size == clamp_count(followers(n.animals.spec_values()))
    &&& n.objective == o.objective.spec_counted(n.death_ball_size)
    &&& n.buildings == o.buildings
    &&& n.enemies == o.enemies
    &&& same_elsewhere(o, n)
}

/// The death ball's sensor met animal `idx`.
pub open spec fn spec_follow_post<D>(
    o: Combat<D>,
    n: Combat<D>,
    idx: GenerationalIndex,
    r: Result<Outcome, DispatchError>,
) -> bool {
    if !o.animals.is_live(idx) {
        r == Err::<Outcome, DispatchError>(DispatchError::MissingEntity(idx)) && n == o
    } else {
        r == Ok::<Outcome, DispatchError>(Outcome::Followed) && spec_refollowed(o, n, idx, true)
    }
}

/// Animal `ai` touched building `bi`: on first contact the building takes
/// the animal's damage.
pub open spec fn spec_ram_building_post<D>(
    o: Combat<D>,
    n: Combat<D>,
    kind: PhysicsEventKind,
    ai: GenerationalIndex,
    bi: GenerationalIndex,
    r: Result<Outcome, DispatchError>,
) -> bool {
    if !o.animals.is_live(ai) {
        r == Err::<Outcome, DispatchError>(DispatchError::MissingEntity(ai)) && n == o
    } else if !o.buildings.is_live(bi) {
        r == Err::<Outcome, DispatchError>(DispatchError::MissingEntity(bi)) && n == o
    } else if kind != PhysicsEventKind::ContactStart {
        r == Ok::<Outcome, DispatchError>(Outcome::Ignored) && n == o
    } else {
        let b = o.buildings.value_at(bi);
        let (status, destroyed) = b.status.spec_damaged(o.animals.value_at(ai).damage);
        &&& r == Ok::<Outcome, DispatchError>(Outcome::Hit { destroyed })
        &&& n.buildings.changed_only_at(&o.buildings, bi)
        &&& n.buildings.value_at(bi) == (Building { status, ..b })
        &&& n.objective == if destroyed {
            o.objective.spec_demolished()
        } else {
            o.objective
        }
        &&& n.animals == o.animals
        &&& n.enemies == o.enemies
        &&& n.death_ball_size == o.death_ball_size
        &&& same_elsewhere(o, n)
    }
}

/// Animal `ai` (collider `h`) met enemy `ei`: entering or leaving the
/// detection range updates the enemy's list of nearby animals, and first
/// contact with its body deals the animal's damage.
pub open spec fn spec_ram_enemy_post<D>(
    o: Combat<D>,
    n: Combat<D>,
    kind: PhysicsEventKind,
    h: Handle,
    ai: GenerationalIndex,
    ei: GenerationalIndex,
    r: Result<Outcome, DispatchError>,
) -> bool {
    if !o.animals.is_live(ai) {
        r == Err::<Outcome, DispatchError>(DispatchError::MissingEntity(ai)) && n == o
    } else if !o.enemies.is_live(ei) {
        r == Err::<Outcome, DispatchError>(DispatchError::MissingEntity(ei)) && n == o
    } else if kind == PhysicsEventKind::ContactEnd {
        r == Ok::<Outcome, DispatchError>(Outcome::Ignored) && n == o
    } else {
        let e = o.enemies.value_at(ei);
        let ne = n.enemies.value_at(ei);
        &&& n.enemies.changed_only_at(&o.enemies, ei)
        &&& n.animals == o.animals
        &&& n.buildings == o.buildings
        &&& n.death_ball_size == o.death_ball_size
        &&& same_elsewhere(o, n)
        &&& match kind {
            PhysicsEventKind::IntersectStart => {
                &&& r == Ok::<Outcome, DispatchError>(Outcome::NearbyAdded)
                &&& ne == (Enemy { nearby_animals: ne.nearby_animals, ..e })
                &&& ne.nearby_animals@ == e.nearby_animals@.push(h)
                &&& n.objective == o.objective
            },
            PhysicsEventKind::IntersectEnd => {
                &&& r == Ok::<Outcome, DispatchError>(Outcome::NearbyRemoved)
                &&& ne == (Enemy { nearby_animals: ne.nearby_animals, ..e })
                &&& ne.nearby_animals@ == crate::enemies::without(e.nearby_animals@, h)
                &&& n.objective == o.objective
            },
            _ => {
                let (status, killed) = e.status.spec_damaged(o.animals.value_at(ai).damage);
                &&& r == Ok::<Outcome, DispatchError>(Outcome::Hit { destroyed: killed })
                &&& ne == (Enemy { status, ..e })
                &&& n.objective == if killed {
                    o.objective.spec_killed()
                } else {
                    o.objective
                }
            },
        }
    }
}

/// Animal `ai` (collider `h1`) met the attack sensor `h2` of the enemy
/// whose attack index is `xi`: the animal stops following the death ball
/// and is to be knocked back.
pub open spec fn spec_knock_back_post<D>(
    o: Combat<D>,
    n: Combat<D>,
    h1: Handle,
    ai: GenerationalIndex,
    h2: Handle,
    xi: GenerationalIndex,
    r: Result<Outcome, DispatchError>,
) -> bool {
    let ei = GenerationalIndex::spec_new(ENEMY, xi.spec_generation(), xi.spec_index());
    if !o.animals.is_live(ai) {
        r == Err::<Outcome, DispatchError>(DispatchError::MissingEntity(ai)) && n == o
    } else if !o.enemies.is_live(ei) {
        r == Err::<Outcome, DispatchError>(DispatchError::MissingEntity(ei)) && n == o
    } else {
        &&& r == Ok::<Outcome, DispatchError>(
            Outcome::Knockback { animal: h1, from: h2, variant: o.enemies.value_at(ei).variant },
        )
        &&& spec_refollowed(o, n, ai, false)
    }
}

/// The session's state after a frame of `delta` milliseconds, given whether
/// the objective is complete and the follower count.
pub open spec fn spec_next_status(s: Status, complete: bool, size: u8, delta: u32) -> Status {
    match s {
        Status::Playing => if complete {
            Status::HasWon
        } else if size == 0 {
            Status::Losing { timer: LOSE_MS }
        } else {
            Status::Playing
        },
        Status::Losing { timer } => if complete {
            Status::HasWon
        } else if size > 0 {
            Status::Playing
        } else if delta > timer {
            Status::HasLost
        } else {
            Status::Losing { timer: (timer - delta) as u32 }
        },
        _ => s,
    }
}

/// The entries of `s` that belong to `group`, in order.
pub open spec fn of_group(s: Seq<GenerationalIndex>, group: u8) -> Seq<GenerationalIndex>
    decreases s.len(),
{
    if s.len() == 0 {
        s
    } else if s.last().spec_group() == group {
        of_group(s.drop_last(), group).push(s.last())
    } else {
        of_group(s.drop_last(), group)
    }
}

/// A building whose fade ended this frame: its collider, to remove, and
/// the animals it releases (`None` for one of a random variant).
pub struct Expiry {
    pub handle: StaticHandle,
    pub spawns: Vec<Option<AnimalVariant>>,
}

/// A slot of the building store after a frame of `delta` milliseconds.
pub open spec fn building_step(s: Slot<Building>, delta: u32) -> Slot<Building> {
    match s.value {
        Some(b) => Slot {
            generation: s.generation,
            value: Some(Building { status: b.status.spec_updated(delta).0, ..b }),
        },
        None => s,
    }
}

/// The buildings among `s` whose fade ends in a frame of `delta`
/// milliseconds, in slot order.
pub open spec fn expiring(s: Seq<Slot<Building>>, delta: u32) -> Seq<Building>
    decreases s.len(),
{
    if s.len() == 0 {
        Seq::empty()
    } else {
        let rest = expiring(s.drop_last(), delta);
        match s.last().value {
            Some(b) => if b.status.spec_updated(delta).1 {
                rest.push(b)
            } else {
                rest
            },
            None => rest,
        }
    }
}

/// The state of one combat session.
pub struct Combat<D> {
    pub level: Level,
    pub objective: Objective,
    pub animals: Entities<Animal, ANIMAL>,
    pub buildings: Entities<Building, BUILDING>,
    pub enemies: Entities<Enemy<D>, ENEMY>,
    /// How many animals follow the death ball (at most 255).
    pub death_ball_size: u8,
    /// The score left to win, in tenths of a point; it drains by one tenth
    /// per millisecond of play.
    pub score: u64,
    pub status: Status,
}

impl<D: Copy> Combat<D> {
    pub open spec fn wf(&self) -> bool {
        &&& self.animals.wf()
        &&& self.buildings.wf()
        &&& self.enemies.wf()
        &&& self.score <= 10 * (u32::MAX as int)
    }

    /// A session of `level` that starts with `max_score` points to win.
    pub fn new(
        level: Level,
        objective: Objective,
        animals: Entities<Animal, ANIMAL>,
        buildings: Entities<Building, BUILDING>,
        enemies: Entities<Enemy<D>, ENEMY>,
        max_score: u32,
    ) -> (r: Self)
        requires
            animals.wf(),
            buildings.wf(),
            enemies.wf(),
        ensures
            r.wf(),
            r.level == level,
            r.objective == objective,
            r.animals == animals,
            r.buildings == buildings,
            r.enemies == enemies,
            r.death_ball_size == 0,
            r.score == max_score as u64 * 10,
            r.status == Status::Playing,
    {
        Combat {
            level,
            objective,
            animals,
            buildings,
            enemies,
            death_ball_size: 0,
            score: max_score as u64 * 10,
            status: Status::Playing,
        }
    }

    /// Counts the animals that follow the death ball again.
    pub fn update_death_ball_size(&mut self)
        ensures
            final(self).death_ball_size == clamp_count(followers(old(self).animals.spec_values())),
            final(self).level == old(self).level,
            final(self).objective == old(self).objective,
            final(self).animals == old(self).animals,
            final(self).buildings == old(self).buildings,
            final(self).enemies == old(self).enemies,
            final(self).score == old(self).score,
            final(self).status == old(self).status,
    {
        let all = self.animals.values();
        let ghost s = self.animals.spec_values();
        let mut count: u8 = 0;
        let mut i: usize = 0;
        while i < all.len()
            invariant
                all@.len() == s.len(),
                forall|j: int| 0 <= j < all@.len() ==> *all@[j] == s[j],
                i <= all@.len(),
                count == clamp_count(followers(s.take(i as int))),
            decreases all@.len() - i,
        {
            assert(s.take(i + 1).drop_last() =~= s.take(i as int));
            if all[i].is_affected_by_death_ball {
                count = count.saturating_add(1);
            }
            i = i + 1;
        }
        assert(s.take(i as int) =~= s);
        self.death_ball_size = count;
    }
    fn set_following(&mut self, idx: GenerationalIndex, follow: bool)
        requires
            old(self).wf(),
            old(self).animals.is_live(idx),
        ensures
            final(self).wf(),
            spec_refollowed(*old(self), *final(self), idx, follow),
    {
        let a = self.animals.get_mut(idx);
        a.is_affected_by_death_ball = follow;
        self.update_death_ball_size();
        self.objective.on_update_death_ball_count(self.death_ball_size);
    }

    /// The death ball's sensor met animal `idx`: it becomes a follower.
    pub fn follow(&mut self, idx: GenerationalIndex) -> (r: Result<Outcome, DispatchError>)
        requires
            old(self).wf(),
        ensures
            final(self).wf(),
            spec_follow_post(*old(self), *final(self), idx, r),
    {
        if !self.animals.contains(idx) {
            return Err(DispatchError::MissingEntity(idx));
        }
        self.set_following(idx, true);
        Ok(Outcome::Followed)
    }

    /// Animal `ai` touched building `bi`.
    pub fn ram_building(
        &mut self,
        kind: PhysicsEventKind,
        ai: GenerationalIndex,
        bi: GenerationalIndex,
    ) -> (r: Result<Outcome, DispatchError>)
        requires
            old(self).wf(),
        ensures
            final(self).wf(),
            spec_ram_building_post(*old(self), *final(self), kind, ai, bi, r),
    {
        if !self.animals.contains(ai) {
            return Err(DispatchError::MissingEntity(ai));
        }
        if !self.buildings.contains(bi) {
            return Err(DispatchError::MissingEntity(bi));
        }
        match kind {
            PhysicsEventKind::ContactStart => {},
            _ => {
                return Ok(Outcome::Ignored);
            },
        }
        let damage = self.animals.get(ai).damage;
        let destroyed = self.buildings.get_mut(bi).damage(damage);
        if destroyed {
            self.objective.on_destroy_building();
        }
        Ok(Outcome::Hit { destroyed })
    }

    /// Animal `ai`, whose collider is `h`, met enemy `ei`.
    pub fn ram_enemy(
        &mut self,
        kind: PhysicsEventKind,
        h: Handle,
        ai: GenerationalIndex,
        ei: GenerationalIndex,
    ) -> (r: Result<Outcome, DispatchError>)
        requires
            old(self).wf(),
        ensures
            final(self).wf(),
            spec_ram_enemy_post(*old(self), *final(self), kind, h, ai, ei, r),
    {
        if !self.animals.contains(ai) {
            return Err(DispatchError::MissingEntity(ai));
        }
        if !self.enemies.contains(ei) {
            return Err(DispatchError::MissingEntity(ei));
        }
        match kind {
            PhysicsEventKind::IntersectStart => {
                self.enemies.get_mut(ei).add_nearby(h);
                Ok(Outcome::NearbyAdded)
            },
            PhysicsEventKind::IntersectEnd => {
                self.enemies.get_mut(ei).remove_nearby(h);
                Ok(Outcome::NearbyRemoved)
            },
            PhysicsEventKind::ContactStart => {
                let damage = self.animals.get(ai).damage;
                let killed = self.enemies.get_mut(ei).damage(damage);
                if killed {
                    self.objective.on_kill_enemy();
                }
                Ok(Outcome::Hit { destroyed: killed })
            },
            PhysicsEventKind::ContactEnd => Ok(Outcome::Ignored),
        }
    }

    /// Animal `ai` (collider `h1`) met attack sensor `h2`, whose entity
    /// index is `xi`.
    pub fn knock_back(
        &mut self,
        h1: Handle,
        ai: GenerationalIndex,
        h2: Handle,
        xi: GenerationalIndex,
    ) -> (r: Result<Outcome, DispatchError>)
        requires
            old(self).wf(),
        ensures
            final(self).wf(),
            spec_knock_back_post(*old(self), *final(self), h1, ai, h2, xi, r),
    {
        let ei = xi.with_group(ENEMY);
        if !self.animals.contains(ai) {
            return Err(DispatchError::MissingEntity(ai));
        }
        if !self.enemies.contains(ei) {
            return Err(DispatchError::MissingEntity(ei));
        }
        let variant = self.enemies.get(ei).variant;
        self.set_following(ai, false);
        Ok(Outcome::Knockback { animal: h1, from: h2, variant })
    }

    /// Applies the gameplay rule that an event's pair of groups calls for.
    pub fn handle_physics_event(&mut self, event: &PhysicsEvent) -> (r: Result<
        Outcome,
        DispatchError,
    >)
        requires
            old(self).wf(),
        ensures
            final(self).wf(),
            match spec_route(event.idx1, event.idx2) {
                Route::DeathBallAnimal => if event.kind == PhysicsEventKind::IntersectStart {
                    spec_follow_post(*old(self), *final(self), event.idx2, r)
                } else {
                    r == Ok::<Outcome, DispatchError>(Outcome::Ignored)
                        && *final(self) == *old(self)
                },
                Route::AnimalBuilding => spec_ram_building_post(
                    *old(self),
                    *final(self),
                    event.kind,
                    event.idx1,
                    event.idx2,
                    r,
                ),
                Route::AnimalEnemy => spec_ram_enemy_post(
                    *old(self),
                    *final(self),
                    event.kind,
                    event.collider1,
                    event.idx1,
                    event.idx2,
                    r,
                ),
                Route::AnimalAttack => spec_knock_back_post(
                    *old(self),
                    *final(self),
                    event.collider1,
                    event.idx1,
                    event.collider2,
                    event.idx2,
                    r,
                ),
                Route::Unrouted => r == Ok::<Outcome, DispatchError>(Outcome::Ignored)
                    && *final(self) == *old(self),
            },
    {
        match route(event.idx1, event.idx2) {
            Route::DeathBallAnimal => {
                match event.kind {
                    PhysicsEventKind::IntersectStart => self.follow(event.idx2),
                    _ => Ok(Outcome::Ignored),
                }
            },
            Route::AnimalBuilding => self.ram_building(event.kind, event.idx1, event.idx2),
            Route::AnimalEnemy => self.ram_enemy(
                event.kind,
                event.collider1,
                event.idx1,
                event.idx2,
            ),
            Route::AnimalAttack => self.knock_back(
                event.collider1,
                event.idx1,
                event.collider2,
                event.idx2,
            ),
            Route::Unrouted => Ok(Outcome::Ignored),
        }
    }
    /// Lets `delta` milliseconds pass for every building, in slot order.
    /// Each building whose fade ends queues its index on `deleted` and is
    /// reported with the animals it releases.
    pub fn update_buildings(&mut self, delta: u32, deleted: &mut Vec<GenerationalIndex>) -> (r: Vec<
        Expiry,
    >)
        requires
            old(self).wf(),
        ensures
            final(self).wf(),
            final(self).buildings.slots() == old(self).buildings.slots().map_values(
                |s: Slot<Building>| building_step(s, delta),
            ),
            final(self).buildings.free() == old(self).buildings.free(),
            final(deleted)@ == old(deleted)@ + expiring(old(self).buildings.slots(), delta).map_values(
                |b: Building| b.idx,
            ),
            r@.len() == expiring(old(self).buildings.slots(), delta).len(),
            forall|k: int|
                0 <= k < r@.len() ==> {
                    let b = #[trigger] expiring(old(self).buildings.slots(), delta)[k];
                    &&& r@[k].handle == b.handle
                    &&& r@[k].spawns@ == spec_spawn_plan(b.guaranteed_spawns@, b.spawn_count)
                },
            final(self).level == old(self).level,
            final(self).objective == old(self).objective,
            final(self).animals == old(self).animals,
            final(self).enemies == old(self).enemies,
            final(self).death_ball_size == old(self).death_ball_size,
            final(self).score == old(self).score,
            final(self).status == old(self).status,
    {
        let ghost s0 = self.buildings.slots();
        let ghost d0 = deleted@;
        let mut out: Vec<Expiry> = Vec::new();
        let n = self.buildings.slot_count();
        let mut i: usize = 0;
        while i < n
            invariant
                self.wf(),
                n == s0.len(),
                i <= n,
                self.buildings.slots().len() == n,
                self.buildings.free() == old(self).buildings.free(),
                forall|j: int| 0 <= j < i ==> #[trigger] self.buildings.slots()[j] == building_step(s0[j], delta),
                forall|j: int| i <= j < n ==> #[trigger] self.buildings.slots()[j] == s0[j],
                deleted@ == d0 + expiring(s0.take(i as int), delta).map_values(|b: Building| b.idx),
                out@.len() == expiring(s0.take(i as int), delta).len(),
                forall|k: int|
                    0 <= k < out@.len() ==> {
                        let b = #[trigger] expiring(s0.take(i as int), delta)[k];
                        &&& out@[k].handle == b.handle
                        &&& out@[k].spawns@ == spec_spawn_plan(b.guaranteed_spawns@, b.spawn_count)
                    },
                self.level == old(self).level,
                self.objective == old(self).objective,
                self.animals == old(self).animals,
                self.enemies == old(self).enemies,
                self.death_ball_size == old(self).death_ball_size,
                self.score == old(self).score,
                self.status == old(self).status,
            decreases n - i,
        {
            let ghost before = expiring(s0.take(i as int), delta);
            let ghost before_deleted = deleted@;
            assert(s0.take(i + 1).drop_last() =~= s0.take(i as int));
            assert(s0.take(i + 1).last() == s0[i as int]);
            if self.buildings.occupied(i) {
                let b = self.buildings.get_mut_at(i);
                let handle = b.handle;
                match b.update(delta, deleted) {
                    Some(spawns) => {
                        out.push(Expiry { handle, spawns });
                    },
                    None => {},
                }
                proof {
                    let e = expiring(s0.take(i + 1), delta);
                    assert(e.map_values(|b: Building| b.idx) =~= before.map_values(
                        |b: Building| b.idx,
                    ) + (if e.len() > before.len() {
                        seq![s0[i as int].value->Some_0.idx]
                    } else {
                        Seq::empty()
                    }));
                }
            } else {
                assert(expiring(s0.take(i + 1), delta) == before);
            }
            i = i + 1;
        }
        assert(s0.take(n as int) =~= s0);
        assert(self.buildings.slots() =~= s0.map_values(|s: Slot<Building>| building_step(s, delta)));
        out
    }

    /// Advances the session's state machine by a frame of `delta`
    /// milliseconds, drains the score unless the level is won, and says
    /// where the player's confirmation (`confirm`) leads.
    pub fn update_status(&mut self, delta: u32, confirm: bool) -> (r: Transition)
        requires
            old(self).wf(),
        ensures
            final(self).wf(),
            final(self).status == spec_next_status(
                old(self).status,
                old(self).objective.spec_is_complete(),
                old(self).death_ball_size,
                delta,
            ),
            final(self).score == if final(self).status == Status::HasWon {
                old(self).score
            } else if delta as u64 >= old(self).score {
                0
            } else {
                (old(self).score - delta) as u64
            },
            r == if confirm && final(self).status == Status::HasLost {
                Transition::Retry
            } else if confirm && final(self).status == Status::HasWon {
                Transition::Advance { points: (final(self).score / 10) as u32 }
            } else {
                Transition::Stay
            },
            final(self).level == old(self).level,
            final(self).objective == old(self).objective,
            final(self).animals == old(self).animals,
            final(self).buildings == old(self).buildings,
            final(self).enemies == old(self).enemies,
            final(self).death_ball_size == old(self).death_ball_size,
    {
        let complete = self.objective.is_complete();
        let size = self.death_ball_size;
        let next = match self.status {
            Status::Playing => {
                if complete {
                    Status::HasWon
                } else if size == 0 {
                    Status::Losing { timer: LOSE_MS }
                } else {
                    Status::Playing
                }
            },
            Status::Losing { timer } => {
                if complete {
                    Status::HasWon
                } else if size > 0 {
                    Status::Playing
                } else if delta > timer {
                    Status::HasLost
                } else {
                    Status::Losing { timer: timer - delta }
                }
            },
            other => other,
        };
        self.status = next;
        if next != Status::HasWon {
            self.score = self.score.saturating_sub(delta as u64);
        }
        if confirm && next == Status::HasLost {
            Transition::Retry
        } else if confirm && next == Status::HasWon {
            Transition::Advance { points: (self.score / 10) as u32 }
        } else {
            Transition::Stay
        }
    }

    /// Drains the deletion queue: each index is removed from the collection
    /// of its group. The indices of hit effects, which the session does not
    /// hold, are handed back in order.
    pub fn clear_deleted(&mut self, deleted: &mut Vec<GenerationalIndex>) -> (r: Vec<
        GenerationalIndex,
    >)
        requires
            old(self).wf(),
        ensures
            final(self).wf(),
            final(deleted)@.len() == 0,
            r@ == of_group(old(deleted)@, HIT_EFFECT),
            (final(self).animals.slots(), final(self).animals.free())
                == crate::entities::spec_remove_each(
                ANIMAL,
                old(self).animals.slots(),
                old(self).animals.free(),
                old(deleted)@,
            ),
            (final(self).buildings.slots(), final(self).buildings.free())
                == crate::entities::spec_remove_each(
                BUILDING,
                old(self).buildings.slots(),
                old(self).buildings.free(),
                old(deleted)@,
            ),
            (final(self).enemies.slots(), final(self).enemies.free())
                == crate::entities::spec_remove_each(
                ENEMY,
                old(self).enemies.slots(),
                old(self).enemies.free(),
                old(deleted)@,
            ),
            final(self).level == old(self).level,
            final(self).objective == old(self).objective,
            final(self).death_ball_size == old(self).death_ball_size,
            final(self).score == old(self).score,
            final(self).status == old(self).status,
    {
        self.animals.remove_each(deleted);
        self.buildings.remove_each(deleted);
        self.enemies.remove_each(deleted);
        let mut hits: Vec<GenerationalIndex> = Vec::new();
        let mut i: usize = 0;
        while i < deleted.len()
            invariant
                i <= deleted@.len(),
                deleted@ == old(deleted)@,
                hits@ == of_group(deleted@.take(i as int), HIT_EFFECT),
            decreases deleted@.len() - i,
        {
            assert(deleted@.take(i + 1).drop_last() =~= deleted@.take(i as int));
            let idx = deleted[i];
            if idx.group() == HIT_EFFECT {
                hits.push(idx);
            }
            i = i + 1;
        }
        assert(deleted@.take(i as int) =~= deleted@);
        deleted.clear();
        hits
    }
}

/// An animal that did not follow the death ball and meets its sensor starts
/// following it, and the follower count grows by exactly one.
pub proof fn lemma_death_ball_acquisition<D>(o: Combat<D>, n: Combat<D>, idx: GenerationalIndex)
    requires
        o.animals.wf(),
        !o.animals.value_at(idx).is_affected_by_death_ball,
        spec_follow_post(o, n, idx, Ok::<Outcome, DispatchError>(Outcome::Followed)),
    ensures
        n.animals.value_at(idx).is_affected_by_death_ball,
        followers(n.animals.spec_values()) == followers(o.animals.spec_values()) + 1,
        followers(o.animals.spec_values()) < 255 ==> n.death_ball_size == clamp_count(
            followers(o.animals.spec_values()),
        ) + 1,
{
    lemma_refollowed_count(o, n, idx, true);
}

/// An animal that followed the death ball and meets an attack sensor stops
/// following it, is to be knocked back from that sensor with its enemy's
/// impulse, and the follower count drops by exactly one.
pub proof fn lemma_knockback_clears_following<D>(
    o: Combat<D>,
    n: Combat<D>,
    h1: Handle,
    ai: GenerationalIndex,
    h2: Handle,
    xi: GenerationalIndex,
    r: Result<Outcome, DispatchError>,
)
    requires
        o.animals.wf(),
        o.animals.is_live(ai),
        o.animals.value_at(ai).is_affected_by_death_ball,
        o.enemies.is_live(GenerationalIndex::spec_new(ENEMY, xi.spec_generation(), xi.spec_index())),
        spec_knock_back_post(o, n, h1, ai, h2, xi, r),
    ensures
        !n.animals.value_at(ai).is_affected_by_death_ball,
        r matches Ok(Outcome::Knockback { animal, from, .. }) && animal == h1 && from == h2,
        followers(n.animals.spec_values()) + 1 == followers(o.animals.spec_values()),
{
    lemma_refollowed_count(o, n, ai, false);
}

proof fn lemma_refollowed_count<D>(o: Combat<D>, n: Combat<D>, idx: GenerationalIndex, follow: bool)
    requires
        spec_refollowed(o, n, idx, follow),
    ensures
        ({
            let before = if o.animals.value_at(idx).is_affected_by_death_ball {
                1nat
            } else {
                0nat
            };
            let after = if follow {
                1nat
            } else {
                0nat
            };
            followers(n.animals.spec_values()) + before == followers(o.animals.spec_values())
                + after
        }),
{
    let i = idx.spec_index() as int;
    let a = n.animals.value_at(idx);
    let g = idx.spec_generation();
    assert(n.animals.slots() =~= o.animals.slots().update(i, Slot { generation: g, value: Some(a) }));
    lemma_follow_count(o.animals.slots(), i, a, g);
}

} // verus!
