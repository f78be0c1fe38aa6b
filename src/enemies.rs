//! Enemies: they chase nearby animals, knock them away with a charged
//! attack, and die when animals ram them enough.
//!
//! The attack's aim is a direction that only the caller can compute; it is
//! carried here as an opaque `D`.

use vstd::prelude::*;

use crate::entities::GenerationalIndex;
use crate::groups;
use crate::health::Health;
use crate::physics::{DynamicHandle, Handle, RawHandle, SensorHandle};

verus! {

/// How long a dead enemy fades before it goes, in milliseconds.
pub const FADE_MS: u32 = 1000;

/// How long the wind-up before an attack lasts, in milliseconds.
pub const PRE_ATTACK_MS: u32 = 1200;

/// How long an attack's sensor travels, in milliseconds.
pub const ATTACK_MS: u32 = 1000;

#[derive(Clone, Copy, Debug, PartialEq, Eq, Structural)]
pub enum Variant {
    Demon,
    DemonBoss,
    Farmer,
    Police,
    Snowman,
    Soldier,
}

impl Variant {
    pub open spec fn spec_health(self) -> u16 {
        match self {
            Variant::Demon => 200,
            Variant::DemonBoss => 400,
            Variant::Farmer => 10,
            Variant::Police => 20,
            Variant::Snowman => 25,
            Variant::Soldier => 50,
        }
    }

    /// Milliseconds between two attacks.
    pub open spec fn spec_attack_cooldown(self) -> u32 {
        match self {
            Variant::Demon => 5000,
            Variant::DemonBoss => 5000,
            Variant::Farmer => 10000,
            Variant::Police => 10000,
            Variant::Snowman => 7000,
            Variant::Soldier => 9000,
        }
    }

    pub fn health(self) -> (r: u16)
        ensures
            r == self.spec_health(),
    {
        match self {
            Variant::Demon => 200,
            Variant::DemonBoss => 400,
            Variant::Farmer => 10,
            Variant::Police => 20,
            Variant::Snowman => 25,
            Variant::Soldier => 50,
        }
    }

    pub fn attack_cooldown(self) -> (r: u32)
        ensures
            r == self.spec_attack_cooldown(),
    {
        match self {
            Variant::Demon => 5000,
            Variant::DemonBoss => 5000,
            Variant::Farmer => 10000,
            Variant::Police => 10000,
            Variant::Snowman => 7000,
            Variant::Soldier => 9000,
        }
    }
}

/// Where an attack is in its cycle.
pub enum AttackStatus<D> {
    /// Recovering; `timer` milliseconds since the last attack.
    Charging { timer: u32 },
    /// Winding up towards `direction`.
    PreAttack { timer: u32, direction: D },
    /// The attack's sensor travels along `direction`.
    InProgress { timer: u32, direction: D, sensor: SensorHandle },
}

/// What the caller has to do for an attack this frame.
pub enum AttackStep<D> {
    Idle,
    /// The sensor was just created.
    Launched { sensor: SensorHandle },
    /// Place the sensor `timer` milliseconds along `direction`.
    Moved { sensor: SensorHandle, timer: u32, direction: D },
    /// Remove the sensor: the attack is over.
    Ended { sensor: SensorHandle },
}

/// The sensor a step speaks of.
pub open spec fn step_sensor<D>(step: AttackStep<D>) -> SensorHandle {
    match step {
        AttackStep::Launched { sensor } => sensor,
        AttackStep::Moved { sensor, .. } => sensor,
        AttackStep::Ended { sensor } => sensor,
        AttackStep::Idle => SensorHandle(RawHandle { index: 0, generation: 0 }),
    }
}

pub open spec fn add_ms(a: u32, b: u32) -> u32 {
    if a + b > u32::MAX {
        u32::MAX
    } else {
        (a + b) as u32
    }
}

impl<D> AttackStatus<D> {
    /// The status and step after `delta` milliseconds, given the cooldown,
    /// the current aim (`None` without a target) and, where the wind-up
    /// ends, the sensor created for it.
    pub open spec fn spec_updated(
        self,
        delta: u32,
        cooldown: u32,
        aim: Option<D>,
        launched: SensorHandle,
    ) -> (AttackStatus<D>, AttackStep<D>) {
        match self {
            AttackStatus::Charging { timer } => {
                let t = add_ms(timer, delta);
                if t >= cooldown && aim is Some {
                    (AttackStatus::PreAttack { timer: 0, direction: aim->Some_0 }, AttackStep::Idle)
                } else {
                    (AttackStatus::Charging { timer: t }, AttackStep::Idle)
                }
            },
            AttackStatus::PreAttack { timer, direction } => {
                let t = add_ms(timer, delta);
                if t > PRE_ATTACK_MS {
                    (
                        AttackStatus::InProgress { timer: 0, direction, sensor: launched },
                        AttackStep::Launched { sensor: launched },
                    )
                } else {
                    (AttackStatus::PreAttack { timer: t, direction }, AttackStep::Idle)
                }
            },
            AttackStatus::InProgress { timer, direction, sensor } => {
                let t = add_ms(timer, delta);
                if t > ATTACK_MS {
                    (AttackStatus::Charging { timer: 0 }, AttackStep::Ended { sensor })
                } else {
                    let d = match aim {
                        Some(a) => a,
                        None => direction,
                    };
                    (
                        AttackStatus::InProgress { timer: t, direction: d, sensor },
                        AttackStep::Moved { sensor, timer: t, direction: d },
                    )
                }
            },
        }
    }

    /// Whether `delta` more milliseconds end the wind-up.
    pub open spec fn spec_launches(self, delta: u32) -> bool {
        match self {
            AttackStatus::PreAttack { timer, .. } => add_ms(timer, delta) > PRE_ATTACK_MS,
            _ => false,
        }
    }
}

/// An enemy's charged attack.
pub struct Attack<D> {
    /// The index the attack's sensor carries: the enemy's, in the attack
    /// group.
    pub idx: GenerationalIndex,
    pub cooldown: u32,
    pub status: AttackStatus<D>,
}

impl<D: Copy> Attack<D> {
    pub fn new(enemy_idx: GenerationalIndex, cooldown: u32) -> (r: Self)
        ensures
            r.idx.spec_group() == groups::ENEMY_ATTACK,
            r.idx.spec_generation() == enemy_idx.spec_generation(),
            r.idx.spec_index() == enemy_idx.spec_index(),
            r.cooldown == cooldown,
            r.status == (AttackStatus::<D>::Charging { timer: 0 }),
    {
        Attack {
            idx: enemy_idx.with_group(groups::ENEMY_ATTACK),
            cooldown,
            status: AttackStatus::Charging { timer: 0 },
        }
    }

    /// The sensor of an attack under way.
    pub fn sensor(&self) -> (r: Option<SensorHandle>)
        ensures
            r == (match self.status {
                AttackStatus::InProgress { sensor, .. } => Some(sensor),
                _ => None,
            }),
    {
        match &self.status {
            AttackStatus::InProgress { sensor, .. } => Some(*sensor),
            _ => None,
        }
    }

    /// Lets `delta` milliseconds pass. `aim` is the direction to the
    /// current target, if there is one; `launch` creates the sensor when
    /// the wind-up ends.
    pub fn update<F: FnOnce(D) -> SensorHandle>(&mut self, delta: u32, aim: Option<D>, launch: F) -> (r:
        AttackStep<D>)
        requires
            forall|d: D| call_requires(launch, (d,)),
        ensures
            final(self).idx == old(self).idx,
            final(self).cooldown == old(self).cooldown,
            (final(self).status, r) == old(self).status.spec_updated(
                delta,
                old(self).cooldown,
                aim,
                step_sensor(r),
            ),
            old(self).status.spec_launches(delta) ==> (match old(self).status {
                AttackStatus::PreAttack { direction, .. } => call_ensures(
                    launch,
                    (direction,),
                    step_sensor(r),
                ),
                _ => true,
            }),
    {
        match self.status {
            AttackStatus::Charging { timer } => {
                let t = timer.saturating_add(delta);
                if t >= self.cooldown {
                    if let Some(d) = aim {
                        self.status = AttackStatus::PreAttack { timer: 0, direction: d };
                        return AttackStep::Idle;
                    }
                }
                self.status = AttackStatus::Charging { timer: t };
                AttackStep::Idle
            },
            AttackStatus::PreAttack { timer, direction } => {
                let t = timer.saturating_add(delta);
                if t > PRE_ATTACK_MS {
                    let sensor = launch(direction);
                    self.status = AttackStatus::InProgress { timer: 0, direction, sensor };
                    AttackStep::Launched { sensor }
                } else {
                    self.status = AttackStatus::PreAttack { timer: t, direction };
                    AttackStep::Idle
                }
            },
            AttackStatus::InProgress { timer, direction, sensor } => {
                let t = timer.saturating_add(delta);
                if t > ATTACK_MS {
                    self.status = AttackStatus::Charging { timer: 0 };
                    AttackStep::Ended { sensor }
                } else {
                    let d = match aim {
                        Some(a) => a,
                        None => direction,
                    };
                    self.status = AttackStatus::InProgress { timer: t, direction: d, sensor };
                    AttackStep::Moved { sensor, timer: t, direction: d }
                }
            },
        }
    }
}

/// `s` without any entry equal to `x`, order kept.
pub open spec fn without(s: Seq<Handle>, x: Handle) -> Seq<Handle>
    decreases s.len(),
{
    if s.len() == 0 {
        s
    } else if s.last() == x {
        without(s.drop_last(), x)
    } else {
        without(s.drop_last(), x).push(s.last())
    }
}

/// Where an enemy is in its life.
pub enum Status {
    Alive { health: Health },
    /// Dead and fading out for `fade_timer` more milliseconds.
    Dead { fade_timer: u32 },
    /// Faded out and queued for deletion.
    Removed,
}

impl Status {
    /// The status after a hit of `amount`, and whether that hit killed.
    pub open spec fn spec_damaged(self, amount: u8) -> (Status, bool) {
        match self {
            Status::Alive { health } => {
                let h = health.spec_damaged(amount as u16);
                if h.health == 0 {
                    (Status::Dead { fade_timer: FADE_MS }, true)
                } else {
                    (Status::Alive { health: h }, false)
                }
            },
            _ => (self, false),
        }
    }
}

/// What the caller has to do for an enemy this frame.
pub enum EnemyStep<D> {
    /// Keep the detection sensor on the body, move towards `chase` (stand
    /// still without one) and carry out the attack's step.
    Alive { chase: Option<Handle>, attack: AttackStep<D> },
    Fading,
    /// The fade ended: remove the body, the detection sensor and the attack
    /// sensor, if any.
    Expired { attack_sensor: Option<SensorHandle> },
    Gone,
}

/// An enemy, its body and detection sensor, the animals in range, and its
/// attack.
pub struct Enemy<D> {
    pub idx: GenerationalIndex,
    pub handle: DynamicHandle,
    pub sensor_handle: SensorHandle,
    /// Animals inside the detection range, oldest first.
    pub nearby_animals: Vec<Handle>,
    pub variant: Variant,
    pub status: Status,
    pub attack: Attack<D>,
}

impl<D: Copy> Enemy<D> {
    pub fn new(
        variant: Variant,
        idx: GenerationalIndex,
        handle: DynamicHandle,
        sensor_handle: SensorHandle,
    ) -> (r: Self)
        ensures
            r.idx == idx,
            r.handle == handle,
            r.sensor_handle == sensor_handle,
            r.nearby_animals@.len() == 0,
            r.variant == variant,
            r.status == (Status::Alive {
                health: Health {
                    health: variant.spec_health(),
                    max_health: variant.spec_health(),
                    timer: 0,
                },
            }),
            r.attack.idx.spec_group() == groups::ENEMY_ATTACK,
            r.attack.idx.spec_generation() == idx.spec_generation(),
            r.attack.idx.spec_index() == idx.spec_index(),
            r.attack.cooldown == variant.spec_attack_cooldown(),
            r.attack.status == (AttackStatus::<D>::Charging { timer: 0 }),
    {
        Enemy {
            idx,
            handle,
            sensor_handle,
            nearby_animals: Vec::new(),
            variant,
            status: Status::Alive { health: Health::new(variant.health()) },
            attack: Attack::new(idx, variant.attack_cooldown()),
        }
    }

    /// An animal entered the detection range.
    pub fn add_nearby(&mut self, animal: Handle)
        ensures
            final(self).nearby_animals@ == old(self).nearby_animals@.push(animal),
            final(self).idx == old(self).idx,
            final(self).handle == old(self).handle,
            final(self).sensor_handle == old(self).sensor_handle,
            final(self).variant == old(self).variant,
            final(self).status == old(self).status,
            final(self).attack == old(self).attack,
    {
        self.nearby_animals.push(animal);
    }

    /// An animal left the detection range.
    pub fn remove_nearby(&mut self, animal: Handle)
        ensures
            final(self).nearby_animals@ == without(old(self).nearby_animals@, animal),
            final(self).idx == old(self).idx,
            final(self).handle == old(self).handle,
            final(self).sensor_handle == old(self).sensor_handle,
            final(self).variant == old(self).variant,
            final(self).status == old(self).status,
            final(self).attack == old(self).attack,
    {
        let mut kept: Vec<Handle> = Vec::new();
        let mut i: usize = 0;
        while i < self.nearby_animals.len()
            invariant
                i <= self.nearby_animals@.len(),
                self.nearby_animals == old(self).nearby_animals,
                kept@ == without(self.nearby_animals@.take(i as int), animal),
            decreases self.nearby_animals@.len() - i,
        {
            assert(self.nearby_animals@.take(i + 1).drop_last() =~= self.nearby_animals@.take(
                i as int,
            ));
            let a = self.nearby_animals[i];
            if a != animal {
                kept.push(a);
            }
            i = i + 1;
        }
        assert(self.nearby_animals@.take(i as int) =~= self.nearby_animals@);
        self.nearby_animals = kept;
    }

    /// The animal to chase and aim at: the first one in range.
    pub fn target(&self) -> (r: Option<Handle>)
        ensures
            r == (if self.nearby_animals@.len() > 0 {
                Some(self.nearby_animals@[0])
            } else {
                None
            }),
    {
        if self.nearby_animals.len() > 0 {
            Some(self.nearby_animals[0])
        } else {
            None
        }
    }

    /// Applies a hit of `damage`; returns whether it killed the enemy.
    pub fn damage(&mut self, damage: u8) -> (r: bool)
        ensures
            (final(self).status, r) == old(self).status.spec_damaged(damage),
            final(self).idx == old(self).idx,
            final(self).handle == old(self).handle,
            final(self).sensor_handle == old(self).sensor_handle,
            final(self).nearby_animals == old(self).nearby_animals,
            final(self).variant == old(self).variant,
            final(self).attack == old(self).attack,
    {
        match &mut self.status {
            Status::Alive { health } => {
                health.damage(damage as u16);
                if health.is_empty() {
                    self.status = Status::Dead { fade_timer: FADE_MS };
                    return true;
                }
            },
            _ => {},
        }
        false
    }

    /// Lets `delta` milliseconds pass. A living enemy advances its attack
    /// (aimed by `aim`, launched by `launch`) and chases its target; a dead
    /// one fades, and when the fade ends its index goes onto `deleted`.
    pub fn update<F: FnOnce(D) -> SensorHandle>(
        &mut self,
        delta: u32,
        aim: Option<D>,
        launch: F,
        deleted: &mut Vec<GenerationalIndex>,
    ) -> (r: EnemyStep<D>)
        requires
            forall|d: D| call_requires(launch, (d,)),
        ensures
            final(self).idx == old(self).idx,
            final(self).handle == old(self).handle,
            final(self).sensor_handle == old(self).sensor_handle,
            final(self).nearby_animals == old(self).nearby_animals,
            final(self).variant == old(self).variant,
            final(self).attack.idx == old(self).attack.idx,
            final(self).attack.cooldown == old(self).attack.cooldown,
            match old(self).status {
                Status::Alive { health } => {
                    &&& final(self).status == (Status::Alive { health: health.spec_updated(delta) })
                    &&& r matches EnemyStep::Alive { chase, attack }
                    &&& chase == (if old(self).nearby_animals@.len() > 0 {
                        Some(old(self).nearby_animals@[0])
                    } else {
                        None
                    })
                    &&& (final(self).attack.status, attack) == old(self).attack.status.spec_updated(
                        delta,
                        old(self).attack.cooldown,
                        aim,
                        step_sensor(attack),
                    )
                    &&& final(deleted)@ == old(deleted)@
                },
                Status::Dead { fade_timer } => {
                    &&& final(self).attack == old(self).attack
                    &&& if delta > fade_timer {
                        &&& final(self).status == Status::Removed
                        &&& r == (EnemyStep::<D>::Expired {
                            attack_sensor: match old(self).attack.status {
                                AttackStatus::InProgress { sensor, .. } => Some(sensor),
                                _ => None,
                            },
                        })
                        &&& final(deleted)@ == old(deleted)@.push(old(self).idx)
                    } else {
                        &&& final(self).status == (Status::Dead {
                            fade_timer: (fade_timer - delta) as u32,
                        })
                        &&& r == EnemyStep::<D>::Fading
                        &&& final(deleted)@ == old(deleted)@
                    }
                },
                Status::Removed => {
                    &&& final(self).status == Status::Removed
                    &&& final(self).attack == old(self).attack
                    &&& r == EnemyStep::<D>::Gone
                    &&& final(deleted)@ == old(deleted)@
                },
            },
    {
        match &mut self.status {
            Status::Alive { health } => {
                health.update(delta);
                let attack = self.attack.update(delta, aim, launch);
                let chase = self.target();
                EnemyStep::Alive { chase, attack }
            },
            Status::Dead { fade_timer } => {
                if delta > *fade_timer {
                    self.status = Status::Removed;
                    deleted.push(self.idx);
                    EnemyStep::Expired { attack_sensor: self.attack.sensor() }
                } else {
                    *fade_timer = *fade_timer - delta;
                    EnemyStep::Fading
                }
            },
            Status::Removed => EnemyStep::Gone,
        }
    }
}

} // verus!
