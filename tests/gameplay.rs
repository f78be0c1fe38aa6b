use deathball::animals::{Animal, Variant as AnimalVariant};
use deathball::buildings::{Building, Status as BuildingStatus, Variant as BuildingVariant};
use deathball::combat::{Combat, DispatchError, Outcome, Status, Transition};
use deathball::enemies::{
    Attack, AttackStatus, AttackStep, Enemy, EnemyStep, Status as EnemyStatus,
    Variant as EnemyVariant,
};
use deathball::entities::{Entities, GenerationalIndex};
use deathball::groups::{death_ball, ANIMAL, BUILDING, ENEMY, ENEMY_ATTACK, HIT_EFFECT};
use deathball::levels::Level;
use deathball::objectives::Objective;
use deathball::physics::{
    BodyType, ColliderFacts, DynamicHandle, Handle, Parent, PhysicsEvent, PhysicsEventKind,
    RawHandle, SensorHandle, StaticHandle,
};

type Dir = (i32, i32);

fn raw(index: u32) -> RawHandle {
    RawHandle { index, generation: 0 }
}

fn dynamic(index: u32) -> DynamicHandle {
    DynamicHandle(raw(index), raw(index + 1000))
}

fn body_facts(h: DynamicHandle, idx: GenerationalIndex) -> ColliderFacts {
    ColliderFacts {
        collider: h.0,
        user_data: idx.to_u128(),
        parent: Some(Parent { body: h.1, body_type: BodyType::Dynamic }),
        is_sensor: false,
    }
}

fn free_facts(h: RawHandle, idx: GenerationalIndex, is_sensor: bool) -> ColliderFacts {
    ColliderFacts { collider: h, user_data: idx.to_u128(), parent: None, is_sensor }
}

fn event(kind: PhysicsEventKind, a: &ColliderFacts, b: &ColliderFacts) -> PhysicsEvent {
    PhysicsEvent::new(kind, a, b).unwrap()
}

fn session(objective: Objective) -> Combat<Dir> {
    Combat::new(
        Level::Test,
        objective,
        Entities::new(),
        Entities::new(),
        Entities::new(),
        100,
    )
}

#[test]
fn building_is_destroyed_once_and_queued_once() {
    let idx = GenerationalIndex::new(BUILDING, 0, 0);
    let mut b = Building::new(BuildingVariant::Garage, idx, StaticHandle(raw(1)));
    assert!(matches!(b.status, BuildingStatus::Destructible { ref health } if health.health == 10));
    assert!(b.damage(15));
    assert!(matches!(b.status, BuildingStatus::Destroyed { fade_timer: 1000 }));
    assert!(!b.damage(15));
    assert!(matches!(b.status, BuildingStatus::Destroyed { fade_timer: 1000 }));

    let mut deleted = Vec::new();
    assert!(b.update(400, &mut deleted).is_none());
    assert!(b.update(600, &mut deleted).is_none());
    assert!(matches!(b.status, BuildingStatus::Destroyed { fade_timer: 0 }));
    let spawns = b.update(1, &mut deleted).unwrap();
    assert_eq!(spawns, vec![Some(AnimalVariant::Snake), None]);
    assert_eq!(deleted, vec![idx]);
    assert!(matches!(b.status, BuildingStatus::Removed));
    assert!(b.update(5000, &mut deleted).is_none());
    assert_eq!(deleted, vec![idx]);
}

#[test]
fn partial_damage_keeps_the_building_standing() {
    let idx = GenerationalIndex::new(BUILDING, 0, 0);
    let mut b = Building::new(BuildingVariant::Barn, idx, StaticHandle(raw(1)));
    assert!(!b.damage(199));
    assert!(matches!(b.status, BuildingStatus::Destructible { ref health } if health.health == 1));
    assert!(b.damage(1));
}

#[test]
fn indestructible_buildings_ignore_damage() {
    let idx = GenerationalIndex::new(BUILDING, 0, 0);
    let mut b = Building::new(BuildingVariant::FenceH, idx, StaticHandle(raw(1)));
    assert!(matches!(b.status, BuildingStatus::Indestructible));
    assert!(!b.damage(255));
    assert!(matches!(b.status, BuildingStatus::Indestructible));
    let mut deleted = Vec::new();
    assert!(b.update(100_000, &mut deleted).is_none());
    assert!(deleted.is_empty());
    assert!(b.spawn_plan().is_empty());
}

#[test]
fn spawn_plan_fills_guaranteed_then_random() {
    let idx = GenerationalIndex::new(BUILDING, 0, 0);
    let barn = Building::new(BuildingVariant::Barn, idx, StaticHandle(raw(1)));
    assert_eq!(barn.spawn_count, 3);
    assert_eq!(
        barn.spawn_plan(),
        vec![Some(AnimalVariant::Horse), Some(AnimalVariant::Cat), None]
    );
    let stable = Building::new(BuildingVariant::StableDouble, idx, StaticHandle(raw(1)));
    assert_eq!(
        stable.spawn_plan(),
        vec![Some(AnimalVariant::Horse), Some(AnimalVariant::Horse), None]
    );
    let car = Building::new(BuildingVariant::Car, idx, StaticHandle(raw(1)));
    assert_eq!(car.spawn_plan(), vec![Some(AnimalVariant::Cat)]);
}

#[test]
fn guaranteed_spawns_beyond_the_count_still_come() {
    let idx = GenerationalIndex::new(BUILDING, 0, 0);
    let mut b = Building::new(BuildingVariant::Barn, idx, StaticHandle(raw(1)));
    b.spawn_count = 1;
    assert_eq!(b.spawn_plan(), vec![Some(AnimalVariant::Horse), Some(AnimalVariant::Cat)]);
    b.spawn_count = 5;
    b.guaranteed_spawns = [None, Some(AnimalVariant::Dog), None];
    assert_eq!(b.spawn_plan(), vec![None, None, None, None, None]);
}

#[test]
fn animal_variants_deal_their_damage() {
    let a = Animal::new(AnimalVariant::RubberDucky, dynamic(1));
    assert_eq!(a.damage, 50);
    assert!(!a.is_affected_by_death_ball);
    assert_eq!(a.update(), None);
    assert_eq!(AnimalVariant::Poop.damage(), 0);
    assert_eq!(AnimalVariant::Kuma.damage(), 4);
    assert_eq!(AnimalVariant::from_index(0), AnimalVariant::Cat);
    assert_eq!(AnimalVariant::from_index(12), AnimalVariant::Turtle);
    let mut f = Animal::new(AnimalVariant::Horse, dynamic(2));
    f.is_affected_by_death_ball = true;
    assert_eq!(f.update(), Some(dynamic(2)));
}

#[test]
fn random_variants_vary() {
    let mut seen = Vec::new();
    for _ in 0..400 {
        let v = AnimalVariant::random();
        if !seen.contains(&v) {
            seen.push(v);
        }
        let a = Animal::random(dynamic(1));
        assert_eq!(a.damage, a.variant.damage());
    }
    assert!(seen.len() > 1);
}

#[test]
fn attack_cycles_through_its_states() {
    let enemy = GenerationalIndex::new(ENEMY, 2, 4);
    let mut attack: Attack<Dir> = Attack::new(enemy, 5000);
    assert_eq!(attack.idx, enemy.with_group(ENEMY_ATTACK));
    let sensor = SensorHandle(raw(77));

    assert!(matches!(attack.update(4000, Some((1, 0)), |_| sensor), AttackStep::Idle));
    assert!(matches!(attack.status, AttackStatus::Charging { timer: 4000 }));
    assert!(matches!(attack.update(1000, None, |_| sensor), AttackStep::Idle));
    assert!(matches!(attack.status, AttackStatus::Charging { timer: 5000 }));
    assert!(matches!(attack.update(10, Some((0, 1)), |_| sensor), AttackStep::Idle));
    assert!(matches!(attack.status, AttackStatus::PreAttack { timer: 0, direction: (0, 1) }));
    assert!(matches!(attack.update(1200, None, |_| sensor), AttackStep::Idle));
    let mut aimed = None;
    let step = attack.update(1, None, |d| {
        aimed = Some(d);
        sensor
    });
    assert!(matches!(step, AttackStep::Launched { sensor: s } if s == sensor));
    assert_eq!(aimed, Some((0, 1)));
    assert_eq!(attack.sensor(), Some(sensor));
    let step = attack.update(500, Some((-1, 0)), |_| sensor);
    assert!(matches!(step, AttackStep::Moved { timer: 500, direction: (-1, 0), .. }));
    let step = attack.update(400, None, |_| sensor);
    assert!(matches!(step, AttackStep::Moved { timer: 900, direction: (-1, 0), .. }));
    let step = attack.update(101, None, |_| sensor);
    assert!(matches!(step, AttackStep::Ended { sensor: s } if s == sensor));
    assert!(matches!(attack.status, AttackStatus::Charging { timer: 0 }));
    assert_eq!(attack.sensor(), None);
}

#[test]
fn enemy_tracks_nearby_animals_and_dies() {
    let idx = GenerationalIndex::new(ENEMY, 0, 0);
    let mut e: Enemy<Dir> = Enemy::new(EnemyVariant::Farmer, idx, dynamic(1), SensorHandle(raw(2)));
    assert_eq!(e.attack.cooldown, 10000);
    let a = Handle::Dynamic(dynamic(10));
    let b = Handle::Dynamic(dynamic(20));
    e.add_nearby(a);
    e.add_nearby(b);
    e.add_nearby(a);
    assert_eq!(e.target(), Some(a));
    e.remove_nearby(a);
    assert_eq!(e.nearby_animals, vec![b]);
    assert_eq!(e.target(), Some(b));

    let mut deleted = Vec::new();
    match e.update(100, None, |_| SensorHandle(raw(3)), &mut deleted) {
        EnemyStep::Alive { chase, attack } => {
            assert_eq!(chase, Some(b));
            assert!(matches!(attack, AttackStep::Idle));
        }
        _ => panic!("a living enemy steps as alive"),
    }
    assert!(!e.damage(9));
    assert!(e.damage(9));
    assert!(matches!(e.status, EnemyStatus::Dead { fade_timer: 1000 }));
    assert!(!e.damage(9));
    assert!(matches!(e.update(1000, None, |_| SensorHandle(raw(3)), &mut deleted), EnemyStep::Fading));
    assert!(deleted.is_empty());
    assert!(matches!(
        e.update(1, None, |_| SensorHandle(raw(3)), &mut deleted),
        EnemyStep::Expired { attack_sensor: None }
    ));
    assert_eq!(deleted, vec![idx]);
    assert!(matches!(e.update(1, None, |_| SensorHandle(raw(3)), &mut deleted), EnemyStep::Gone));
    assert_eq!(deleted, vec![idx]);
}

#[test]
fn death_ball_acquires_an_animal() {
    let mut c = session(Objective::save_animals(2));
    let h = dynamic(5);
    let ai = c.animals.push(|_| Animal::new(AnimalVariant::Horse, h));
    let ball = free_facts(raw(1), death_ball(), true);
    let e = event(PhysicsEventKind::IntersectStart, &body_facts(h, ai), &ball);
    assert_eq!(c.death_ball_size, 0);
    assert_eq!(c.handle_physics_event(&e), Ok(Outcome::Followed));
    assert!(c.animals.get(ai).is_affected_by_death_ball);
    assert_eq!(c.death_ball_size, 1);
    assert_eq!(c.objective.current(), 1);

    let end = event(PhysicsEventKind::IntersectEnd, &ball, &body_facts(h, ai));
    assert_eq!(c.handle_physics_event(&end), Ok(Outcome::Ignored));
    assert_eq!(c.death_ball_size, 1);
}

#[test]
fn knockback_clears_following() {
    let mut c = session(Objective::save_animals(5));
    let h = dynamic(5);
    let ai = c.animals.push(|_| Animal::new(AnimalVariant::Dog, h));
    let ei = c.enemies.push(|idx| Enemy::new(EnemyVariant::Soldier, idx, dynamic(30), SensorHandle(raw(31))));
    let ball = free_facts(raw(1), death_ball(), true);
    c.handle_physics_event(&event(PhysicsEventKind::IntersectStart, &ball, &body_facts(h, ai)))
        .unwrap();
    assert_eq!(c.death_ball_size, 1);

    let attack_idx = c.enemies.get(ei).attack.idx;
    assert_eq!(attack_idx.group(), ENEMY_ATTACK);
    let sensor = free_facts(raw(40), attack_idx, true);
    let e = event(PhysicsEventKind::IntersectStart, &sensor, &body_facts(h, ai));
    assert_eq!(
        c.handle_physics_event(&e),
        Ok(Outcome::Knockback {
            animal: Handle::Dynamic(h),
            from: Handle::Sensor(SensorHandle(raw(40))),
            variant: EnemyVariant::Soldier,
        })
    );
    assert!(!c.animals.get(ai).is_affected_by_death_ball);
    assert_eq!(c.death_ball_size, 0);
    assert_eq!(c.objective.current(), 0);
}

#[test]
fn animals_wreck_buildings_on_contact() {
    let mut c = session(Objective::destroy_buildings(1));
    let h = dynamic(5);
    let ai = c.animals.push(|_| Animal::new(AnimalVariant::Cat, h));
    let bi = c.buildings.push(|idx| Building::new(BuildingVariant::Stable, idx, StaticHandle(raw(50))));
    let b = free_facts(raw(50), bi, false);
    let hit = event(PhysicsEventKind::ContactStart, &b, &body_facts(h, ai));
    assert_eq!(hit.idx1, ai);
    assert_eq!(c.handle_physics_event(&hit), Ok(Outcome::Hit { destroyed: false }));
    assert_eq!(c.handle_physics_event(&event(PhysicsEventKind::ContactEnd, &b, &body_facts(h, ai))), Ok(Outcome::Ignored));
    assert_eq!(c.handle_physics_event(&hit), Ok(Outcome::Hit { destroyed: false }));
    assert_eq!(c.handle_physics_event(&hit), Ok(Outcome::Hit { destroyed: false }));
    assert!(!c.objective.is_complete());
    assert_eq!(c.handle_physics_event(&hit), Ok(Outcome::Hit { destroyed: true }));
    assert!(c.objective.is_complete());
    assert_eq!(c.handle_physics_event(&hit), Ok(Outcome::Hit { destroyed: false }));
    assert_eq!(c.objective.current(), 1);
}

#[test]
fn animals_meet_enemies() {
    let mut c = session(Objective::kill_enemies(1));
    let h = dynamic(5);
    let ai = c.animals.push(|_| Animal::new(AnimalVariant::RubberDucky, h));
    let ei = c.enemies.push(|idx| Enemy::new(EnemyVariant::Police, idx, dynamic(30), SensorHandle(raw(31))));
    let range = free_facts(raw(31), ei, true);
    let animal = body_facts(h, ai);
    let enter = event(PhysicsEventKind::IntersectStart, &range, &animal);
    assert_eq!(c.handle_physics_event(&enter), Ok(Outcome::NearbyAdded));
    assert_eq!(c.enemies.get(ei).nearby_animals, vec![Handle::Dynamic(h)]);
    let leave = event(PhysicsEventKind::IntersectEnd, &range, &animal);
    assert_eq!(c.handle_physics_event(&leave), Ok(Outcome::NearbyRemoved));
    assert!(c.enemies.get(ei).nearby_animals.is_empty());
    let ram = event(PhysicsEventKind::ContactStart, &body_facts(dynamic(30), ei), &animal);
    assert_eq!(c.handle_physics_event(&ram), Ok(Outcome::Hit { destroyed: true }));
    assert!(c.objective.is_complete());
}

#[test]
fn events_for_removed_entities_are_reported() {
    let mut c = session(Objective::none());
    let h = dynamic(5);
    let ai = c.animals.push(|_| Animal::new(AnimalVariant::Cat, h));
    let mut deleted = vec![ai];
    c.clear_deleted(&mut deleted);
    let ball = free_facts(raw(1), death_ball(), true);
    let e = event(PhysicsEventKind::IntersectStart, &ball, &body_facts(h, ai));
    assert_eq!(c.handle_physics_event(&e), Err(DispatchError::MissingEntity(ai)));
}

#[test]
fn unrelated_pairs_are_ignored() {
    let mut c = session(Objective::none());
    let b1 = free_facts(raw(1), GenerationalIndex::new(BUILDING, 0, 0), false);
    let b2 = free_facts(raw(2), GenerationalIndex::new(BUILDING, 0, 1), false);
    let e = event(PhysicsEventKind::ContactStart, &b1, &b2);
    assert_eq!(c.handle_physics_event(&e), Ok(Outcome::Ignored));
}

#[test]
fn deletion_queue_is_routed_by_group() {
    let mut c = session(Objective::none());
    let a1 = c.animals.push(|_| Animal::new(AnimalVariant::Cat, dynamic(1)));
    let a2 = c.animals.push(|_| Animal::new(AnimalVariant::Dog, dynamic(2)));
    let bi = c.buildings.push(|idx| Building::new(BuildingVariant::Car, idx, StaticHandle(raw(3))));
    let hit = GenerationalIndex::new(HIT_EFFECT, 0, 4);
    let mut deleted = vec![a1, hit, bi, death_ball()];
    let hits = c.clear_deleted(&mut deleted);
    assert!(deleted.is_empty());
    assert_eq!(hits, vec![hit]);
    assert!(!c.animals.contains(a1));
    assert!(c.animals.contains(a2));
    assert!(!c.buildings.contains(bi));
    assert_eq!(a1.group(), ANIMAL);
}

#[test]
fn session_is_lost_when_the_death_ball_stays_empty() {
    let mut c = session(Objective::save_animals(3));
    assert_eq!(c.score, 1000);
    assert_eq!(c.update_status(16, false), Transition::Stay);
    assert_eq!(c.status, Status::Losing { timer: 5000 });
    assert_eq!(c.score, 984);
    assert_eq!(c.update_status(4000, true), Transition::Stay);
    assert_eq!(c.status, Status::Losing { timer: 1000 });
    assert_eq!(c.update_status(1001, false), Transition::Stay);
    assert_eq!(c.status, Status::HasLost);
    assert_eq!(c.score, 0);
    assert_eq!(c.update_status(16, true), Transition::Retry);
}

#[test]
fn session_recovers_and_is_won() {
    let mut c = session(Objective::save_animals(1));
    let h = dynamic(5);
    let ai = c.animals.push(|_| Animal::new(AnimalVariant::Cat, h));
    c.update_status(10, false);
    assert_eq!(c.status, Status::Losing { timer: 5000 });
    let ball = free_facts(raw(1), death_ball(), true);
    c.handle_physics_event(&event(PhysicsEventKind::IntersectStart, &ball, &body_facts(h, ai)))
        .unwrap();
    assert_eq!(c.update_status(10, false), Transition::Stay);
    assert_eq!(c.status, Status::HasWon);
    assert_eq!(c.score, 990);
    assert_eq!(c.update_status(500, true), Transition::Advance { points: 99 });
    assert_eq!(c.score, 990);
}

#[test]
fn losing_reverts_to_playing_when_a_follower_returns() {
    let mut c = session(Objective::save_animals(5));
    let h = dynamic(5);
    let ai = c.animals.push(|_| Animal::new(AnimalVariant::Cat, h));
    c.update_status(10, false);
    let ball = free_facts(raw(1), death_ball(), true);
    c.handle_physics_event(&event(PhysicsEventKind::IntersectStart, &ball, &body_facts(h, ai)))
        .unwrap();
    c.update_status(10, false);
    assert_eq!(c.status, Status::Playing);
}

#[test]
fn buildings_advance_together_and_report_expiries() {
    let mut c = session(Objective::none());
    let garage = c.buildings.push(|idx| Building::new(BuildingVariant::Garage, idx, StaticHandle(raw(1))));
    let fence = c.buildings.push(|idx| Building::new(BuildingVariant::FenceV, idx, StaticHandle(raw(2))));
    let barn = c.buildings.push(|idx| Building::new(BuildingVariant::Barn, idx, StaticHandle(raw(3))));
    assert!(c.buildings.get_mut(garage).damage(10));
    assert!(c.buildings.get_mut(barn).damage(200));
    let mut deleted = Vec::new();
    assert!(c.update_buildings(500, &mut deleted).is_empty());
    assert!(deleted.is_empty());
    let expired = c.update_buildings(501, &mut deleted);
    assert_eq!(deleted, vec![garage, barn]);
    assert_eq!(expired.len(), 2);
    assert_eq!(expired[0].handle, StaticHandle(raw(1)));
    assert_eq!(expired[0].spawns, vec![Some(AnimalVariant::Snake), None]);
    assert_eq!(expired[1].handle, StaticHandle(raw(3)));
    assert_eq!(expired[1].spawns.len(), 3);
    assert!(matches!(c.buildings.get(fence).status, BuildingStatus::Indestructible));
    assert!(c.update_buildings(10_000, &mut deleted).is_empty());
    assert_eq!(deleted.len(), 2);
}
