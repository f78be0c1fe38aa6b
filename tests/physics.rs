use deathball::entities::GenerationalIndex;
use deathball::physics::{
    resolve_events, BodyType, ColliderFacts, DynamicHandle, Handle, KinematicHandle, Parent,
    PhysicsEvent, PhysicsEventKind, RawEvent, RawHandle, Removal, SensorHandle, StaticHandle,
};

fn raw(index: u32) -> RawHandle {
    RawHandle { index, generation: 0 }
}

fn facts(collider: u32, idx: GenerationalIndex, parent: Option<Parent>, is_sensor: bool) -> ColliderFacts {
    ColliderFacts { collider: raw(collider), user_data: idx.to_u128(), parent, is_sensor }
}

#[test]
fn colliders_are_typed_by_parent_then_sensor_flag() {
    let idx = GenerationalIndex::new(1, 0, 0);
    let dynamic = facts(1, idx, Some(Parent { body: raw(9), body_type: BodyType::Dynamic }), false);
    let kinematic = facts(
        2,
        idx,
        Some(Parent { body: raw(8), body_type: BodyType::KinematicVelocityBased }),
        true,
    );
    let sensor = facts(3, idx, None, true);
    let fixed = facts(4, idx, None, false);
    let other = facts(5, idx, Some(Parent { body: raw(7), body_type: BodyType::Other }), false);
    assert_eq!(Handle::from_collider(&dynamic), Some(Handle::Dynamic(DynamicHandle(raw(1), raw(9)))));
    assert_eq!(
        Handle::from_collider(&kinematic),
        Some(Handle::Kinematic(KinematicHandle(raw(2), raw(8))))
    );
    assert_eq!(Handle::from_collider(&sensor), Some(Handle::Sensor(SensorHandle(raw(3)))));
    assert_eq!(Handle::from_collider(&fixed), Some(Handle::Static(StaticHandle(raw(4)))));
    assert_eq!(Handle::from_collider(&other), None);
}

#[test]
fn removal_drops_the_body_when_there_is_one() {
    assert_eq!(Handle::Static(StaticHandle(raw(1))).removal(), Removal::Collider(raw(1)));
    assert_eq!(Handle::Sensor(SensorHandle(raw(2))).removal(), Removal::Collider(raw(2)));
    assert_eq!(Handle::Dynamic(DynamicHandle(raw(3), raw(4))).removal(), Removal::Body(raw(4)));
    assert_eq!(Handle::Kinematic(KinematicHandle(raw(5), raw(6))).removal(), Removal::Body(raw(6)));
}

#[test]
fn handle_parts() {
    let h = Handle::Dynamic(DynamicHandle(raw(1), raw(2)));
    assert_eq!(h.collider(), raw(1));
    assert_eq!(h.body(), Some(raw(2)));
    let s = Handle::Sensor(SensorHandle(raw(3)));
    assert_eq!(s.collider(), raw(3));
    assert_eq!(s.body(), None);
}

#[test]
fn events_are_ordered_by_packed_index_whatever_the_report_order() {
    let building = GenerationalIndex::new(2, 0, 0);
    let animal = GenerationalIndex::new(1, 3, 5);
    let a = facts(1, animal, Some(Parent { body: raw(11), body_type: BodyType::Dynamic }), false);
    let b = facts(2, building, None, false);
    let e1 = PhysicsEvent::new(PhysicsEventKind::ContactStart, &a, &b).unwrap();
    let e2 = PhysicsEvent::new(PhysicsEventKind::ContactStart, &b, &a).unwrap();
    assert_eq!(e1, e2);
    assert_eq!(e1.idx1, animal);
    assert_eq!(e1.idx2, building);
    assert!(e1.idx1.to_u128() < e1.idx2.to_u128());
    assert_eq!(e1.collider1, Handle::Dynamic(DynamicHandle(raw(1), raw(11))));
    assert_eq!(e1.collider2, Handle::Static(StaticHandle(raw(2))));
    assert_eq!(e1.kind, PhysicsEventKind::ContactStart);
}

#[test]
fn death_ball_always_comes_first() {
    let ball = deathball::groups::death_ball();
    let animal = GenerationalIndex::new(1, 0, 0);
    let s = facts(1, ball, None, true);
    let a = facts(2, animal, Some(Parent { body: raw(3), body_type: BodyType::Dynamic }), false);
    let e = PhysicsEvent::new(PhysicsEventKind::IntersectStart, &a, &s).unwrap();
    assert_eq!(e.idx1, ball);
    assert_eq!(e.idx2, animal);
    assert_eq!(e.collider1, Handle::Sensor(SensorHandle(raw(1))));
}

#[test]
fn resolving_keeps_order_and_fails_on_unknown_bodies() {
    let animal = GenerationalIndex::new(1, 0, 0);
    let enemy = GenerationalIndex::new(3, 0, 0);
    let a = facts(1, animal, Some(Parent { body: raw(5), body_type: BodyType::Dynamic }), false);
    let s = facts(2, enemy, None, true);
    let raws = vec![
        RawEvent { kind: PhysicsEventKind::IntersectStart, collider1: s, collider2: a },
        RawEvent { kind: PhysicsEventKind::IntersectEnd, collider1: a, collider2: s },
    ];
    let events = resolve_events(&raws).unwrap();
    assert_eq!(events.len(), 2);
    assert_eq!(events[0].kind, PhysicsEventKind::IntersectStart);
    assert_eq!(events[1].kind, PhysicsEventKind::IntersectEnd);
    assert_eq!(events[0].idx1, animal);
    assert_eq!(events[1].idx1, animal);
    let odd = facts(3, enemy, Some(Parent { body: raw(6), body_type: BodyType::Other }), false);
    let bad = vec![RawEvent { kind: PhysicsEventKind::ContactStart, collider1: a, collider2: odd }];
    assert_eq!(resolve_events(&bad), None);
    assert_eq!(resolve_events(&vec![]), Some(vec![]));
}
