//! Physics-side identities: typed collider handles and collision events.
//!
//! The rigid-body engine names colliders and bodies by arena handles; here a
//! handle is held as its two raw parts. Each collider carries the packed
//! generational index of the entity that owns it, and every event is exposed
//! with its two colliders ordered by that packed value.

use vstd::prelude::*;

use crate::entities::GenerationalIndex;

verus! {

/// An arena handle of the physics engine, as its raw index and generation.
#[derive(Clone, Copy, Debug, PartialEq, Eq, Structural)]
pub struct RawHandle {
    pub index: u32,
    pub generation: u32,
}

/// A collider without a body that takes part in contacts.
#[derive(Clone, Copy, Debug, PartialEq, Eq, Structural)]
pub struct StaticHandle(pub RawHandle);

/// A collider without a body that only reports overlaps.
#[derive(Clone, Copy, Debug, PartialEq, Eq, Structural)]
pub struct SensorHandle(pub RawHandle);

/// A collider and the dynamic body it is attached to.
#[derive(Clone, Copy, Debug, PartialEq, Eq, Structural)]
pub struct DynamicHandle(pub RawHandle, pub RawHandle);

/// A collider and the velocity-driven kinematic body it is attached to.
#[derive(Clone, Copy, Debug, PartialEq, Eq, Structural)]
pub struct KinematicHandle(pub RawHandle, pub RawHandle);

#[derive(Clone, Copy, Debug, PartialEq, Eq, Structural)]
pub enum Handle {
    Static(StaticHandle),
    Sensor(SensorHandle),
    Dynamic(DynamicHandle),
    Kinematic(KinematicHandle),
}

/// What removing a handle drops from the engine: a lone collider, or a body
/// together with the colliders attached to it.
#[derive(Clone, Copy, Debug, PartialEq, Eq, Structural)]
pub enum Removal {
    Collider(RawHandle),
    Body(RawHandle),
}

/// The kind of a rigid body, as far as classification needs it.
#[derive(Clone, Copy, Debug, PartialEq, Eq, Structural)]
pub enum BodyType {
    Dynamic,
    KinematicVelocityBased,
    Other,
}

/// The body a collider is attached to.
#[derive(Clone, Copy, Debug, PartialEq, Eq, Structural)]
pub struct Parent {
    pub body: RawHandle,
    pub body_type: BodyType,
}

/// What the engine knows of one collider of an event.
#[derive(Clone, Copy, Debug, PartialEq, Eq, Structural)]
pub struct ColliderFacts {
    pub collider: RawHandle,
    /// The packed index of the owning entity.
    pub user_data: u128,
    /// The body the collider is attached to, if any, and its kind.
    pub parent: Option<Parent>,
    pub is_sensor: bool,
}

#[derive(Clone, Copy, Debug, PartialEq, Eq, Structural)]
pub enum PhysicsEventKind {
    IntersectStart,
    IntersectEnd,
    ContactStart,
    ContactEnd,
}

/// A collision event as the engine reports it: two colliders in no
/// particular order.
#[derive(Clone, Copy, Debug, PartialEq, Eq, Structural)]
pub struct RawEvent {
    pub kind: PhysicsEventKind,
    pub collider1: ColliderFacts,
    pub collider2: ColliderFacts,
}

/// A collision event with its colliders typed, resolved to the entities that
/// own them, and ordered so that `idx1` packs to no more than `idx2`.
#[derive(Clone, Copy, Debug, PartialEq, Eq, Structural)]
pub struct PhysicsEvent {
    pub kind: PhysicsEventKind,
    pub collider1: Handle,
    pub collider2: Handle,
    pub idx1: GenerationalIndex,
    pub idx2: GenerationalIndex,
}

/// The typed handle of a collider, or `None` for a body kind that no entity
/// uses.
pub open spec fn spec_classify(c: ColliderFacts) -> Option<Handle> {
    match c.parent {
        Some(Parent { body, body_type: BodyType::Dynamic }) => Some(Handle::Dynamic(DynamicHandle(c.collider, body))),
        Some(Parent { body, body_type: BodyType::KinematicVelocityBased }) => Some(
            Handle::Kinematic(KinematicHandle(c.collider, body)),
        ),
        Some(Parent { body_type: BodyType::Other, .. }) => None,
        None => if c.is_sensor {
            Some(Handle::Sensor(SensorHandle(c.collider)))
        } else {
            Some(Handle::Static(StaticHandle(c.collider)))
        },
    }
}

/// The event for colliders `a` and `b`: the one with the smaller packed
/// index comes first, `a` on a tie.
pub open spec fn spec_event(kind: PhysicsEventKind, a: ColliderFacts, b: ColliderFacts) -> Option<
    PhysicsEvent,
> {
    let (first, second) = if b.user_data < a.user_data {
        (b, a)
    } else {
        (a, b)
    };
    match (spec_classify(first), spec_classify(second)) {
        (Some(h1), Some(h2)) => Some(
            PhysicsEvent {
                kind,
                collider1: h1,
                collider2: h2,
                idx1: GenerationalIndex::spec_from_u128(first.user_data),
                idx2: GenerationalIndex::spec_from_u128(second.user_data),
            },
        ),
        _ => None,
    }
}

impl Handle {
    pub open spec fn spec_collider(self) -> RawHandle {
        match self {
            Handle::Static(StaticHandle(c)) => c,
            Handle::Sensor(SensorHandle(c)) => c,
            Handle::Dynamic(DynamicHandle(c, _)) => c,
            Handle::Kinematic(KinematicHandle(c, _)) => c,
        }
    }

    /// The collider of any handle.
    pub fn collider(&self) -> (r: RawHandle)
        ensures
            r == self.spec_collider(),
    {
        match self {
            Handle::Static(StaticHandle(c)) => *c,
            Handle::Sensor(SensorHandle(c)) => *c,
            Handle::Dynamic(DynamicHandle(c, _)) => *c,
            Handle::Kinematic(KinematicHandle(c, _)) => *c,
        }
    }

    /// The rigid body of a handle that has one.
    pub fn body(&self) -> (r: Option<RawHandle>)
        ensures
            r == match self {
                Handle::Dynamic(DynamicHandle(_, b)) => Some(*b),
                Handle::Kinematic(KinematicHandle(_, b)) => Some(*b),
                _ => None,
            },
    {
        match self {
            Handle::Dynamic(DynamicHandle(_, b)) => Some(*b),
            Handle::Kinematic(KinematicHandle(_, b)) => Some(*b),
            _ => None,
        }
    }

    /// A collider without a body is removed alone; a collider on a body goes
    /// with its body.
    pub fn removal(&self) -> (r: Removal)
        ensures
            r == (match self {
                Handle::Static(StaticHandle(c)) => Removal::Collider(*c),
                Handle::Sensor(SensorHandle(c)) => Removal::Collider(*c),
                Handle::Dynamic(DynamicHandle(_, b)) => Removal::Body(*b),
                Handle::Kinematic(KinematicHandle(_, b)) => Removal::Body(*b),
            }),
    {
        match self {
            Handle::Static(StaticHandle(c)) => Removal::Collider(*c),
            Handle::Sensor(SensorHandle(c)) => Removal::Collider(*c),
            Handle::Dynamic(DynamicHandle(_, b)) => Removal::Body(*b),
            Handle::Kinematic(KinematicHandle(_, b)) => Removal::Body(*b),
        }
    }

    /// Types a collider by its parent body, or by its sensor flag where it
    /// has none.
    pub fn from_collider(c: &ColliderFacts) -> (r: Option<Handle>)
        ensures
            r == spec_classify(*c),
    {
        match c.parent {
            Some(Parent { body, body_type: BodyType::Dynamic }) => Some(
                Handle::Dynamic(DynamicHandle(c.collider, body)),
            ),
            Some(Parent { body, body_type: BodyType::KinematicVelocityBased }) => Some(
                Handle::Kinematic(KinematicHandle(c.collider, body)),
            ),
            Some(Parent { body_type: BodyType::Other, .. }) => None,
            None => {
                if c.is_sensor {
                    Some(Handle::Sensor(SensorHandle(c.collider)))
                } else {
                    Some(Handle::Static(StaticHandle(c.collider)))
                }
            },
        }
    }
}

impl PhysicsEvent {
    /// Builds the event for colliders `a` and `b`, smaller packed index
    /// first.
    pub fn new(kind: PhysicsEventKind, a: &ColliderFacts, b: &ColliderFacts) -> (r: Option<
        PhysicsEvent,
    >)
        ensures
            r == spec_event(kind, *a, *b),
    {
        let (first, second) = if b.user_data < a.user_data {
            (b, a)
        } else {
            (a, b)
        };
        let h1 = Handle::from_collider(first);
        let h2 = Handle::from_collider(second);
        match (h1, h2) {
            (Some(h1), Some(h2)) => Some(
                PhysicsEvent {
                    kind,
                    collider1: h1,
                    collider2: h2,
                    idx1: GenerationalIndex::from_u128(first.user_data),
                    idx2: GenerationalIndex::from_u128(second.user_data),
                },
            ),
            _ => None,
        }
    }
}

/// Resolves a step's raw events, in order; `None` if a collider of any of
/// them belongs to a body kind that no entity uses.
pub fn resolve_events(raw: &Vec<RawEvent>) -> (r: Option<Vec<PhysicsEvent>>)
    ensures
        (forall|i: int| 0 <= i < raw@.len() ==> (#[trigger] spec_event(raw@[i].kind, raw@[i].collider1, raw@[i].collider2)) is Some)
            <==> r is Some,
        r is Some ==> r->Some_0@.len() == raw@.len() && forall|i: int|
            0 <= i < raw@.len() ==> Some(#[trigger] r->Some_0@[i]) == spec_event(
                raw@[i].kind,
                raw@[i].collider1,
                raw@[i].collider2,
            ),
{
    let mut out: Vec<PhysicsEvent> = Vec::new();
    let mut i: usize = 0;
    while i < raw.len()
        invariant
            i <= raw@.len(),
            out@.len() == i,
            forall|j: int|
                0 <= j < i ==> Some(#[trigger] out@[j]) == spec_event(
                    raw@[j].kind,
                    raw@[j].collider1,
                    raw@[j].collider2,
                ),
        decreases raw@.len() - i,
    {
        let e = &raw[i];
        match PhysicsEvent::new(e.kind, &e.collider1, &e.collider2) {
            Some(ev) => out.push(ev),
            None => {
                return None;
            },
        }
        i = i + 1;
    }
    proof {
        assert forall|j: int| 0 <= j < raw@.len() implies (#[trigger] spec_event(
            raw@[j].kind,
            raw@[j].collider1,
            raw@[j].collider2,
        )) is Some by {
            assert(Some(out@[j]) == spec_event(raw@[j].kind, raw@[j].collider1, raw@[j].collider2));
        }
    }
    Some(out)
}

/// Which of two colliders the engine reports first does not change the
/// event, as long as their packed indices differ.
pub proof fn lemma_event_order_independent(
    kind: PhysicsEventKind,
    a: ColliderFacts,
    b: ColliderFacts,
)
    requires
        a.user_data != b.user_data,
    ensures
        spec_event(kind, a, b) == spec_event(kind, b, a),
{
}

/// In every event the first collider's entity packs to strictly less than
/// the second's when the two differ, and each side is the entity that owns
/// that collider.
pub proof fn lemma_event_canonical(kind: PhysicsEventKind, a: ColliderFacts, b: ColliderFacts)
    requires
        a.user_data != b.user_data,
        spec_event(kind, a, b) is Some,
    ensures
        ({
            let e = spec_event(kind, a, b)->Some_0;
            &&& e.idx1.spec_to_u128() < e.idx2.spec_to_u128()
            &&& if a.user_data < b.user_data {
                spec_classify(a) == Some(e.collider1) && spec_classify(b) == Some(e.collider2)
            } else {
                spec_classify(b) == Some(e.collider1) && spec_classify(a) == Some(e.collider2)
            }
        }),
{
    GenerationalIndex::lemma_from_u128_packs(a.user_data);
    GenerationalIndex::lemma_from_u128_packs(b.user_data);
}

} // verus!
