//! Buildings: static obstacles that animals wreck and that release animals.

use vstd::prelude::*;

use crate::animals::Variant as AnimalVariant;
use crate::entities::GenerationalIndex;
use crate::health::Health;
use crate::physics::StaticHandle;

verus! {

/// How long a destroyed building fades before it goes, in milliseconds.
pub const FADE_MS: u32 = 1000;

#[derive(Clone, Copy, Debug, PartialEq, Eq, Structural)]
pub enum Variant {
    Barn,
    Car,
    ConcreteWallH,
    ConcreteWallV,
    DownWithHorses,
    FeedingTrough,
    FenceH,
    FenceV,
    Garage,
    HayBaleH,
    HayBaleV,
    HorseCrossingSign,
    House1,
    House2,
    OilBarrel,
    Outhouse,
    Portapotty,
    Stable,
    StableDouble,
    StableWide,
    StopSign,
    YieldSign,
}

/// The stats of a building variant. A health of 0 makes it indestructible.
#[derive(Clone, Copy, Debug)]
pub struct VariantData {
    pub health: u8,
    pub spawn_count: u8,
    pub guaranteed_spawns: [Option<AnimalVariant>; 3],
}

impl Variant {
    pub open spec fn spec_data(self) -> VariantData {
        match self {
            Variant::Barn => VariantData { health: 200, spawn_count: 3, guaranteed_spawns: [Some(AnimalVariant::Horse), Some(AnimalVariant::Cat), None] },
            Variant::Car => VariantData { health: 150, spawn_count: 1, guaranteed_spawns: [Some(AnimalVariant::Cat), None, None] },
            Variant::ConcreteWallH => VariantData { health: 0, spawn_count: 0, guaranteed_spawns: [None, None, None] },
            Variant::ConcreteWallV => VariantData { health: 0, spawn_count: 0, guaranteed_spawns: [None, None, None] },
            Variant::DownWithHorses => VariantData { health: 100, spawn_count: 1, guaranteed_spawns: [Some(AnimalVariant::Horse), None, None] },
            Variant::FeedingTrough => VariantData { health: 25, spawn_count: 2, guaranteed_spawns: [Some(AnimalVariant::Horse), None, None] },
            Variant::FenceH => VariantData { health: 0, spawn_count: 0, guaranteed_spawns: [None, None, None] },
            Variant::FenceV => VariantData { health: 0, spawn_count: 0, guaranteed_spawns: [None, None, None] },
            Variant::Garage => VariantData { health: 10, spawn_count: 2, guaranteed_spawns: [Some(AnimalVariant::Snake), None, None] },
            Variant::HayBaleH => VariantData { health: 10, spawn_count: 1, guaranteed_spawns: [Some(AnimalVariant::Rabbit), None, None] },
            Variant::HayBaleV => VariantData { health: 10, spawn_count: 1, guaranteed_spawns: [Some(AnimalVariant::Cat), None, None] },
            Variant::HorseCrossingSign => VariantData { health: 25, spawn_count: 1, guaranteed_spawns: [Some(AnimalVariant::Horse), None, None] },
            Variant::House1 => VariantData { health: 100, spawn_count: 2, guaranteed_spawns: [Some(AnimalVariant::Duck), None, None] },
            Variant::House2 => VariantData { health: 100, spawn_count: 2, guaranteed_spawns: [Some(AnimalVariant::Cat), None, None] },
            Variant::OilBarrel => VariantData { health: 100, spawn_count: 2, guaranteed_spawns: [Some(AnimalVariant::Kuma), None, None] },
            Variant::Outhouse => VariantData { health: 10, spawn_count: 1, guaranteed_spawns: [Some(AnimalVariant::Poop), None, None] },
            Variant::Portapotty => VariantData { health: 10, spawn_count: 1, guaranteed_spawns: [Some(AnimalVariant::Poop), None, None] },
            Variant::Stable => VariantData { health: 10, spawn_count: 2, guaranteed_spawns: [Some(AnimalVariant::Horse), None, None] },
            Variant::StableDouble => VariantData { health: 100, spawn_count: 3, guaranteed_spawns: [Some(AnimalVariant::Horse), Some(AnimalVariant::Horse), None] },
            Variant::StableWide => VariantData { health: 100, spawn_count: 3, guaranteed_spawns: [Some(AnimalVariant::Horse), Some(AnimalVariant::Horse), None] },
            Variant::StopSign => VariantData { health: 10, spawn_count: 2, guaranteed_spawns: [Some(AnimalVariant::Dog), None, None] },
            Variant::YieldSign => VariantData { health: 10, spawn_count: 1, guaranteed_spawns: [Some(AnimalVariant::Cat), None, None] },
        }
    }

    pub fn to_data(self) -> (r: VariantData)
        ensures
            r == self.spec_data(),
    {
        match self {
            Variant::Barn => VariantData { health: 200, spawn_count: 3, guaranteed_spawns: [Some(AnimalVariant::Horse), Some(AnimalVariant::Cat), None] },
            Variant::Car => VariantData { health: 150, spawn_count: 1, guaranteed_spawns: [Some(AnimalVariant::Cat), None, None] },
            Variant::ConcreteWallH => VariantData { health: 0, spawn_count: 0, guaranteed_spawns: [None, None, None] },
            Variant::ConcreteWallV => VariantData { health: 0, spawn_count: 0, guaranteed_spawns: [None, None, None] },
            Variant::DownWithHorses => VariantData { health: 100, spawn_count: 1, guaranteed_spawns: [Some(AnimalVariant::Horse), None, None] },
            Variant::FeedingTrough => VariantData { health: 25, spawn_count: 2, guaranteed_spawns: [Some(AnimalVariant::Horse), None, None] },
            Variant::FenceH => VariantData { health: 0, spawn_count: 0, guaranteed_spawns: [None, None, None] },
            Variant::FenceV => VariantData { health: 0, spawn_count: 0, guaranteed_spawns: [None, None, None] },
            Variant::Garage => VariantData { health: 10, spawn_count: 2, guaranteed_spawns: [Some(AnimalVariant::Snake), None, None] },
            Variant::HayBaleH => VariantData { health: 10, spawn_count: 1, guaranteed_spawns: [Some(AnimalVariant::Rabbit), None, None] },
            Variant::HayBaleV => VariantData { health: 10, spawn_count: 1, guaranteed_spawns: [Some(AnimalVariant::Cat), None, None] },
            Variant::HorseCrossingSign => VariantData { health: 25, spawn_count: 1, guaranteed_spawns: [Some(AnimalVariant::Horse), None, None] },
            Variant::House1 => VariantData { health: 100, spawn_count: 2, guaranteed_spawns: [Some(AnimalVariant::Duck), None, None] },
            Variant::House2 => VariantData { health: 100, spawn_count: 2, guaranteed_spawns: [Some(AnimalVariant::Cat), None, None] },
            Variant::OilBarrel => VariantData { health: 100, spawn_count: 2, guaranteed_spawns: [Some(AnimalVariant::Kuma), None, None] },
            Variant::Outhouse => VariantData { health: 10, spawn_count: 1, guaranteed_spawns: [Some(AnimalVariant::Poop), None, None] },
            Variant::Portapotty => VariantData { health: 10, spawn_count: 1, guaranteed_spawns: [Some(AnimalVariant::Poop), None, None] },
            Variant::Stable => VariantData { health: 10, spawn_count: 2, guaranteed_spawns: [Some(AnimalVariant::Horse), None, None] },
            Variant::StableDouble => VariantData { health: 100, spawn_count: 3, guaranteed_spawns: [Some(AnimalVariant::Horse), Some(AnimalVariant::Horse), None] },
            Variant::StableWide => VariantData { health: 100, spawn_count: 3, guaranteed_spawns: [Some(AnimalVariant::Horse), Some(AnimalVariant::Horse), None] },
            Variant::StopSign => VariantData { health: 10, spawn_count: 2, guaranteed_spawns: [Some(AnimalVariant::Dog), None, None] },
            Variant::YieldSign => VariantData { health: 10, spawn_count: 1, guaranteed_spawns: [Some(AnimalVariant::Cat), None, None] },
        }
    }
}

/// How many entries of `s` come before its first empty one.
pub open spec fn leading_spawns(s: Seq<Option<AnimalVariant>>) -> nat
    decreases s.len(),
{
    if s.len() == 0 || s[0] is None {
        0
    } else {
        1 + leading_spawns(s.drop_first())
    }
}

/// What a destroyed building releases: its guaranteed variants up to the
/// first empty entry, then random ones (`None`) until `count` is reached.
pub open spec fn spec_spawn_plan(g: Seq<Option<AnimalVariant>>, count: u8) -> Seq<
    Option<AnimalVariant>,
> {
    let n = leading_spawns(g);
    g.take(n as int) + Seq::new(
        if count > n {
            (count - n) as nat
        } else {
            0
        },
        |_i: int| None,
    )
}

proof fn lemma_leading_spawns(s: Seq<Option<AnimalVariant>>, i: int)
    requires
        0 <= i <= s.len(),
        forall|j: int| 0 <= j < i ==> s[j] is Some,
        i == s.len() || s[i] is None,
    ensures
        leading_spawns(s) == i,
    decreases i,
{
    if i > 0 {
        lemma_leading_spawns(s.drop_first(), i - 1);
    }
}

/// Where a building is in its life.
pub enum Status {
    Indestructible,
    Destructible { health: Health },
    /// Destroyed and fading out for `fade_timer` more milliseconds.
    Destroyed { fade_timer: u32 },
    /// Faded out and queued for deletion.
    Removed,
}

impl Status {
    /// The status after a hit of `amount`, and whether that hit destroyed
    /// the building.
    pub open spec fn spec_damaged(self, amount: u8) -> (Status, bool) {
        match self {
            Status::Destructible { health } => {
                let h = health.spec_damaged(amount as u16);
                if h.health == 0 {
                    (Status::Destroyed { fade_timer: FADE_MS }, true)
                } else {
                    (Status::Destructible { health: h }, false)
                }
            },
            _ => (self, false),
        }
    }

    /// The status after `delta` milliseconds, and whether the fade ended
    /// in them.
    pub open spec fn spec_updated(self, delta: u32) -> (Status, bool) {
        match self {
            Status::Destructible { health } => (
                Status::Destructible { health: health.spec_updated(delta) },
                false,
            ),
            Status::Destroyed { fade_timer } => if delta > fade_timer {
                (Status::Removed, true)
            } else {
                (Status::Destroyed { fade_timer: (fade_timer - delta) as u32 }, false)
            },
            _ => (self, false),
        }
    }
}

/// A building, its physics collider and what it releases when destroyed.
pub struct Building {
    pub idx: GenerationalIndex,
    pub handle: StaticHandle,
    pub variant: Variant,
    pub status: Status,
    pub spawn_count: u8,
    pub guaranteed_spawns: [Option<AnimalVariant>; 3],
}

impl Building {
    /// A building of `variant` whose entity index is `idx` and whose
    /// collider is `handle`.
    pub fn new(variant: Variant, idx: GenerationalIndex, handle: StaticHandle) -> (r: Self)
        ensures
            r.idx == idx,
            r.handle == handle,
            r.variant == variant,
            r.spawn_count == variant.spec_data().spawn_count,
            r.guaranteed_spawns == variant.spec_data().guaranteed_spawns,
            r.status == if variant.spec_data().health == 0 {
                Status::Indestructible
            } else {
                Status::Destructible {
                    health: Health {
                        health: variant.spec_data().health as u16,
                        max_health: variant.spec_data().health as u16,
                        timer: 0,
                    },
                }
            },
    {
        let data = variant.to_data();
        let status = if data.health == 0 {
            Status::Indestructible
        } else {
            Status::Destructible { health: Health::new(data.health as u16) }
        };
        Building {
            idx,
            handle,
            variant,
            status,
            spawn_count: data.spawn_count,
            guaranteed_spawns: data.guaranteed_spawns,
        }
    }

    /// Applies a hit of `damage`; returns whether it destroyed the building.
    pub fn damage(&mut self, damage: u8) -> (r: bool)
        ensures
            (final(self).status, r) == old(self).status.spec_damaged(damage),
            final(self).idx == old(self).idx,
            final(self).handle == old(self).handle,
            final(self).variant == old(self).variant,
            final(self).spawn_count == old(self).spawn_count,
            final(self).guaranteed_spawns == old(self).guaranteed_spawns,
    {
        match &mut self.status {
            Status::Destructible { health } => {
                health.damage(damage as u16);
                if health.is_empty() {
                    self.status = Status::Destroyed { fade_timer: FADE_MS };
                    return true;
                }
            },
            _ => {},
        }
        false
    }

    /// The animals this building releases when it goes: each entry is a
    /// variant, or `None` for one to draw at random.
    pub fn spawn_plan(&self) -> (r: Vec<Option<AnimalVariant>>)
        ensures
            r@ == spec_spawn_plan(self.guaranteed_spawns@, self.spawn_count),
    {
        let g = &self.guaranteed_spawns;
        let mut out: Vec<Option<AnimalVariant>> = Vec::new();
        let mut i: usize = 0;
        while i < 3
            invariant
                i <= 3,
                g@.len() == 3,
                out@ == g@.take(i as int),
                forall|j: int| 0 <= j < i ==> g@[j] is Some,
            ensures
                i <= 3,
                out@ == g@.take(i as int),
                forall|j: int| 0 <= j < i ==> g@[j] is Some,
                i == 3 || g@[i as int] is None,
            decreases 3 - i,
        {
            if g[i].is_none() {
                break;
            }
            out.push(g[i]);
            assert(g@.take(i + 1) =~= g@.take(i as int).push(g@[i as int]));
            i = i + 1;
        }
        proof {
            lemma_leading_spawns(g@, i as int);
        }
        let lead = i;
        let mut remaining: usize = if (self.spawn_count as usize) > lead {
            self.spawn_count as usize - lead
        } else {
            0
        };
        let ghost target = spec_spawn_plan(g@, self.spawn_count);
        let ghost fill = Seq::new(remaining as nat, |_i: int| None::<AnimalVariant>);
        assert(target =~= g@.take(lead as int) + fill);
        while remaining > 0
            invariant
                out@ + Seq::new(remaining as nat, |_i: int| None::<AnimalVariant>) =~= target,
            decreases remaining,
        {
            out.push(None);
            remaining = remaining - 1;
        }
        assert(Seq::new(0nat, |_i: int| None::<AnimalVariant>) =~= Seq::<Option<AnimalVariant>>::empty());
        out
    }

    /// Lets `delta` milliseconds pass. When a destroyed building's fade
    /// ends, its index goes onto `deleted` and the animals it releases are
    /// returned; its collider is then the caller's to remove.
    pub fn update(&mut self, delta: u32, deleted: &mut Vec<GenerationalIndex>) -> (r: Option<
        Vec<Option<AnimalVariant>>,
    >)
        ensures
            (final(self).status, r is Some) == old(self).status.spec_updated(delta),
            r is Some ==> r->Some_0@ == spec_spawn_plan(
                old(self).guaranteed_spawns@,
                old(self).spawn_count,
            ) && final(deleted)@ == old(deleted)@.push(old(self).idx),
            r is None ==> final(deleted)@ == old(deleted)@,
            final(self).idx == old(self).idx,
            final(self).handle == old(self).handle,
            final(self).variant == old(self).variant,
            final(self).spawn_count == old(self).spawn_count,
            final(self).guaranteed_spawns == old(self).guaranteed_spawns,
    {
        match &mut self.status {
            Status::Destructible { health } => {
                health.update(delta);
                None
            },
            Status::Destroyed { fade_timer } => {
                if delta > *fade_timer {
                    self.status = Status::Removed;
                    deleted.push(self.idx);
                    Some(self.spawn_plan())
                } else {
                    *fade_timer = *fade_timer - delta;
                    None
                }
            },
            _ => None,
        }
    }
}

proof fn lemma_leading_spawns_bound(s: Seq<Option<AnimalVariant>>)
    ensures
        leading_spawns(s) <= s.len(),
        forall|j: int| 0 <= j < leading_spawns(s) ==> s[j] is Some,
    decreases s.len(),
{
    if s.len() > 0 && s[0] is Some {
        lemma_leading_spawns_bound(s.drop_first());
        assert forall|j: int| 0 <= j < leading_spawns(s) implies s[j] is Some by {
            if j > 0 {
                assert(s[j] == s.drop_first()[j - 1]);
            }
        }
    }
}

/// A destroyed building whose guaranteed variants number no more than its
/// spawn count releases exactly that many animals: the guaranteed variants
/// first, in order, then one random variant for each place left.
pub proof fn lemma_spawn_accounting(g: Seq<Option<AnimalVariant>>, count: u8)
    requires
        leading_spawns(g) <= count,
    ensures
        spec_spawn_plan(g, count).len() == count,
        forall|j: int|
            0 <= j < leading_spawns(g) ==> #[trigger] spec_spawn_plan(g, count)[j] == g[j]
                && g[j] is Some,
        forall|j: int|
            leading_spawns(g) <= j < count ==> #[trigger] spec_spawn_plan(g, count)[j] is None,
{
    lemma_leading_spawns_bound(g);
}

/// A building is destroyed by at most one hit: once a hit has destroyed it,
/// further hits change nothing and report no destruction.
pub proof fn lemma_destroyed_once(s: Status, a: u8, b: u8)
    requires
        s.spec_damaged(a).1,
    ensures
        s.spec_damaged(a).0.spec_damaged(b) == (s.spec_damaged(a).0, false),
        s.spec_damaged(a).0 == (Status::Destroyed { fade_timer: FADE_MS }),
{
}

/// A building's fade ends at most once: after the update in which it ends,
/// no later update ends it again.
pub proof fn lemma_removed_once(s: Status, d1: u32, d2: u32)
    requires
        s.spec_updated(d1).1,
    ensures
        s.spec_updated(d1).0 == Status::Removed,
        s.spec_updated(d1).0.spec_updated(d2) == (Status::Removed, false),
{
}

} // verus!
