//! Animals: the death ball's followers and its ammunition.

use vstd::prelude::*;

use crate::physics::DynamicHandle;

verus! {

/// How many animal variants there are.
pub const VARIANT_COUNT: usize = 13;

#[derive(Clone, Copy, Debug, PartialEq, Eq, Structural)]
pub enum Variant {
    Cat,
    Dog,
    Duck,
    Horse,
    Kuma,
    Loaf,
    Mouse,
    Poop,
    Rabbit,
    RubberDucky,
    Snail,
    Snake,
    Turtle,
}

impl Variant {
    /// The damage an animal of this variant deals on contact.
    pub open spec fn spec_damage(self) -> u8 {
        match self {
            Variant::Cat => 3,
            Variant::Dog => 3,
            Variant::Duck => 2,
            Variant::Horse => 1,
            Variant::Kuma => 4,
            Variant::Loaf => 5,
            Variant::Mouse => 2,
            Variant::Poop => 0,
            Variant::Rabbit => 1,
            Variant::RubberDucky => 50,
            Variant::Snail => 1,
            Variant::Snake => 3,
            Variant::Turtle => 2,
        }
    }

    /// The variant at position `i` of the variant list.
    pub open spec fn spec_from_index(i: usize) -> Variant {
        match i {
            0 => Variant::Cat,
            1 => Variant::Dog,
            2 => Variant::Duck,
            3 => Variant::Horse,
            4 => Variant::Kuma,
            5 => Variant::Loaf,
            6 => Variant::Mouse,
            7 => Variant::Poop,
            8 => Variant::Rabbit,
            9 => Variant::RubberDucky,
            10 => Variant::Snail,
            11 => Variant::Snake,
            _ => Variant::Turtle,
        }
    }

    pub fn damage(self) -> (r: u8)
        ensures
            r == self.spec_damage(),
    {
        match self {
            Variant::Cat => 3,
            Variant::Dog => 3,
            Variant::Duck => 2,
            Variant::Horse => 1,
            Variant::Kuma => 4,
            Variant::Loaf => 5,
            Variant::Mouse => 2,
            Variant::Poop => 0,
            Variant::Rabbit => 1,
            Variant::RubberDucky => 50,
            Variant::Snail => 1,
            Variant::Snake => 3,
            Variant::Turtle => 2,
        }
    }

    pub fn from_index(i: usize) -> (r: Variant)
        requires
            i < VARIANT_COUNT,
        ensures
            r == Self::spec_from_index(i),
    {
        match i {
            0 => Variant::Cat,
            1 => Variant::Dog,
            2 => Variant::Duck,
            3 => Variant::Horse,
            4 => Variant::Kuma,
            5 => Variant::Loaf,
            6 => Variant::Mouse,
            7 => Variant::Poop,
            8 => Variant::Rabbit,
            9 => Variant::RubberDucky,
            10 => Variant::Snail,
            11 => Variant::Snake,
            _ => Variant::Turtle,
        }
    }

    /// A variant drawn at random.
    pub fn random() -> (r: Variant)
        ensures
            exists|i: usize| i < VARIANT_COUNT && r == Self::spec_from_index(i),
    {
        let i = random_below(VARIANT_COUNT);
        Self::from_index(i)
    }
}

/// Relies on quad_rand::gen_range (re-exported by macroquad as `rand`): for
/// an integer range `[0, n)` it scales a uniform draw in `[0, 1)` by `n` and
/// truncates, so the result is below `n`.
#[verifier::external_body]
pub(crate) fn random_below(n: usize) -> (r: usize)
    requires
        0 < n <= 65536,
    ensures
        r < n,
{
    quad_rand::gen_range(0, n)
}

/// An animal: the damage it deals and whether it follows the death ball.
pub struct Animal {
    pub handle: DynamicHandle,
    pub variant: Variant,
    pub damage: u8,
    pub is_affected_by_death_ball: bool,
}

impl Animal {
    /// A new animal, not yet following the death ball, on the dynamic body
    /// `handle`.
    pub fn new(variant: Variant, handle: DynamicHandle) -> (r: Self)
        ensures
            r.handle == handle,
            r.variant == variant,
            r.damage == variant.spec_damage(),
            !r.is_affected_by_death_ball,
    {
        Animal { handle, variant, damage: variant.damage(), is_affected_by_death_ball: false }
    }

    /// A new animal of a variant drawn at random.
    pub fn random(handle: DynamicHandle) -> (r: Self)
        ensures
            r.handle == handle,
            r.damage == r.variant.spec_damage(),
            !r.is_affected_by_death_ball,
    {
        Self::new(Variant::random(), handle)
    }

    pub fn handle(&self) -> (r: DynamicHandle)
        ensures
            r == self.handle,
    {
        self.handle
    }

    pub fn variant(&self) -> (r: Variant)
        ensures
            r == self.variant,
    {
        self.variant
    }

    /// The body to steer towards the death ball this frame, if the animal
    /// follows it.
    pub fn update(&self) -> (r: Option<DynamicHandle>)
        ensures
            r == if self.is_affected_by_death_ball {
                Some(self.handle)
            } else {
                None
            },
    {
        if self.is_affected_by_death_ball {
            Some(self.handle)
        } else {
            None
        }
    }
}

} // verus!
