//! The group tags that partition entity collections.
//!
//! A physics event names its two colliders by generational index; the group
//! of each index tells the dispatcher which collection it belongs to.

use vstd::prelude::*;

use crate::entities::GenerationalIndex;

verus! {

pub const ANIMAL: u8 = 1;

pub const BUILDING: u8 = 2;

pub const ENEMY: u8 = 3;

pub const ENEMY_ATTACK: u8 = 4;

pub const HIT_EFFECT: u8 = 5;

/// The index of the one death ball: group 0, generation 0, slot 0.
pub open spec fn spec_death_ball() -> GenerationalIndex {
    GenerationalIndex::spec_new(0, 0, 0)
}

pub fn death_ball() -> (r: GenerationalIndex)
    ensures
        r == spec_death_ball(),
        r.spec_group() == 0,
        r.spec_generation() == 0,
        r.spec_index() == 0,
{
    GenerationalIndex::new(0, 0, 0)
}

} // verus!
