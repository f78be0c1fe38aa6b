use deathball::entities::{Entities, GenerationalIndex};

#[test]
fn should_allow_adding_and_indexing_entities() {
    let mut ent: Entities<u8, 1> = Entities::new();
    let a = ent.push(|_| 1);
    let b = ent.push(|_| 2);
    let c = ent.push(|_| 3);

    assert_eq!(*ent.get(a), 1);
    assert_eq!(*ent.get(b), 2);
    assert_eq!(*ent.get(c), 3);
}

#[test]
fn should_allow_iterating_over_entities() {
    let mut ent: Entities<u8, 1> = Entities::new();
    ent.push(|_| 1);
    ent.push(|_| 2);
    ent.push(|_| 3);

    assert_eq!(ent.values(), vec![&1, &2, &3]);
}

#[test]
fn should_skip_holes_when_iterating() {
    let mut ent: Entities<u8, 1> = Entities::new();
    ent.push(|_| 1);
    let b = ent.push(|_| 2);
    ent.push(|_| 3);
    let d = ent.push(|_| 4);
    ent.push(|_| 5);

    ent.remove(b);
    ent.remove(d);

    assert_eq!(ent.values(), vec![&1, &3, &5]);
}

#[test]
fn should_reuse_holes_when_inserting() {
    let mut ent: Entities<u8, 1> = Entities::new();
    ent.push(|_| 1);
    let b = ent.push(|_| 2);
    ent.push(|_| 3);
    let d = ent.push(|_| 4);
    ent.push(|_| 5);

    ent.remove(b);
    ent.remove(d);

    ent.push(|_| 6);
    ent.push(|_| 7);

    assert_eq!(ent.values(), vec![&1, &6, &3, &7, &5]);
}

#[test]
fn should_return_a_different_index_for_reused_holes() {
    let mut ent: Entities<u8, 1> = Entities::new();
    ent.push(|_| 1);

    let old = ent.push(|_| 2);
    ent.remove(old);

    let new = ent.push(|_| 3);

    assert_eq!(ent.values(), vec![&1, &3]);
    assert_eq!(old.index(), new.index());
    assert_ne!(old.generation(), new.generation());
    assert_ne!(old, new);
}

#[test]
fn should_allow_converting_indexes_to_and_from_u128() {
    let mut ent: Entities<u8, 1> = Entities::new();
    let a = ent.push(|_| 1);
    let b = ent.push(|_| 2);
    let c = ent.push(|_| 3);

    assert_eq!(a, GenerationalIndex::from_u128(a.to_u128()));
    assert_eq!(b, GenerationalIndex::from_u128(b.to_u128()));
    assert_eq!(c, GenerationalIndex::from_u128(c.to_u128()));
}

#[test]
fn pushed_indices_carry_group_generation_and_slot() {
    let mut ent: Entities<u8, 7> = Entities::new();
    let a = ent.push(|_| 1);
    let b = ent.push(|_| 2);
    assert_eq!(a.group(), 7);
    assert_eq!(a.generation(), 0);
    assert_eq!(a.index(), 0);
    assert_eq!(b.index(), 1);
    assert_eq!(a.to_u128(), (7u128 << 120) | 0);
    assert_eq!(b.to_u128(), (7u128 << 120) | 1);
}

#[test]
fn constructor_sees_its_own_index() {
    let mut ent: Entities<GenerationalIndex, 2> = Entities::new();
    let a = ent.push(|idx| idx);
    ent.remove(a);
    let b = ent.push(|idx| idx);
    assert_eq!(*ent.get(b), b);
    assert_eq!(b.generation(), 1);
}

#[test]
fn round_trip_of_arbitrary_packed_values() {
    for num in [0u128, 1, u128::MAX, 0x0500_0000_0000_0003_0000_0000_0000_0009] {
        assert_eq!(GenerationalIndex::from_u128(num).to_u128(), num);
    }
    let idx = GenerationalIndex::new(4, 12, 9);
    assert_eq!(idx.group(), 4);
    assert_eq!(idx.generation(), 12);
    assert_eq!(idx.index(), 9);
    assert_eq!(GenerationalIndex::from_u128(idx.to_u128()), idx);
}

#[test]
fn with_group_keeps_slot_and_generation() {
    let idx = GenerationalIndex::new(3, 41, 6);
    let other = idx.with_group(4);
    assert_eq!(other.group(), 4);
    assert_eq!(other.generation(), 41);
    assert_eq!(other.index(), 6);
    assert_ne!(idx, other);
    assert_eq!(other.with_group(3), idx);
}

#[test]
fn single_index_is_group_zero() {
    let idx = GenerationalIndex::single(0);
    assert_eq!(idx.group(), 0);
    assert_eq!(idx.generation(), 0);
    assert_eq!(idx.to_u128(), 0);
    assert_eq!(idx, deathball::groups::death_ball());
}

#[test]
fn foreign_group_index_is_not_found() {
    let mut ent_a: Entities<u8, 1> = Entities::new();
    let mut ent_b: Entities<u8, 2> = Entities::new();
    let idx = ent_a.push(|_| 1);
    let own = ent_b.push(|_| 1);
    assert_eq!(idx.index(), own.index());
    assert!(!ent_b.contains(idx));
    assert_eq!(ent_b.try_get(idx), None);
    assert_eq!(ent_b.try_get(own), Some(&1));
}

#[test]
fn stale_index_is_not_found_after_reuse() {
    let mut ent: Entities<u8, 1> = Entities::new();
    let a = ent.push(|_| 1);
    ent.remove(a);
    assert!(!ent.contains(a));
    let b = ent.push(|_| 2);
    assert_eq!(a.index(), b.index());
    assert_eq!(ent.try_get(a), None);
    assert_eq!(ent.try_get(b), Some(&2));
    // removing the stale index leaves the new entity in place
    ent.remove(a);
    assert_eq!(ent.values(), vec![&2]);
}

#[test]
fn free_slots_are_reused_oldest_first() {
    let mut ent: Entities<u8, 1> = Entities::new();
    let a = ent.push(|_| 1);
    let b = ent.push(|_| 2);
    let c = ent.push(|_| 3);
    ent.remove(c);
    ent.remove(a);
    let d = ent.push(|_| 4);
    let e = ent.push(|_| 5);
    let f = ent.push(|_| 6);
    assert_eq!(d.index(), c.index());
    assert_eq!(e.index(), a.index());
    assert_eq!(f.index(), 3);
    assert_eq!(f.generation(), 0);
    assert_eq!(ent.values(), vec![&5, &2, &4, &6]);
    assert_eq!(ent.indices(), vec![e, b, d, f]);
}

#[test]
fn iterator_yields_live_values_then_none() {
    let mut ent: Entities<u8, 1> = Entities::new();
    let a = ent.push(|_| 10);
    ent.push(|_| 20);
    ent.push(|_| 30);
    ent.remove(a);
    let mut it = ent.iter();
    assert_eq!(it.next(), Some(&20));
    assert_eq!(it.next(), Some(&30));
    assert_eq!(it.next(), None);
    assert_eq!(it.next(), None);
}

#[test]
fn get_mut_changes_only_its_entity() {
    let mut ent: Entities<u8, 1> = Entities::new();
    let a = ent.push(|_| 1);
    let b = ent.push(|_| 2);
    *ent.get_mut(b) = 9;
    assert_eq!(*ent.get(a), 1);
    assert_eq!(*ent.get(b), 9);
}

#[test]
fn remove_each_takes_only_its_group() {
    let mut ent: Entities<u8, 1> = Entities::new();
    let a = ent.push(|_| 1);
    let b = ent.push(|_| 2);
    let foreign = GenerationalIndex::new(2, 0, 0);
    ent.remove_each(&vec![foreign, b]);
    assert_eq!(ent.values(), vec![&1]);
    assert!(ent.contains(a));
    assert!(!ent.contains(b));
}

#[test]
fn empty_store_yields_nothing() {
    let ent: Entities<u8, 1> = Entities::new();
    assert!(ent.values().is_empty());
    assert!(ent.indices().is_empty());
}
