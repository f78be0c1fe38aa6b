//! A typed slot map addressed by generational indices.

use std::collections::VecDeque;

use vstd::prelude::*;

verus! {

/// Largest generation a slot can carry: generations live in the low 56 bits.
pub const GENERATION_MASK: u64 = 0x00ff_ffff_ffff_ffff;

/// The identity of an entity: the group of the collection that owns it, the
/// generation of its slot and the slot's position.
///
/// The group sits in the top 8 bits of `generation`, so that the whole index
/// packs into one `u128`.
#[derive(Clone, Copy, Debug, PartialEq, Eq, Structural)]
pub struct GenerationalIndex {
    generation: u64,
    index: u64,
}

impl GenerationalIndex {
    /// The group tag (top 8 bits).
    pub closed spec fn spec_group(self) -> u8 {
        (self.generation >> 56u64) as u8
    }

    /// The slot generation (low 56 bits).
    pub closed spec fn spec_generation(self) -> u64 {
        self.generation & GENERATION_MASK
    }

    pub closed spec fn spec_index(self) -> u64 {
        self.index
    }

    /// The index with these three parts.
    pub closed spec fn spec_new(group: u8, generation: u64, index: u64) -> Self {
        GenerationalIndex { generation: ((group as u64) << 56u64) | generation, index }
    }

    pub proof fn lemma_spec_new(group: u8, generation: u64, index: u64)
        requires
            generation <= GENERATION_MASK,
        ensures
            Self::spec_new(group, generation, index).spec_group() == group,
            Self::spec_new(group, generation, index).spec_generation() == generation,
            Self::spec_new(group, generation, index).spec_index() == index,
    {
        let g = ((group as u64) << 56u64) | generation;
        assert(((g >> 56u64) as u8) == group && (g & GENERATION_MASK) == generation) by (bit_vector)
            requires
                g == ((group as u64) << 56u64) | generation,
                generation <= 0x00ff_ffff_ffff_ffffu64,
        ;
    }

    /// The packed form: generation word above, slot word below.
    pub closed spec fn spec_to_u128(self) -> u128 {
        ((self.generation as u128) << 64u128) | (self.index as u128)
    }

    /// An index of group 0, generation 0 (used for singleton entities).
    pub fn single(index: usize) -> (r: Self)
        ensures
            r.spec_group() == 0,
            r.spec_generation() == 0,
            r.spec_index() == index as u64,
    {
        assert(((0u64 >> 56u64) as u8) == 0u8 && (0u64 & 0x00ff_ffff_ffff_ffffu64) == 0u64)
            by (bit_vector);
        GenerationalIndex { generation: 0, index: index as u64 }
    }

    pub fn new(group: u8, generation: u64, index: usize) -> (r: Self)
        requires
            generation <= GENERATION_MASK,
        ensures
            r == Self::spec_new(group, generation, index as u64),
            r.spec_group() == group,
            r.spec_generation() == generation,
            r.spec_index() == index as u64,
    {
        let g = ((group as u64) << 56u64) | generation;
        assert(((g >> 56u64) as u8) == group && (g & GENERATION_MASK) == generation) by (bit_vector)
            requires
                g == ((group as u64) << 56u64) | generation,
                generation <= 0x00ff_ffff_ffff_ffffu64,
        ;
        GenerationalIndex { generation: g, index: index as u64 }
    }

    pub fn group(&self) -> (r: u8)
        ensures
            r == self.spec_group(),
    {
        (self.generation >> 56u64) as u8
    }

    pub fn generation(&self) -> (r: u64)
        ensures
            r == self.spec_generation(),
            r <= GENERATION_MASK,
    {
        let g = self.generation;
        assert((g & 0x00ff_ffff_ffff_ffffu64) <= 0x00ff_ffff_ffff_ffffu64) by (bit_vector);
        g & GENERATION_MASK
    }

    pub fn index(&self) -> (r: u64)
        ensures
            r == self.spec_index(),
    {
        self.index
    }

    /// The same slot and generation under another group tag.
    pub fn with_group(&self, group: u8) -> (r: Self)
        ensures
            r == Self::spec_new(group, self.spec_generation(), self.spec_index()),
            r.spec_group() == group,
            r.spec_generation() == self.spec_generation(),
            r.spec_index() == self.spec_index(),
    {
        let g = self.generation;
        assert(((g & 0x00ff_ffff_ffff_ffffu64) | ((group as u64) << 56u64)) == (((group as u64)
            << 56u64) | (g & 0x00ff_ffff_ffff_ffffu64))) by (bit_vector);
        let n = (g & GENERATION_MASK) | ((group as u64) << 56u64);
        assert(((n >> 56u64) as u8) == group && (n & GENERATION_MASK) == (g & GENERATION_MASK))
            by (bit_vector)
            requires
                n == (g & 0x00ff_ffff_ffff_ffffu64) | ((group as u64) << 56u64),
        ;
        GenerationalIndex { generation: n, index: self.index }
    }

    /// The index packed into `num`.
    pub closed spec fn spec_from_u128(num: u128) -> Self {
        GenerationalIndex { generation: (num >> 64u128) as u64, index: num as u64 }
    }

    /// Reading an index out of `num` and packing it again gives `num`.
    pub proof fn lemma_from_u128_packs(num: u128)
        ensures
            Self::spec_from_u128(num).spec_to_u128() == num,
    {
        let generation = (num >> 64u128) as u64;
        let index = num as u64;
        assert((((generation as u128) << 64u128) | (index as u128)) == num) by (bit_vector)
            requires
                generation == (num >> 64u128) as u64,
                index == num as u64,
        ;
    }

    /// Two indices are equal exactly when group, generation and slot agree.
    pub proof fn lemma_eq_parts(a: Self, b: Self)
        ensures
            (a == b) <==> (a.spec_group() == b.spec_group() && a.spec_generation()
                == b.spec_generation() && a.spec_index() == b.spec_index()),
    {
        let (ga, gb) = (a.generation, b.generation);
        assert(((ga >> 56u64) as u8 == (gb >> 56u64) as u8 && (ga & 0x00ff_ffff_ffff_ffffu64)
            == (gb & 0x00ff_ffff_ffff_ffffu64)) ==> ga == gb) by (bit_vector);
    }

    /// Packing an index into a `u128` and reading it back gives the same index.
    pub proof fn lemma_u128_round_trip(idx: Self)
        ensures
            Self::spec_from_u128(idx.spec_to_u128()) == idx,
    {
        let (g, i) = (idx.generation, idx.index);
        assert((((((g as u128) << 64u128) | (i as u128)) >> 64u128) as u64) == g
            && ((((g as u128) << 64u128) | (i as u128)) as u64) == i) by (bit_vector);
    }

    pub fn to_u128(self) -> (r: u128)
        ensures
            r == self.spec_to_u128(),
    {
        ((self.generation as u128) << 64u128) | (self.index as u128)
    }

    pub fn from_u128(num: u128) -> (r: Self)
        ensures
            r == Self::spec_from_u128(num),
            r.spec_to_u128() == num,
    {
        let generation = (num >> 64u128) as u64;
        let index = num as u64;
        assert((((generation as u128) << 64u128) | (index as u128)) == num) by (bit_vector)
            requires
                generation == (num >> 64u128) as u64,
                index == num as u64,
        ;
        GenerationalIndex { generation, index }
    }
}


/// One position of the store: the generation it is at and what it holds.
pub struct Slot<T> {
    pub generation: u64,
    pub value: Option<T>,
}

/// What one slot contributes to iteration: its value, if it holds one.
pub open spec fn slot_values<T>(slot: Slot<T>) -> Seq<T> {
    match slot.value {
        Some(v) => seq![v],
        None => Seq::empty(),
    }
}

/// The values held by the occupied slots of `s`, in slot order.
pub open spec fn live_values<T>(s: Seq<Slot<T>>) -> Seq<T>
    decreases s.len(),
{
    if s.len() == 0 {
        Seq::empty()
    } else {
        live_values(s.drop_last()) + slot_values(s.last())
    }
}

/// Iteration may equally be read from the front.
pub proof fn lemma_live_values_front<T>(s: Seq<Slot<T>>)
    requires
        s.len() > 0,
    ensures
        live_values(s) == slot_values(s[0]) + live_values(s.drop_first()),
    decreases s.len(),
{
    if s.len() == 1 {
        assert(s.drop_first() =~= Seq::<Slot<T>>::empty());
        assert(s.drop_last() =~= Seq::<Slot<T>>::empty());
        assert(live_values(s) =~= slot_values(s[0]));
    } else {
        lemma_live_values_front(s.drop_last());
        assert(s.drop_first().drop_last() =~= s.drop_last().drop_first());
        assert(s.drop_first().last() == s.last());
        assert(s.drop_last()[0] == s[0]);
        assert(live_values(s) =~= slot_values(s[0]) + live_values(s.drop_first()));
    }
}

/// The generational indices of the occupied slots of `s`, in slot order.
pub open spec fn live_indices<T>(group: u8, s: Seq<Slot<T>>) -> Seq<GenerationalIndex>
    decreases s.len(),
{
    if s.len() == 0 {
        Seq::empty()
    } else {
        let rest = live_indices(group, s.drop_last());
        match s.last().value {
            Some(v) => rest.push(
                GenerationalIndex::spec_new(group, s.last().generation, (s.len() - 1) as u64),
            ),
            None => rest,
        }
    }
}

/// Slots and free queue after removing `idx`: a live index empties its slot
/// and joins the back of the queue; any other index changes nothing.
pub open spec fn spec_remove<T>(
    group: u8,
    slots: Seq<Slot<T>>,
    free: Seq<GenerationalIndex>,
    idx: GenerationalIndex,
) -> (Seq<Slot<T>>, Seq<GenerationalIndex>) {
    let i = idx.spec_index() as int;
    if idx.spec_group() == group && i < slots.len() && slots[i].generation
        == idx.spec_generation() && slots[i].value is Some {
        (slots.update(i, Slot { generation: idx.spec_generation(), value: None }), free.push(idx))
    } else {
        (slots, free)
    }
}

/// Slots and free queue after removing, in order, each entry of `idxs` that
/// belongs to `group`.
pub open spec fn spec_remove_each<T>(
    group: u8,
    slots: Seq<Slot<T>>,
    free: Seq<GenerationalIndex>,
    idxs: Seq<GenerationalIndex>,
) -> (Seq<Slot<T>>, Seq<GenerationalIndex>)
    decreases idxs.len(),
{
    if idxs.len() == 0 {
        (slots, free)
    } else {
        let (s, f) = spec_remove_each(group, slots, free, idxs.drop_last());
        spec_remove(group, s, f, idxs.last())
    }
}

/// A collection of entities of one group, addressed by generational indices.
///
/// Removed slots go to the back of a queue of free slots and are handed out
/// again, oldest first, with their generation advanced.
pub struct Entities<T, const GROUP: u8> {
    slots: Vec<Slot<T>>,
    free: VecDeque<GenerationalIndex>,
}

impl<T, const GROUP: u8> Entities<T, GROUP> {
    pub closed spec fn slots(&self) -> Seq<Slot<T>> {
        self.slots@
    }

    /// The queue of reusable slots, front first.
    pub closed spec fn free(&self) -> Seq<GenerationalIndex> {
        self.free@
    }

    pub open spec fn wf(&self) -> bool {
        &&& forall|i: int|
            0 <= i < self.slots().len() ==> #[trigger] self.slots()[i].generation
                <= GENERATION_MASK
        &&& forall|k: int|
            0 <= k < self.free().len() ==> {
                let f = #[trigger] self.free()[k];
                &&& f.spec_group() == GROUP
                &&& f.spec_index() < self.slots().len()
                &&& self.slots()[f.spec_index() as int].value is None
                &&& self.slots()[f.spec_index() as int].generation == f.spec_generation()
            }
        &&& forall|a: int, b: int|
            0 <= a < b < self.free().len() ==> #[trigger] self.free()[a].spec_index()
                != #[trigger] self.free()[b].spec_index()
    }

    /// `idx` names an entity that is in the store now.
    pub open spec fn is_live(&self, idx: GenerationalIndex) -> bool {
        &&& idx.spec_group() == GROUP
        &&& idx.spec_index() < self.slots().len()
        &&& self.slots()[idx.spec_index() as int].generation == idx.spec_generation()
        &&& self.slots()[idx.spec_index() as int].value is Some
    }

    /// The entity that a live `idx` names.
    pub open spec fn value_at(&self, idx: GenerationalIndex) -> T
        recommends
            self.is_live(idx),
    {
        self.slots()[idx.spec_index() as int].value->Some_0
    }

    /// `self` is `other` with only the entity at live `idx` changed (if at
    /// all): same slots elsewhere, same generations, same free queue.
    pub open spec fn changed_only_at(&self, other: &Self, idx: GenerationalIndex) -> bool {
        &&& other.is_live(idx)
        &&& self.is_live(idx)
        &&& self.slots().len() == other.slots().len()
        &&& self.free() == other.free()
        &&& forall|j: int|
            0 <= j < self.slots().len() && j != idx.spec_index() ==> #[trigger] self.slots()[j]
                == other.slots()[j]
    }

    /// The live entities in slot order: what iteration yields.
    pub open spec fn spec_values(&self) -> Seq<T> {
        live_values(self.slots())
    }

    /// Whether the next push reuses a free slot.
    pub open spec fn reuses(&self) -> bool {
        self.free().len() > 0
    }

    /// The slot that the next push fills.
    pub open spec fn next_slot(&self) -> int {
        if self.reuses() {
            self.free()[0].spec_index() as int
        } else {
            self.slots().len() as int
        }
    }

    /// The generation that the next push gives its slot.
    pub open spec fn next_generation(&self) -> u64 {
        if self.reuses() {
            ((self.free()[0].spec_generation() + 1) as u64) & GENERATION_MASK
        } else {
            0
        }
    }

    /// The slots after a push of `v`.
    pub open spec fn slots_after_push(&self, v: T) -> Seq<Slot<T>> {
        let slot = Slot { generation: self.next_generation(), value: Some(v) };
        if self.reuses() {
            self.slots().update(self.next_slot(), slot)
        } else {
            self.slots().push(slot)
        }
    }

    pub fn new() -> (r: Self)
        requires
            GROUP != 0,
        ensures
            r.wf(),
            r.slots().len() == 0,
            r.free().len() == 0,
            r.spec_values().len() == 0,
    {
        Entities { slots: Vec::new(), free: VecDeque::new() }
    }

    /// Stores the entity that `new` builds from its own index, and returns
    /// that index.
    pub fn push<F: FnOnce(GenerationalIndex) -> T>(&mut self, new: F) -> (idx: GenerationalIndex)
        requires
            old(self).wf(),
            old(self).slots().len() < usize::MAX,
            forall|i: GenerationalIndex| call_requires(new, (i,)),
        ensures
            final(self).wf(),
            idx.spec_group() == GROUP,
            idx.spec_index() == old(self).next_slot(),
            idx.spec_generation() == old(self).next_generation(),
            final(self).is_live(idx),
            call_ensures(new, (idx,), final(self).value_at(idx)),
            final(self).slots() == old(self).slots_after_push(final(self).value_at(idx)),
            final(self).free() == if old(self).reuses() {
                old(self).free().drop_first()
            } else {
                old(self).free()
            },
    {
        if self.free.len() > 0 {
            let front = self.free.pop_front();
            let f = front.unwrap();
            let k = f.index() as usize;
            let g = f.generation();
            assert(((g + 1) as u64 & 0x00ff_ffff_ffff_ffffu64) <= 0x00ff_ffff_ffff_ffffu64)
                by (bit_vector)
                requires
                    g <= 0x00ff_ffff_ffff_ffffu64,
            ;
            let idx = GenerationalIndex::new(GROUP, (g + 1) & GENERATION_MASK, k);
            let v = new(idx);
            self.slots.set(k, Slot { generation: (g + 1) & GENERATION_MASK, value: Some(v) });
            proof {
                assert forall|a: int| 0 <= a < self.free().len() implies
                    #[trigger] self.free()[a].spec_index() != k as u64 by {
                    assert(old(self).free()[a + 1].spec_index() != old(self).free()[0].spec_index());
                }
            }
            idx
        } else {
            let k = self.slots.len();
            let idx = GenerationalIndex::new(GROUP, 0, k);
            let v = new(idx);
            self.slots.push(Slot { generation: 0, value: Some(v) });
            idx
        }
    }

    /// Once a removed index stands at the front of the free queue, the next
    /// push takes its slot under another generation, so the index it hands
    /// out differs from the removed one.
    pub proof fn lemma_reuse_changes_generation(&self, a: GenerationalIndex)
        requires
            self.wf(),
            self.free().len() > 0,
            self.free()[0] == a,
        ensures
            self.next_slot() == a.spec_index() as int,
            self.next_generation() != a.spec_generation(),
            GenerationalIndex::spec_new(GROUP, self.next_generation(), self.next_slot() as u64)
                != a,
    {
        let g = a.spec_generation();
        assert(self.free()[0].spec_generation() <= GENERATION_MASK);
        assert(g <= 0x00ff_ffff_ffff_ffffu64 ==> ((g + 1) as u64 & 0x00ff_ffff_ffff_ffffu64) != g
            && ((g + 1) as u64 & 0x00ff_ffff_ffff_ffffu64) <= 0x00ff_ffff_ffff_ffffu64)
            by (bit_vector);
        GenerationalIndex::lemma_spec_new(GROUP, self.next_generation(), self.next_slot() as u64);
    }

    /// An index of another group never names an entity of this store.
    pub proof fn lemma_foreign_group_not_live(&self, idx: GenerationalIndex)
        requires
            idx.spec_group() != GROUP,
        ensures
            !self.is_live(idx),
    {
    }

    /// A pass over the live entities, in slot order.
    pub fn iter(&self) -> (r: EntitiesIter<'_, T>)
        ensures
            r.wf(),
            r.remaining() == self.spec_values(),
    {
        let r = EntitiesIter { slots: &self.slots, pos: 0 };
        assert(self.slots@.skip(0) =~= self.slots@);
        r
    }

    /// The live entities, in slot order.
    pub fn values(&self) -> (r: Vec<&T>)
        ensures
            r@.len() == self.spec_values().len(),
            forall|i: int| 0 <= i < r@.len() ==> *r@[i] == self.spec_values()[i],
    {
        let mut out: Vec<&T> = Vec::new();
        let mut i: usize = 0;
        while i < self.slots.len()
            invariant
                i <= self.slots@.len(),
                out@.len() == live_values(self.slots@.take(i as int)).len(),
                forall|j: int|
                    0 <= j < out@.len() ==> *out@[j] == live_values(self.slots@.take(i as int))[j],
            decreases self.slots@.len() - i,
        {
            assert(self.slots@.take(i + 1).drop_last() =~= self.slots@.take(i as int));
            match &self.slots[i].value {
                Some(v) => {
                    out.push(v);
                },
                None => {},
            }
            i = i + 1;
        }
        assert(self.slots@.take(i as int) =~= self.slots@);
        out
    }

    /// The indices of the live entities, in slot order.
    pub fn indices(&self) -> (r: Vec<GenerationalIndex>)
        requires
            self.wf(),
        ensures
            r@ == live_indices(GROUP, self.slots()),
            forall|i: int| 0 <= i < r@.len() ==> self.is_live(#[trigger] r@[i]),
    {
        let mut out: Vec<GenerationalIndex> = Vec::new();
        let mut i: usize = 0;
        while i < self.slots.len()
            invariant
                self.wf(),
                i <= self.slots@.len(),
                out@ == live_indices(GROUP, self.slots@.take(i as int)),
                forall|j: int| 0 <= j < out@.len() ==> self.is_live(#[trigger] out@[j]),
            decreases self.slots@.len() - i,
        {
            assert(self.slots@.take(i + 1).drop_last() =~= self.slots@.take(i as int));
            if self.slots[i].value.is_some() {
                let idx = GenerationalIndex::new(GROUP, self.slots[i].generation, i);
                out.push(idx);
            }
            i = i + 1;
        }
        assert(self.slots@.take(i as int) =~= self.slots@);
        out
    }

    /// Drops the entity that `idx` names and queues its slot for reuse.
    /// An index that names no live entity leaves the store as it is.
    pub fn remove(&mut self, idx: GenerationalIndex)
        requires
            old(self).wf(),
            idx.spec_group() == GROUP,
        ensures
            final(self).wf(),
            old(self).is_live(idx) ==> {
                &&& final(self).slots() == old(self).slots().update(
                    idx.spec_index() as int,
                    Slot { generation: idx.spec_generation(), value: None },
                )
                &&& final(self).free() == old(self).free().push(idx)
            },
            !old(self).is_live(idx) ==> final(self).slots() == old(self).slots()
                && final(self).free() == old(self).free(),
            (final(self).slots(), final(self).free()) == spec_remove(
                GROUP,
                old(self).slots(),
                old(self).free(),
                idx,
            ),
            !final(self).is_live(idx),
    {
        if self.contains(idx) {
            let k = self.position(idx);
            proof {
                assert forall|a: int| 0 <= a < self.free().len() implies
                    #[trigger] self.free()[a].spec_index() != k as u64 by {
                    let f = self.free()[a];
                    assert(self.slots()[f.spec_index() as int].value is None);
                }
            }
            self.slots.set(k, Slot { generation: idx.generation(), value: None });
            self.free.push_back(idx);
        }
    }

    /// The slot position of an index that falls inside the store.
    fn position(&self, idx: GenerationalIndex) -> (k: usize)
        requires
            idx.spec_index() < self.slots().len(),
        ensures
            k as int == idx.spec_index() as int,
    {
        let n = self.slots.len();
        let i = idx.index();
        assert(i < n as u64);
        i as usize
    }

    /// Removes, in order, each entry of `idxs` that belongs to this store's
    /// group; entries of other groups are passed over.
    pub fn remove_each(&mut self, idxs: &Vec<GenerationalIndex>)
        requires
            old(self).wf(),
        ensures
            final(self).wf(),
            (final(self).slots(), final(self).free()) == spec_remove_each(
                GROUP,
                old(self).slots(),
                old(self).free(),
                idxs@,
            ),
    {
        let mut i: usize = 0;
        while i < idxs.len()
            invariant
                self.wf(),
                i <= idxs@.len(),
                (self.slots(), self.free()) == spec_remove_each(
                    GROUP,
                    old(self).slots(),
                    old(self).free(),
                    idxs@.take(i as int),
                ),
            decreases idxs@.len() - i,
        {
            assert(idxs@.take(i + 1).drop_last() =~= idxs@.take(i as int));
            let idx = idxs[i];
            if idx.group() == GROUP {
                self.remove(idx);
            }
            i = i + 1;
        }
        assert(idxs@.take(i as int) =~= idxs@);
    }

    /// How many slots the store has, free or not.
    pub fn slot_count(&self) -> (r: usize)
        ensures
            r == self.slots().len(),
    {
        self.slots.len()
    }

    /// Whether slot `k` holds an entity.
    pub fn occupied(&self, k: usize) -> (r: bool)
        ensures
            r == (k < self.slots().len() && self.slots()[k as int].value is Some),
    {
        k < self.slots.len() && self.slots[k].value.is_some()
    }

    /// Write access to the entity in slot `k`.
    pub fn get_mut_at(&mut self, k: usize) -> (r: &mut T)
        requires
            old(self).wf(),
            k < old(self).slots().len(),
            old(self).slots()[k as int].value is Some,
        ensures
            *r == old(self).slots()[k as int].value->Some_0,
            final(self).wf(),
            final(self).free() == old(self).free(),
            final(self).slots() == old(self).slots().update(
                k as int,
                Slot { generation: old(self).slots()[k as int].generation, value: Some(*final(r)) },
            ),
    {
        let slot = &mut self.slots[k];
        match &mut slot.value {
            Some(v) => v,
            None => unreached(),
        }
    }

    /// Whether `idx` names an entity that is in the store now.
    pub fn contains(&self, idx: GenerationalIndex) -> (r: bool)
        ensures
            r == self.is_live(idx),
    {
        if idx.group() != GROUP {
            return false;
        }
        let k = idx.index();
        if k >= self.slots.len() as u64 {
            return false;
        }
        let slot = &self.slots[k as usize];
        slot.generation == idx.generation() && slot.value.is_some()
    }

    /// The entity that `idx` names.
    pub fn get(&self, idx: GenerationalIndex) -> (r: &T)
        requires
            self.is_live(idx),
        ensures
            *r == self.value_at(idx),
    {
        let k = self.position(idx);
        let slot = &self.slots[k];
        match &slot.value {
            Some(v) => v,
            None => unreached(),
        }
    }

    /// The entity that `idx` names, or `None` where `idx` belongs to another
    /// group or names no live entity.
    pub fn try_get(&self, idx: GenerationalIndex) -> (r: Option<&T>)
        ensures
            self.is_live(idx) ==> r == Some(&self.value_at(idx)),
            !self.is_live(idx) ==> r is None,
    {
        if self.contains(idx) {
            Some(self.get(idx))
        } else {
            None
        }
    }

    /// Write access to the entity that `idx` names.
    pub fn get_mut(&mut self, idx: GenerationalIndex) -> (r: &mut T)
        requires
            old(self).wf(),
            old(self).is_live(idx),
        ensures
            *r == old(self).value_at(idx),
            final(self).wf(),
            final(self).changed_only_at(old(self), idx),
            final(self).value_at(idx) == *final(r),
            final(self).free() == old(self).free(),
            final(self).slots() == old(self).slots().update(
                idx.spec_index() as int,
                Slot { generation: idx.spec_generation(), value: Some(*final(r)) },
            ),
    {
        let k = self.position(idx);
        let slot = &mut self.slots[k];
        match &mut slot.value {
            Some(v) => v,
            None => unreached(),
        }
    }
}

/// A pass over the live entities of a store, in slot order.
pub struct EntitiesIter<'a, T> {
    slots: &'a Vec<Slot<T>>,
    pos: usize,
}

impl<'a, T> EntitiesIter<'a, T> {
    pub closed spec fn wf(&self) -> bool {
        self.pos <= self.slots@.len()
    }

    /// What the pass has still to yield.
    pub closed spec fn remaining(&self) -> Seq<T> {
        live_values(self.slots@.skip(self.pos as int))
    }

    /// The next live entity, or `None` once the pass is over.
    pub fn next(&mut self) -> (r: Option<&'a T>)
        requires
            old(self).wf(),
        ensures
            final(self).wf(),
            old(self).remaining().len() == 0 ==> r is None && final(self).remaining().len() == 0,
            old(self).remaining().len() > 0 ==> r == Some(&old(self).remaining()[0])
                && final(self).remaining() == old(self).remaining().drop_first(),
    {
        while self.pos < self.slots.len()
            invariant
                self.pos <= self.slots@.len(),
                self.slots == old(self).slots,
                self.remaining() == old(self).remaining(),
            decreases self.slots@.len() - self.pos,
        {
            let p = self.pos;
            proof {
                let s = self.slots@.skip(p as int);
                lemma_live_values_front(s);
                assert(s.drop_first() =~= self.slots@.skip(p + 1));
            }
            self.pos = p + 1;
            match &self.slots[p].value {
                Some(v) => {
                    return Some(v);
                },
                None => {},
            }
        }
        assert(self.slots@.skip(self.pos as int) =~= Seq::<Slot<T>>::empty());
        None
    }
}

} // verus!
