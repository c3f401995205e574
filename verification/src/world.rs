//! Entity slots of the world: which components each entity has turned on.

use vstd::prelude::*;

verus! {

/// The maximum number of entities.
pub const ENTITY_COUNT: usize = 10000;

/// Used to turn on/off components per entity.
#[derive(Copy, Clone, Debug, PartialEq, Eq, Structural)]
pub struct Mask {
    bits: u32,
}

/// Entity is alive.
pub const ALIVE: u32 = 0b00000001;
/// Entity is selected.
pub const SELECT: u32 = 0b00000010;
/// Entity has an AABB.
pub const AABB: u32 = 0b00000100;

impl Mask {
    /// The bits of the components that are on.
    pub closed spec fn spec_bits(&self) -> u32 {
        self.bits
    }

    /// A mask with every component off.
    pub fn empty() -> (r: Mask)
        ensures
            r.spec_bits() == 0,
    {
        Mask { bits: 0 }
    }

    /// Returns the bits of the components that are on.
    pub fn bits(&self) -> (r: u32)
        ensures
            r == self.spec_bits(),
    {
        self.bits
    }

    /// Whether every component is off.
    pub fn is_empty(&self) -> (r: bool)
        ensures
            r == (self.spec_bits() == 0),
    {
        self.bits == 0
    }

    /// Whether every component of `other` is on.
    pub fn contains(&self, other: u32) -> (r: bool)
        ensures
            r == (self.spec_bits() & other == other),
    {
        self.bits & other == other
    }

    /// Turns on the components of `other`.
    pub fn insert(&mut self, other: u32)
        ensures
            final(self).spec_bits() == old(self).spec_bits() | other,
    {
        self.bits = self.bits | other;
    }
}

/// Whether slot `i` is free: no component of its entity is on.
pub open spec fn slot_free(masks: Seq<Mask>, i: int) -> bool {
    masks[i].spec_bits() == 0
}

/// Finds the first free entity slot.
pub fn find_free_entity_slot(masks: &Vec<Mask>) -> (r: Option<usize>)
    requires
        masks@.len() >= ENTITY_COUNT,
    ensures
        match r {
            Some(i) => i < ENTITY_COUNT && slot_free(masks@, i as int) && forall|j: int|
                0 <= j < i ==> !slot_free(masks@, j),
            None => forall|j: int| 0 <= j < ENTITY_COUNT ==> !slot_free(masks@, j),
        },
{
    let mut i: usize = 0;
    while i < ENTITY_COUNT
        invariant
            i <= ENTITY_COUNT,
            masks@.len() >= ENTITY_COUNT,
            forall|j: int| 0 <= j < i ==> !slot_free(masks@, j),
        decreases ENTITY_COUNT - i,
    {
        if masks[i].is_empty() {
            return Some(i);
        }
        i = i + 1;
    }
    None
}

/// How claiming a slot changes the masks: the first free slot, if any, gets its
/// entity marked alive and selected, and nothing else changes.
pub open spec fn claimed(before: Seq<Mask>, after: Seq<Mask>, r: Option<usize>) -> bool {
    match r {
        Some(i) => {
            &&& i < ENTITY_COUNT
            &&& slot_free(before, i as int)
            &&& forall|j: int| 0 <= j < i ==> !slot_free(before, j)
            &&& after.len() == before.len()
            &&& after[i as int].spec_bits() == ALIVE | SELECT
            &&& forall|j: int| 0 <= j < before.len() && j != i ==> #[trigger] after[j] == before[j]
        },
        None => {
            &&& forall|j: int| 0 <= j < ENTITY_COUNT ==> !slot_free(before, j)
            &&& after == before
        },
    }
}

/// Claims the first free entity slot: marks its entity as alive and selected.
///
/// Returns `None`, changing nothing, when every slot is taken.
pub fn claim_entity_slot(masks: &mut Vec<Mask>) -> (r: Option<usize>)
    requires
        old(masks)@.len() >= ENTITY_COUNT,
    ensures
        claimed(old(masks)@, final(masks)@, r),
{
    match find_free_entity_slot(masks) {
        Some(id) => {
            let mut mask = masks[id];
            mask.insert(ALIVE);
            mask.insert(SELECT);
            proof {
                assert(0u32 | ALIVE | SELECT == ALIVE | SELECT) by (bit_vector);
            }
            masks.set(id, mask);
            Some(id)
        },
        None => None,
    }
}

/// Two claims in a row give two slots, the second after the first.
pub proof fn lemma_claims_advance(m0: Seq<Mask>, m1: Seq<Mask>, m2: Seq<Mask>, i: usize, j: usize)
    requires
        m0.len() >= ENTITY_COUNT,
        claimed(m0, m1, Some(i)),
        claimed(m1, m2, Some(j)),
    ensures
        i < j,
{
    assert(!slot_free(m1, i as int)) by {
        assert(ALIVE | SELECT != 0u32) by (bit_vector);
    }
    if j < i {
        assert(m1[j as int] == m0[j as int]);
        assert(!slot_free(m0, j as int));
    }
}

/// After turning on some components, every one of them is on, and every
/// component that was on stays on.
pub proof fn lemma_insert_contains(m: u32, other: u32)
    ensures
        (m | other) & other == other,
        (m | other) & m == m,
{
    assert((m | other) & other == other) by (bit_vector);
    assert((m | other) & m == m) by (bit_vector);
}

} // verus!
