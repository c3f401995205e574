use turbine::world::{
    claim_entity_slot, find_free_entity_slot, Mask, AABB, ALIVE, ENTITY_COUNT, SELECT,
};

#[test]
fn claims_take_first_free_slots_in_order() {
    let mut masks = vec![Mask::empty(); ENTITY_COUNT];
    assert_eq!(find_free_entity_slot(&masks), Some(0));
    assert_eq!(claim_entity_slot(&mut masks), Some(0));
    assert!(masks[0].contains(ALIVE));
    assert!(masks[0].contains(SELECT));
    assert!(!masks[0].contains(AABB));
    assert_eq!(masks[0].bits(), ALIVE | SELECT);
    assert_eq!(claim_entity_slot(&mut masks), Some(1));
    masks[0] = Mask::empty();
    assert_eq!(find_free_entity_slot(&masks), Some(0));
}

#[test]
fn full_world_has_no_free_slot() {
    let mut m = Mask::empty();
    m.insert(AABB);
    let mut masks = vec![m; ENTITY_COUNT];
    assert_eq!(find_free_entity_slot(&masks), None);
    assert_eq!(claim_entity_slot(&mut masks), None);
    assert!(masks.iter().all(|x| x.bits() == AABB));
    masks[ENTITY_COUNT - 1] = Mask::empty();
    assert_eq!(claim_entity_slot(&mut masks), Some(ENTITY_COUNT - 1));
}

#[test]
fn insert_keeps_earlier_bits() {
    let mut m = Mask::empty();
    assert!(m.is_empty());
    m.insert(ALIVE);
    m.insert(AABB);
    assert!(m.contains(ALIVE | AABB));
    assert!(!m.is_empty());
    assert!(!m.contains(SELECT));
}
