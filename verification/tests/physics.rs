use turbine::reactive::fns;
use turbine::reactive::physics::{BoneLayout, BoneLink, BoneWeight, Physics};
use turbine::reactive::ptr;
use turbine::reactive::selection::Selection;
use turbine::reactive::Reactor;

fn link(l: &BoneLink<f32>) -> (usize, usize, BoneWeight) {
    (l.a, l.b, l.weight)
}

#[test]
fn layout_gathers_slots_locks_and_weights() {
    let mut doc: Reactor<f32> = Reactor::new();
    let d = doc.add1(1.0);
    let p0 = doc.add2([0.0, 0.0]);
    let p1 = doc.add2([1.0, 0.0]);
    let p2 = doc.add2([0.0, 1.0]);
    let p3 = doc.add_sum2(p0, p1);
    let _p4 = doc.add2([9.0, 9.0]);
    doc.add_eq_bone2(p2, p0, d);
    doc.add_less_bone2(p0, p3, d);
    doc.add_more_bone2(p1, p1, d);
    doc.add_eq_bone2(p2, p1, d);
    let mut sel: Selection<f32> = Selection::new();
    sel.locked2.push(p1);

    let layout = BoneLayout::new(&doc, &sel);
    let g = &layout.bones2;
    assert_eq!(g.map, vec![p0, p1, p2, p3]);
    let eq: Vec<_> = g.eq_bones.iter().map(link).collect();
    assert_eq!(eq, vec![(2, 0, BoneWeight::Half), (2, 1, BoneWeight::One)]);
    let less: Vec<_> = g.less_bones.iter().map(link).collect();
    assert_eq!(less, vec![(0, 3, BoneWeight::One)]);
    assert!(g.more_bones.is_empty());
    assert_eq!(g.eq_bones[0].dist, d);
    assert!(layout.bones1.map.is_empty());
    assert!(layout.bones3.eq_bones.is_empty());
}

#[test]
fn bone_with_locked_first_end_is_kept_with_zero_weight() {
    let mut doc: Reactor<f32> = Reactor::new();
    let d = doc.add1(1.0);
    let q0 = doc.add1(0.0);
    let q1 = doc.add1(1.0);
    let q2 = doc.add1(2.0);
    doc.add_eq_bone1(q1, q0, d);
    doc.add_eq_bone1(q2, q0, d);
    doc.add_eq_bone1(q0, q2, d);
    let mut sel: Selection<f32> = Selection::new();
    sel.locked1.push(q1);
    let layout = BoneLayout::new(&doc, &sel);
    assert_eq!(layout.bones1.map, vec![q0, q1, q2]);
    let eq: Vec<_> = layout.bones1.eq_bones.iter().map(link).collect();
    assert_eq!(
        eq,
        vec![(1, 0, BoneWeight::Zero), (2, 0, BoneWeight::Half), (0, 2, BoneWeight::Half)]
    );
}

#[test]
fn dropped_bone_is_replaced_by_the_last() {
    let mut doc: Reactor<f32> = Reactor::new();
    let d = doc.add1(1.0);
    let q0 = doc.add1(0.0);
    let q1 = doc.add1(1.0);
    let q2 = doc.add1(2.0);
    doc.add_eq_bone1(q1, q0, d);
    doc.add_eq_bone1(q2, q0, d);
    doc.add_eq_bone1(q0, q2, d);
    let mut sel: Selection<f32> = Selection::new();
    sel.locked1.push(q1);
    sel.locked1.push(q0);
    let layout = BoneLayout::new(&doc, &sel);
    assert_eq!(layout.bones1.map, vec![q0, q1, q2]);
    // Both ends of the first bone are locked: it is dropped and the last bone,
    // whose first end is locked, takes its place.
    let eq: Vec<_> = layout.bones1.eq_bones.iter().map(link).collect();
    assert_eq!(eq, vec![(0, 2, BoneWeight::Zero), (2, 0, BoneWeight::One)]);
}

#[test]
fn commit_writes_data_points_only() {
    let mut doc: Reactor<f32> = Reactor::new();
    let p0 = doc.add2([0.0, 0.0]);
    let p1 = doc.add2([1.0, 0.0]);
    let p2 = doc.add_sum2(p0, p1);
    let mut physics: Physics<f32> = Physics {
        pos1: vec![],
        pos2: vec![([0.0, 0.0], [5.0, 5.0]), ([7.0, 7.0], [6.0, 6.0])],
        pos3: vec![],
        pos4: vec![],
        eq_bones1: vec![],
        eq_bones2: vec![(0, 1, 1.0, 0.5)],
        eq_bones3: vec![],
        eq_bones4: vec![],
        less_bones1: vec![],
        less_bones2: vec![],
        less_bones3: vec![],
        less_bones4: vec![],
        more_bones1: vec![],
        more_bones2: vec![],
        more_bones3: vec![],
        more_bones4: vec![],
        map1: vec![],
        map2: vec![p0, p2],
        map3: vec![],
        map4: vec![],
    };
    physics.commit(&mut doc);
    match doc[p0] {
        fns::Point2::Data(v) => assert_eq!(v, [5.0, 5.0]),
        _ => panic!("expected data"),
    }
    assert!(matches!(doc[p2], fns::Point2::Sum(..)));
    match doc[p1] {
        fns::Point2::Data(v) => assert_eq!(v, [1.0, 0.0]),
        _ => panic!("expected data"),
    }
    assert_eq!(physics.pos2[0], ([5.0, 5.0], [5.0, 5.0]));
    assert_eq!(physics.pos2[1], ([7.0, 7.0], [6.0, 6.0]));
    assert_eq!(physics.map2, vec![p0, ptr::Point2::from(2usize)]);
}
