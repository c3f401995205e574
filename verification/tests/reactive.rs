use turbine::reactive::cache::{Cache, RefCount};
use turbine::reactive::fns;
use turbine::reactive::selection::Selection;
use turbine::reactive::Reactor;

#[test]
fn ref_count() {
    let mut doc: Reactor<f32> = Reactor::new();
    let a = doc.add1(1.0);
    let b = doc.add1(2.0);
    let c = doc.add_sum1(a, b);
    let d = doc.add_sum1(a, c);
    let e = doc.add_prod1(a, c);

    let cache = Cache::new(&doc);
    // `a` is a value, so it should not be stored in cache.
    assert!(!cache.points1.contains_key(&usize::from(a)));
    // `b` is only referenced once, so it should not be stored in cache.
    assert!(!cache.points1.contains_key(&usize::from(b)));
    // `c` is references from two places, so it should be stored in cache.
    assert!(cache.points1.contains_key(&usize::from(c)));
    // `d` is only referenced once, so it should not be stored in cache.
    assert!(!cache.points1.contains_key(&usize::from(d)));
    // `e` is only referenced once, so it should not be stored in cache.
    assert!(!cache.points1.contains_key(&usize::from(e)));
}

#[test]
fn add_returns_positions() {
    let mut doc: Reactor<f32> = Reactor::new();
    let a = doc.add2([0.0, 0.0]);
    let b = doc.add2([100.0, 0.0]);
    assert_eq!(usize::from(a), 0);
    assert_eq!(usize::from(b), 1);
    let line = doc.add_line2(a, b);
    assert_eq!(usize::from(line), 0);
    assert_eq!(doc.points2.len(), 2);
    assert_eq!(doc.splines2.len(), 1);
    if let fns::Spline::Line(a2, b2) = doc[line] {
        assert_eq!(a, a2);
        assert_eq!(b, b2);
    } else {
        panic!("expected a line");
    }
    if let fns::Point2::Data(p) = doc[b] {
        assert_eq!(p, [100.0, 0.0]);
    } else {
        panic!("expected data");
    }
    // Other collections are left alone.
    assert_eq!(doc.points1.len(), 0);
    assert_eq!(doc.bools.len(), 0);
}

#[test]
fn add_comparisons_swap_arguments() {
    let mut doc: Reactor<f32> = Reactor::new();
    let a = doc.add1(1.0);
    let b = doc.add1(2.0);
    let gt = doc.add_gt(a, b);
    let le = doc.add_le(a, b);
    match doc[gt] {
        fns::Bool::Less(x, y) => {
            assert_eq!(x, b);
            assert_eq!(y, a);
        }
        _ => panic!("expected less"),
    }
    match doc[le] {
        fns::Bool::GreaterOrEqual(x, y) => {
            assert_eq!(x, b);
            assert_eq!(y, a);
        }
        _ => panic!("expected greater or equal"),
    }
}

#[test]
fn add_len_uses_scalar_table() {
    let mut doc: Reactor<f32> = Reactor::new();
    let _s = doc.add1(3.0);
    let v = doc.add2([3.0, 4.0]);
    let len = doc.add_len2(v);
    assert_eq!(usize::from(len), 1);
    assert_eq!(doc.points1.len(), 2);
    assert_eq!(doc.points2.len(), 1);
}

#[test]
fn time_is_added_once() {
    let mut doc: Reactor<f32> = Reactor::new();
    let _a = doc.add1(1.0);
    let t1 = doc.add_time();
    let t2 = doc.add_time();
    assert_eq!(t1, t2);
    assert_eq!(usize::from(t1), 1);
    assert_eq!(doc.points1.len(), 2);
    let d1 = doc.add_dt();
    let d2 = doc.add_dt();
    assert_eq!(d1, d2);
    assert_eq!(usize::from(d1), 2);
    assert_eq!(doc.points1.len(), 3);
}

#[test]
fn ref_count_counts_every_reference() {
    let mut doc: Reactor<f32> = Reactor::new();
    let a = doc.add1(1.0);
    let b = doc.add1(2.0);
    let p = doc.add2([0.0, 0.0]);
    let q = doc.add2([1.0, 1.0]);
    let _s = doc.add_sum1(a, a);
    let _l = doc.add_line2(p, q);
    let _c = doc.add_circle2(p, b);
    let _e = doc.add_eq2(p, q);
    let rc = RefCount::new(&doc);
    let cache = Cache::new(&doc);
    // The counters are private; the cache shows which outputs are shared.
    drop(rc);
    assert!(cache.points1.is_empty());
    assert!(cache.points2.is_empty());
}

#[test]
fn cache_marks_shared_2d_points() {
    let mut doc: Reactor<f32> = Reactor::new();
    let p = doc.add2([0.0, 0.0]);
    let q = doc.add2([1.0, 1.0]);
    let s = doc.add_sum2(p, q);
    let _a = doc.add_sum2(s, p);
    let _b = doc.add_diff2(s, q);
    let mut cache = Cache::new(&doc);
    assert!(cache.points2.contains_key(&usize::from(s)));
    assert!(cache.points1.is_empty());
    assert!(cache.points3.is_empty());
    assert_eq!(cache.points2.len(), 1);
    cache.points2.insert(usize::from(s), Some([7.0, 7.0]));
    cache.clear();
    assert_eq!(cache.points2.get(&usize::from(s)), Some(&None));
    assert_eq!(cache.points2.len(), 1);
}

#[test]
fn cache_marks_shared_3d_points() {
    let mut doc: Reactor<f32> = Reactor::new();
    let p = doc.add3([0.0, 0.0, 0.0]);
    let q = doc.add3([1.0, 1.0, 1.0]);
    let s = doc.add_sum3(p, q);
    let _a = doc.add_sum3(s, p);
    let _b = doc.add_diff3(s, q);
    let cache = Cache::new(&doc);
    assert!(cache.points3.contains_key(&usize::from(s)));
    assert_eq!(cache.points3.len(), 1);
    assert!(cache.points1.is_empty());
    assert!(cache.points2.is_empty());
    assert!(cache.points4.is_empty());
}

#[test]
fn new_selection_is_empty() {
    let sel: Selection<f32> = Selection::new();
    assert!(sel.selected1.is_empty());
    assert!(sel.locked4.is_empty());
}

#[test]
fn added_node_reads_back_and_earlier_nodes_stay() {
    let mut doc: Reactor<f32> = Reactor::new();
    let a = doc.add3([1.0, 2.0, 3.0]);
    let b = doc.add3([4.0, 5.0, 6.0]);
    let s = doc.add_sum3(a, b);
    match doc[s] {
        fns::Point3::Sum(x, y) => {
            assert_eq!(x, a);
            assert_eq!(y, b);
        }
        _ => panic!("expected a sum"),
    }
    match doc[a] {
        fns::Point3::Data(p) => assert_eq!(p, [1.0, 2.0, 3.0]),
        _ => panic!("expected data"),
    }
    match doc[b] {
        fns::Point3::Data(p) => assert_eq!(p, [4.0, 5.0, 6.0]),
        _ => panic!("expected data"),
    }
}

#[test]
fn time_pointer_reads_time_node() {
    let mut doc: Reactor<f32> = Reactor::new();
    let t = doc.add_time();
    let d = doc.add_dt();
    assert!(matches!(doc[t], fns::Point1::Time));
    assert!(matches!(doc[d], fns::Point1::DeltaTime));
    assert_eq!(doc.time, Some(t));
    assert_eq!(doc.dt, Some(d));
}

#[test]
fn cache_marks_shared_4d_points() {
    let mut doc: Reactor<f32> = Reactor::new();
    let p = doc.add4([0.0, 0.0, 0.0, 0.0]);
    let q = doc.add4([1.0, 1.0, 1.0, 1.0]);
    let s = doc.add_sum4(p, q);
    let _a = doc.add_sum4(s, p);
    let _b = doc.add_diff4(s, q);
    let cache = Cache::new(&doc);
    // `s` is computed and used twice; `p` is used twice but holds data.
    assert!(cache.points4.contains_key(&usize::from(s)));
    assert!(!cache.points4.contains_key(&usize::from(p)));
    assert!(!cache.points4.contains_key(&usize::from(q)));
    assert_eq!(cache.points4.get(&usize::from(s)), Some(&None));
    assert_eq!(cache.points4.len(), 1);
}

#[test]
fn clearing_twice_keeps_keys() {
    let mut doc: Reactor<f32> = Reactor::new();
    let a = doc.add1(1.0);
    let b = doc.add1(2.0);
    let c = doc.add_sum1(a, b);
    let _d = doc.add_sum1(c, c);
    let mut cache = Cache::new(&doc);
    assert!(cache.points1.contains_key(&usize::from(c)));
    cache.points1.insert(usize::from(c), Some(3.0));
    cache.clear();
    cache.clear();
    assert_eq!(cache.points1.len(), 1);
    assert_eq!(cache.points1.get(&usize::from(c)), Some(&None));
}
