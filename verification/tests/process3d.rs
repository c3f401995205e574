use turbine::consume::Consumer;
use turbine::geometry::{aabb_to_cube, cube_triangle, quad_to_triangles, Chunk, Cube, Quad, Triangle};
use turbine::mask::CompressedMasks;
use turbine::produce::Produce;
use turbine::triangle::triangle_chunk;
use turbine::index_flag::hit_all_chunk_mask;
use turbine::IndexFlag;

#[test]
fn test_mask() {
    let mut masks = CompressedMasks::new();
    masks.push(0);
    masks.push(0);
    masks.push(1);
    masks.push(0);
    masks.push(0);
    masks.push(0);
    masks.push(2);
    masks.push(3);
    masks.push(!0);
    masks.push(!0);

    let mut iter = masks.iter().into_iter();
    assert_eq!(iter.next(), Some((2, 1)));
    assert_eq!(iter.next(), Some((6, 2)));
    assert_eq!(iter.next(), Some((7, 3)));
    assert_eq!(iter.next(), Some((8, !0)));
    assert_eq!(iter.next(), Some((9, !0)));
}

#[test]
fn test_triangle_chunk() {
    let list: Vec<Triangle<f32>> = vec![([0.0; 3], [0.0; 3], [0.0; 3]); 72];
    let a = triangle_chunk(&list, 0);
    let b = triangle_chunk(&list[64..], 0);
    assert_eq!(a.1, 0xffffffffffffffff);
    assert_eq!(b.1, 0xff);
}

#[test]
fn test_cube_to_triangle() {

    let far_a: Triangle<u8> = ([0, 0, 1], [1, 0, 1], [0, 1, 1]);
    let far_b: Triangle<u8> = ([0, 1, 1], [1, 0, 1], [1, 1, 1]);
    let near_a: Triangle<u8> = ([1, 0, 0], [0, 0, 0], [1, 1, 0]);
    let near_b: Triangle<u8> = ([1, 1, 0], [0, 0, 0], [0, 1, 0]);
    let top_a: Triangle<u8> = ([1, 1, 0], [0, 1, 0], [1, 1, 1]);
    let top_b: Triangle<u8> = ([1, 1, 1], [0, 1, 0], [0, 1, 1]);
    let bot_a: Triangle<u8> = ([1, 0, 0], [0, 0, 0], [1, 0, 1]);
    let bot_b: Triangle<u8> = ([1, 0, 1], [0, 0, 0], [0, 0, 1]);
    let left_a: Triangle<u8> = ([0, 0, 0], [0, 0, 1], [0, 1, 0]);
    let left_b: Triangle<u8> = ([0, 1, 0], [0, 0, 1], [0, 1, 1]);
    let right_a: Triangle<u8> = ([1, 0, 1], [1, 0, 0], [1, 1, 1]);
    let right_b: Triangle<u8> = ([1, 1, 1], [1, 0, 0], [1, 1, 0]);
    let zero: Triangle<u8> = ([0; 3], [0; 3], [0; 3]);

    let data: &[Cube<u8>] = &[aabb_to_cube(([0u8; 3], [1u8; 3]))];

    let chunk: Chunk<Triangle<u8>> = data.produce(0);
    assert_eq!(chunk[0], far_a);
    assert_eq!(chunk[1], far_b);
    assert_eq!(chunk[2], near_a);
    assert_eq!(chunk[3], near_b);
    assert_eq!(chunk[4], top_a);
    assert_eq!(chunk[5], top_b);
    assert_eq!(chunk[6], bot_a);
    assert_eq!(chunk[7], bot_b);
    assert_eq!(chunk[8], left_a);
    assert_eq!(chunk[9], left_b);
    assert_eq!(chunk[10], right_a);
    assert_eq!(chunk[11], right_b);
    assert_eq!(chunk[12], zero);

    let chunk: Chunk<Triangle<u8>> = data.produce(1);
    assert_eq!(chunk[0], far_b);
    assert_eq!(chunk[1], near_a);
    assert_eq!(chunk[2], near_b);
    assert_eq!(chunk[3], top_a);
    assert_eq!(chunk[4], top_b);
    assert_eq!(chunk[5], bot_a);
    assert_eq!(chunk[6], bot_b);
    assert_eq!(chunk[7], left_a);
    assert_eq!(chunk[8], left_b);
    assert_eq!(chunk[9], right_a);
    assert_eq!(chunk[10], right_b);
    assert_eq!(chunk[11], zero);

    let chunk: Chunk<Triangle<u8>> = data.produce(2);
    assert_eq!(chunk[0], near_a);
    assert_eq!(chunk[1], near_b);
    assert_eq!(chunk[2], top_a);
    assert_eq!(chunk[3], top_b);
    assert_eq!(chunk[4], bot_a);
    assert_eq!(chunk[5], bot_b);
    assert_eq!(chunk[6], left_a);
    assert_eq!(chunk[7], left_b);
    assert_eq!(chunk[8], right_a);
    assert_eq!(chunk[9], right_b);
    assert_eq!(chunk[10], zero);

    let chunk: Chunk<Triangle<u8>> = data.produce(3);
    assert_eq!(chunk[0], near_b);
    assert_eq!(chunk[1], top_a);
    assert_eq!(chunk[2], top_b);
    assert_eq!(chunk[3], bot_a);
    assert_eq!(chunk[4], bot_b);
    assert_eq!(chunk[5], left_a);
    assert_eq!(chunk[6], left_b);
    assert_eq!(chunk[7], right_a);
    assert_eq!(chunk[8], right_b);
    assert_eq!(chunk[9], zero);

    let chunk: Chunk<Triangle<u8>> = data.produce(4);
    assert_eq!(chunk[0], top_a);
    assert_eq!(chunk[1], top_b);
    assert_eq!(chunk[2], bot_a);
    assert_eq!(chunk[3], bot_b);
    assert_eq!(chunk[4], left_a);
    assert_eq!(chunk[5], left_b);
    assert_eq!(chunk[6], right_a);
    assert_eq!(chunk[7], right_b);
    assert_eq!(chunk[8], zero);

    let chunk: Chunk<Triangle<u8>> = data.produce(5);
    assert_eq!(chunk[0], top_b);
    assert_eq!(chunk[1], bot_a);
    assert_eq!(chunk[2], bot_b);
    assert_eq!(chunk[3], left_a);
    assert_eq!(chunk[4], left_b);
    assert_eq!(chunk[5], right_a);
    assert_eq!(chunk[6], right_b);
    assert_eq!(chunk[7], zero);

    let chunk: Chunk<Triangle<u8>> = data.produce(6);
    assert_eq!(chunk[0], bot_a);
    assert_eq!(chunk[1], bot_b);
    assert_eq!(chunk[2], left_a);
    assert_eq!(chunk[3], left_b);
    assert_eq!(chunk[4], right_a);
    assert_eq!(chunk[5], right_b);
    assert_eq!(chunk[6], zero);

    let chunk: Chunk<Triangle<u8>> = data.produce(7);
    assert_eq!(chunk[0], bot_b);
    assert_eq!(chunk[1], left_a);
    assert_eq!(chunk[2], left_b);
    assert_eq!(chunk[3], right_a);
    assert_eq!(chunk[4], right_b);
    assert_eq!(chunk[5], zero);

    let chunk: Chunk<Triangle<u8>> = data.produce(8);
    assert_eq!(chunk[0], left_a);
    assert_eq!(chunk[1], left_b);
    assert_eq!(chunk[2], right_a);
    assert_eq!(chunk[3], right_b);
    assert_eq!(chunk[4], zero);

    let chunk: Chunk<Triangle<u8>> = data.produce(9);
    assert_eq!(chunk[0], left_b);
    assert_eq!(chunk[1], right_a);
    assert_eq!(chunk[2], right_b);
    assert_eq!(chunk[3], zero);

    let chunk: Chunk<Triangle<u8>> = data.produce(10);
    assert_eq!(chunk[0], right_a);
    assert_eq!(chunk[1], right_b);
    assert_eq!(chunk[2], zero);

    let chunk: Chunk<Triangle<u8>> = data.produce(11);
    assert_eq!(chunk[0], right_b);
    assert_eq!(chunk[1], zero);

    let chunk: Chunk<Triangle<u8>> = data.produce(12);
    assert_eq!(chunk[0], zero);

    let data: &[Cube<u8>] = &[
        aabb_to_cube(([0u8; 3], [1u8; 3])),
        aabb_to_cube(([0u8; 3], [1u8; 3])),
    ];

    let chunk: Chunk<Triangle<u8>> = data.produce(0);
    assert_eq!(chunk[0], far_a);
    assert_eq!(chunk[1], far_b);
    assert_eq!(chunk[2], near_a);
    assert_eq!(chunk[3], near_b);
    assert_eq!(chunk[4], top_a);
    assert_eq!(chunk[5], top_b);
    assert_eq!(chunk[6], bot_a);
    assert_eq!(chunk[7], bot_b);
    assert_eq!(chunk[8], left_a);
    assert_eq!(chunk[9], left_b);
    assert_eq!(chunk[10], right_a);
    assert_eq!(chunk[11], right_b);
    assert_eq!(chunk[12], far_a);
    assert_eq!(chunk[13], far_b);
    assert_eq!(chunk[14], near_a);
    assert_eq!(chunk[15], near_b);
    assert_eq!(chunk[16], top_a);
    assert_eq!(chunk[17], top_b);
    assert_eq!(chunk[18], bot_a);
    assert_eq!(chunk[19], bot_b);
    assert_eq!(chunk[20], left_a);
    assert_eq!(chunk[21], left_b);
    assert_eq!(chunk[22], right_a);
    assert_eq!(chunk[23], right_b);
    assert_eq!(chunk[24], zero);

    let chunk: Chunk<Triangle<u8>> = data.produce(1);
    assert_eq!(chunk[0], far_b);
    assert_eq!(chunk[1], near_a);
    assert_eq!(chunk[2], near_b);
    assert_eq!(chunk[3], top_a);
    assert_eq!(chunk[4], top_b);
    assert_eq!(chunk[5], bot_a);
    assert_eq!(chunk[6], bot_b);
    assert_eq!(chunk[7], left_a);
    assert_eq!(chunk[8], left_b);
    assert_eq!(chunk[9], right_a);
    assert_eq!(chunk[10], right_b);
    assert_eq!(chunk[11], far_a);
    assert_eq!(chunk[12], far_b);
    assert_eq!(chunk[13], near_a);
    assert_eq!(chunk[14], near_b);
    assert_eq!(chunk[15], top_a);
    assert_eq!(chunk[16], top_b);
    assert_eq!(chunk[17], bot_a);
    assert_eq!(chunk[18], bot_b);
    assert_eq!(chunk[19], left_a);
    assert_eq!(chunk[20], left_b);
    assert_eq!(chunk[21], right_a);
    assert_eq!(chunk[22], right_b);
    assert_eq!(chunk[23], zero);

    let chunk: Chunk<Triangle<u8>> = data.produce(2);
    assert_eq!(chunk[0], near_a);
    assert_eq!(chunk[1], near_b);
    assert_eq!(chunk[2], top_a);
    assert_eq!(chunk[3], top_b);
    assert_eq!(chunk[4], bot_a);
    assert_eq!(chunk[5], bot_b);
    assert_eq!(chunk[6], left_a);
    assert_eq!(chunk[7], left_b);
    assert_eq!(chunk[8], right_a);
    assert_eq!(chunk[9], right_b);
    assert_eq!(chunk[10], far_a);
    assert_eq!(chunk[11], far_b);
    assert_eq!(chunk[12], near_a);
    assert_eq!(chunk[13], near_b);
    assert_eq!(chunk[14], top_a);
    assert_eq!(chunk[15], top_b);
    assert_eq!(chunk[16], bot_a);
    assert_eq!(chunk[17], bot_b);
    assert_eq!(chunk[18], left_a);
    assert_eq!(chunk[19], left_b);
    assert_eq!(chunk[20], right_a);
    assert_eq!(chunk[21], right_b);
    assert_eq!(chunk[22], zero);

    let chunk: Chunk<Triangle<u8>> = data.produce(3);
    assert_eq!(chunk[0], near_b);
    assert_eq!(chunk[1], top_a);
    assert_eq!(chunk[2], top_b);
    assert_eq!(chunk[3], bot_a);
    assert_eq!(chunk[4], bot_b);
    assert_eq!(chunk[5], left_a);
    assert_eq!(chunk[6], left_b);
    assert_eq!(chunk[7], right_a);
    assert_eq!(chunk[8], right_b);
    assert_eq!(chunk[9], far_a);
    assert_eq!(chunk[10], far_b);
    assert_eq!(chunk[11], near_a);
    assert_eq!(chunk[12], near_b);
    assert_eq!(chunk[13], top_a);
    assert_eq!(chunk[14], top_b);
    assert_eq!(chunk[15], bot_a);
    assert_eq!(chunk[16], bot_b);
    assert_eq!(chunk[17], left_a);
    assert_eq!(chunk[18], left_b);
    assert_eq!(chunk[19], right_a);
    assert_eq!(chunk[20], right_b);
    assert_eq!(chunk[21], zero);

    let chunk: Chunk<Triangle<u8>> = data.produce(4);
    assert_eq!(chunk[0], top_a);
    assert_eq!(chunk[1], top_b);
    assert_eq!(chunk[2], bot_a);
    assert_eq!(chunk[3], bot_b);
    assert_eq!(chunk[4], left_a);
    assert_eq!(chunk[5], left_b);
    assert_eq!(chunk[6], right_a);
    assert_eq!(chunk[7], right_b);
    assert_eq!(chunk[8], far_a);
    assert_eq!(chunk[9], far_b);
    assert_eq!(chunk[10], near_a);
    assert_eq!(chunk[11], near_b);
    assert_eq!(chunk[12], top_a);
    assert_eq!(chunk[13], top_b);
    assert_eq!(chunk[14], bot_a);
    assert_eq!(chunk[15], bot_b);
    assert_eq!(chunk[16], left_a);
    assert_eq!(chunk[17], left_b);
    assert_eq!(chunk[18], right_a);
    assert_eq!(chunk[19], right_b);
    assert_eq!(chunk[20], zero);

    let chunk: Chunk<Triangle<u8>> = data.produce(5);
    assert_eq!(chunk[0], top_b);
    assert_eq!(chunk[1], bot_a);
    assert_eq!(chunk[2], bot_b);
    assert_eq!(chunk[3], left_a);
    assert_eq!(chunk[4], left_b);
    assert_eq!(chunk[5], right_a);
    assert_eq!(chunk[6], right_b);
    assert_eq!(chunk[7], far_a);
    assert_eq!(chunk[8], far_b);
    assert_eq!(chunk[9], near_a);
    assert_eq!(chunk[10], near_b);
    assert_eq!(chunk[11], top_a);
    assert_eq!(chunk[12], top_b);
    assert_eq!(chunk[13], bot_a);
    assert_eq!(chunk[14], bot_b);
    assert_eq!(chunk[15], left_a);
    assert_eq!(chunk[16], left_b);
    assert_eq!(chunk[17], right_a);
    assert_eq!(chunk[18], right_b);
    assert_eq!(chunk[19], zero);

    let chunk: Chunk<Triangle<u8>> = data.produce(6);
    assert_eq!(chunk[0], bot_a);
    assert_eq!(chunk[1], bot_b);
    assert_eq!(chunk[2], left_a);
    assert_eq!(chunk[3], left_b);
    assert_eq!(chunk[4], right_a);
    assert_eq!(chunk[5], right_b);
    assert_eq!(chunk[6], far_a);
    assert_eq!(chunk[7], far_b);
    assert_eq!(chunk[8], near_a);
    assert_eq!(chunk[9], near_b);
    assert_eq!(chunk[10], top_a);
    assert_eq!(chunk[11], top_b);
    assert_eq!(chunk[12], bot_a);
    assert_eq!(chunk[13], bot_b);
    assert_eq!(chunk[14], left_a);
    assert_eq!(chunk[15], left_b);
    assert_eq!(chunk[16], right_a);
    assert_eq!(chunk[17], right_b);
    assert_eq!(chunk[18], zero);

    let chunk: Chunk<Triangle<u8>> = data.produce(7);
    assert_eq!(chunk[0], bot_b);
    assert_eq!(chunk[1], left_a);
    assert_eq!(chunk[2], left_b);
    assert_eq!(chunk[3], right_a);
    assert_eq!(chunk[4], right_b);
    assert_eq!(chunk[5], far_a);
    assert_eq!(chunk[6], far_b);
    assert_eq!(chunk[7], near_a);
    assert_eq!(chunk[8], near_b);
    assert_eq!(chunk[9], top_a);
    assert_eq!(chunk[10], top_b);
    assert_eq!(chunk[11], bot_a);
    assert_eq!(chunk[12], bot_b);
    assert_eq!(chunk[13], left_a);
    assert_eq!(chunk[14], left_b);
    assert_eq!(chunk[15], right_a);
    assert_eq!(chunk[16], right_b);
    assert_eq!(chunk[17], zero);

    let chunk: Chunk<Triangle<u8>> = data.produce(8);
    assert_eq!(chunk[0], left_a);
    assert_eq!(chunk[1], left_b);
    assert_eq!(chunk[2], right_a);
    assert_eq!(chunk[3], right_b);
    assert_eq!(chunk[4], far_a);
    assert_eq!(chunk[5], far_b);
    assert_eq!(chunk[6], near_a);
    assert_eq!(chunk[7], near_b);
    assert_eq!(chunk[8], top_a);
    assert_eq!(chunk[9], top_b);
    assert_eq!(chunk[10], bot_a);
    assert_eq!(chunk[11], bot_b);
    assert_eq!(chunk[12], left_a);
    assert_eq!(chunk[13], left_b);
    assert_eq!(chunk[14], right_a);
    assert_eq!(chunk[15], right_b);
    assert_eq!(chunk[16], zero);

    let chunk: Chunk<Triangle<u8>> = data.produce(9);
    assert_eq!(chunk[0], left_b);
    assert_eq!(chunk[1], right_a);
    assert_eq!(chunk[2], right_b);
    assert_eq!(chunk[3], far_a);
    assert_eq!(chunk[4], far_b);
    assert_eq!(chunk[5], near_a);
    assert_eq!(chunk[6], near_b);
    assert_eq!(chunk[7], top_a);
    assert_eq!(chunk[8], top_b);
    assert_eq!(chunk[9], bot_a);
    assert_eq!(chunk[10], bot_b);
    assert_eq!(chunk[11], left_a);
    assert_eq!(chunk[12], left_b);
    assert_eq!(chunk[13], right_a);
    assert_eq!(chunk[14], right_b);
    assert_eq!(chunk[15], zero);

    let chunk: Chunk<Triangle<u8>> = data.produce(10);
    assert_eq!(chunk[0], right_a);
    assert_eq!(chunk[1], right_b);
    assert_eq!(chunk[2], far_a);
    assert_eq!(chunk[3], far_b);
    assert_eq!(chunk[4], near_a);
    assert_eq!(chunk[5], near_b);
    assert_eq!(chunk[6], top_a);
    assert_eq!(chunk[7], top_b);
    assert_eq!(chunk[8], bot_a);
    assert_eq!(chunk[9], bot_b);
    assert_eq!(chunk[10], left_a);
    assert_eq!(chunk[11], left_b);
    assert_eq!(chunk[12], right_a);
    assert_eq!(chunk[13], right_b);
    assert_eq!(chunk[14], zero);

    let chunk: Chunk<Triangle<u8>> = data.produce(11);
    assert_eq!(chunk[0], right_b);
    assert_eq!(chunk[1], far_a);
    assert_eq!(chunk[2], far_b);
    assert_eq!(chunk[3], near_a);
    assert_eq!(chunk[4], near_b);
    assert_eq!(chunk[5], top_a);
    assert_eq!(chunk[6], top_b);
    assert_eq!(chunk[7], bot_a);
    assert_eq!(chunk[8], bot_b);
    assert_eq!(chunk[9], left_a);
    assert_eq!(chunk[10], left_b);
    assert_eq!(chunk[11], right_a);
    assert_eq!(chunk[12], right_b);
    assert_eq!(chunk[13], zero);

    let chunk: Chunk<Triangle<u8>> = data.produce(12);
    assert_eq!(chunk[0], far_a);
    assert_eq!(chunk[1], far_b);
    assert_eq!(chunk[2], near_a);
    assert_eq!(chunk[3], near_b);
    assert_eq!(chunk[4], top_a);
    assert_eq!(chunk[5], top_b);
    assert_eq!(chunk[6], bot_a);
    assert_eq!(chunk[7], bot_b);
    assert_eq!(chunk[8], left_a);
    assert_eq!(chunk[9], left_b);
    assert_eq!(chunk[10], right_a);
    assert_eq!(chunk[11], right_b);
    assert_eq!(chunk[12], zero);

    let chunk: Chunk<Triangle<u8>> = data.produce(13);
    assert_eq!(chunk[0], far_b);
    assert_eq!(chunk[1], near_a);
    assert_eq!(chunk[2], near_b);
    assert_eq!(chunk[3], top_a);
    assert_eq!(chunk[4], top_b);
    assert_eq!(chunk[5], bot_a);
    assert_eq!(chunk[6], bot_b);
    assert_eq!(chunk[7], left_a);
    assert_eq!(chunk[8], left_b);
    assert_eq!(chunk[9], right_a);
    assert_eq!(chunk[10], right_b);
    assert_eq!(chunk[11], zero);

    let chunk: Chunk<Triangle<u8>> = data.produce(14);
    assert_eq!(chunk[0], near_a);
    assert_eq!(chunk[1], near_b);
    assert_eq!(chunk[2], top_a);
    assert_eq!(chunk[3], top_b);
    assert_eq!(chunk[4], bot_a);
    assert_eq!(chunk[5], bot_b);
    assert_eq!(chunk[6], left_a);
    assert_eq!(chunk[7], left_b);
    assert_eq!(chunk[8], right_a);
    assert_eq!(chunk[9], right_b);
    assert_eq!(chunk[10], zero);

    let chunk: Chunk<Triangle<u8>> = data.produce(15);
    assert_eq!(chunk[0], near_b);
    assert_eq!(chunk[1], top_a);
    assert_eq!(chunk[2], top_b);
    assert_eq!(chunk[3], bot_a);
    assert_eq!(chunk[4], bot_b);
    assert_eq!(chunk[5], left_a);
    assert_eq!(chunk[6], left_b);
    assert_eq!(chunk[7], right_a);
    assert_eq!(chunk[8], right_b);
    assert_eq!(chunk[9], zero);
}

#[test]
fn test_shift() {
    assert_eq!(1_u64 << 63, 0x8000000000000000);
    let f = |ind: u64, off: u64| !((1_u64 << (ind - off)) - 1);
    assert_eq!(f(0, 0), 0xffffffffffffffff);
    assert_eq!(f(1, 0), 0xfffffffffffffffe);
    assert_eq!(f(2, 0), 0xfffffffffffffffc);
    assert_eq!(f(3, 0), 0xfffffffffffffff8);
}

#[test]
fn index_flag_round_trip() {
    let a = IndexFlag::from_parts(5, true);
    assert_eq!(a.0, -6);
    assert_eq!(a.index(), 5);
    assert!(a.flag());
    let b = a.unflag();
    assert_eq!(b.0, 5);
    assert_eq!(b.index(), 5);
    assert!(!b.flag());
    let c = IndexFlag::from_parts(0, false);
    assert_eq!(c.0, 0);
    assert_eq!(c.index(), 0);
    assert!(!c.flag());
    let d = IndexFlag::from_parts(0, true);
    assert_eq!(d.0, -1);
    assert_eq!(d.index(), 0);
    assert!(d.flag());
}

#[test]
fn vec_consumes_items_in_order() {
    let mut v: Vec<u32> = Vec::new();
    v.consume(7);
    v.consume_all(vec![1, 2, 3]);
    assert_eq!(v, vec![7, 1, 2, 3]);
}

#[test]
fn quad_is_consumed_as_two_triangles() {
    let quad: Quad<u8> = [[0, 0, 0], [1, 0, 0], [0, 1, 0], [1, 1, 0]];
    let mut v: Vec<(Triangle<u8>, u8)> = Vec::new();
    v.consume((quad, 5u8));
    assert_eq!(
        v,
        vec![
            (([0, 0, 0], [1, 0, 0], [0, 1, 0]), 5),
            (([0, 1, 0], [1, 0, 0], [1, 1, 0]), 5),
        ]
    );
}

#[test]
fn cube_is_consumed_as_twelve_triangles() {
    let cube: Cube<u8> = aabb_to_cube(([0, 0, 0], [1, 1, 1]));
    let mut v: Vec<(Triangle<u8>, u8)> = Vec::new();
    v.consume((cube, 2u8));
    assert_eq!(v.len(), 12);
    for i in 0..12 {
        assert_eq!(v[i], (cube_triangle(&cube, i), 2));
    }
    // A box is consumed as the cube that it spans.
    let mut w: Vec<(Triangle<u8>, u8)> = Vec::new();
    w.consume((([0u8, 0, 0], [1u8, 1, 1]), 2u8));
    assert_eq!(v, w);
}

#[test]
fn consume_all_quads_appends_after_existing() {
    let q1: Quad<u8> = [[0, 0, 0], [1, 0, 0], [0, 1, 0], [1, 1, 0]];
    let q2: Quad<u8> = [[0, 0, 1], [1, 0, 1], [0, 1, 1], [1, 1, 1]];
    let t: Triangle<u8> = ([9, 9, 9], [8, 8, 8], [7, 7, 7]);
    let mut v: Vec<(Triangle<u8>, u8)> = vec![(t, 0)];
    v.consume_all(vec![(q1, 1u8), (q2, 2u8)]);
    assert_eq!(v.len(), 5);
    assert_eq!(v[0], (t, 0));
    assert_eq!(v[1], (([0, 0, 0], [1, 0, 0], [0, 1, 0]), 1));
    assert_eq!(v[4], (([0, 1, 1], [1, 0, 1], [1, 1, 1]), 2));
}

#[test]
fn hit_all_masks_skip_earlier_triangles() {
    assert_eq!(hit_all_chunk_mask(IndexFlag::from_parts(5, true), 0, !0), None);
    assert_eq!(hit_all_chunk_mask(IndexFlag::from_parts(200, false), 64, !0), None);
    assert_eq!(hit_all_chunk_mask(IndexFlag::from_parts(128, false), 64, !0), None);
    assert_eq!(hit_all_chunk_mask(IndexFlag::from_parts(3, false), 64, 0xf0), Some(0xf0));
    assert_eq!(hit_all_chunk_mask(IndexFlag::from_parts(66, false), 64, !0), Some(0xffff_ffff_ffff_fffc));
    assert_eq!(hit_all_chunk_mask(IndexFlag::from_parts(64, false), 64, 0x13), Some(0x13));
    assert_eq!(hit_all_chunk_mask(IndexFlag::from_parts(127, false), 64, !0), Some(1 << 63));
}

#[test]
fn quad_chunks_at_even_and_odd_offsets() {
    let q = |z: u8| -> Quad<u8> { [[0, 0, z], [1, 0, z], [0, 1, z], [1, 1, z]] };
    let quads: Vec<Quad<u8>> = vec![q(0), q(1), q(2)];
    let list: &[Quad<u8>] = &quads;
    let zero: Triangle<u8> = ([0; 3], [0; 3], [0; 3]);
    let (_a0, b0) = quad_to_triangles(q(0));
    let (a1, b1) = quad_to_triangles(q(1));
    let (a2, b2) = quad_to_triangles(q(2));
    assert_eq!(<[Quad<u8>] as Produce<Triangle<u8>>>::virtual_length(list), 6);

    let even: Chunk<Triangle<u8>> = list.produce(2);
    assert_eq!(&even[0..4], &[a1, b1, a2, b2]);
    assert!(even[4..].iter().all(|t| *t == zero));

    // At an odd offset, the chunk starts with the second triangle of the quad and
    // goes on with the next quads, as the virtual list does.
    let odd: Chunk<Triangle<u8>> = list.produce(1);
    assert_eq!(&odd[0..5], &[b0, a1, b1, a2, b2]);
    assert!(odd[5..].iter().all(|t| *t == zero));
    let (chunk, bits) = triangle_chunk(list, 4);
    assert_eq!(&chunk[0..2], &[a2, b2]);
    assert_eq!(bits, 0b11);
}

#[test]
fn cube_chunk_at_unaligned_offset_fills_every_position() {
    let cubes: Vec<Cube<u8>> = (0u8..6).map(|i| aabb_to_cube(([i; 3], [i + 1; 3]))).collect();
    let list: &[Cube<u8>] = &cubes;
    let chunk: Chunk<Triangle<u8>> = list.produce(1);
    for t in 0..64usize {
        let v = t + 1;
        assert_eq!(chunk[t], cube_triangle(&cubes[v / 12], v % 12));
    }
    // The last four positions come from the sixth cube, not the filler.
    assert_eq!(chunk[60], cube_triangle(&cubes[5], 1));
    assert_eq!(chunk[63], cube_triangle(&cubes[5], 4));
    // Past the end of the list, the default triangle fills the chunk.
    let tail: Chunk<Triangle<u8>> = list.produce(70);
    assert_eq!(tail[0], cube_triangle(&cubes[5], 10));
    assert_eq!(tail[1], cube_triangle(&cubes[5], 11));
    assert!(tail[2..].iter().all(|x| *x == ([0; 3], [0; 3], [0; 3])));
}

#[test]
fn unflag_keeps_index_and_clears_flag() {
    let x = IndexFlag::from_parts(7, true);
    assert!(x.flag());
    let y = x.unflag();
    assert_eq!(y.index(), 7);
    assert!(!y.flag());
    assert_eq!(y.unflag(), y);
    let z = IndexFlag::from_parts(3, false);
    assert_eq!(z.unflag(), z);
}

#[test]
fn quad_chunk_at_odd_offset_fills_every_position() {
    let quads: Vec<Quad<u8>> =
        (0u8..40).map(|z| [[0, 0, z], [1, 0, z], [0, 1, z], [1, 1, z]]).collect();
    let list: &[Quad<u8>] = &quads;
    let chunk: Chunk<Triangle<u8>> = list.produce(3);
    for t in 0..64usize {
        let v = 3 + t;
        let (a, b) = quad_to_triangles(quads[v / 2]);
        assert_eq!(chunk[t], if v % 2 == 0 { a } else { b });
    }
    // Position 63 is virtual triangle 66: the first triangle of quad 33.
    assert_eq!(chunk[63], quad_to_triangles(quads[33]).0);
}
