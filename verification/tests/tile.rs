use turbine::mask::CompressedMasks;
use turbine::tile::{
    is_optimal_sub_tile_size, optimal_sub_tile_size, pre_masks, pre_row_sub_masks, pre_tile_index,
    row_sub_mask_jobs,
    row_sub_tile_iter, sub_tile, tile_at, tile_extent, tile_grid, SubTileJob,
};
use turbine::produce::init_chunk_mask;

#[test]
fn optimal_sizes() {
    assert_eq!(optimal_sub_tile_size(0), 12);
    assert_eq!(optimal_sub_tile_size(12), 12);
    assert_eq!(optimal_sub_tile_size(13), 24);
    assert_eq!(optimal_sub_tile_size(36), 36);
    assert_eq!(optimal_sub_tile_size(37), 48);
    assert_eq!(optimal_sub_tile_size(60), 60);
    assert_eq!(optimal_sub_tile_size(61), 120);
    assert_eq!(optimal_sub_tile_size(1000), 120);
}

#[test]
fn sub_tile_choices() {
    // 12 pixels, 1000 triangles: even 2x2 pixel sub-tiles hold 1000/36 >= 10.
    assert_eq!(sub_tile(12, 1000, 10), 2);
    // Few triangles: the largest candidate is taken.
    assert_eq!(sub_tile(12, 10, 10), 6);
    assert_eq!(sub_tile(120, 10, 10), 60);
    // 48 pixels, 640 triangles, limit 10: 8 px sub-tiles hold 640/36 = 17 >= 10,
    // 4 px ones hold 640/144 = 4 < 10 and 6 px ones hold 640/64 = 10 >= 10.
    assert_eq!(sub_tile(48, 640, 10), 4);
    // No triangles: every sub-tile is below the limit, so the largest divisor is taken.
    assert_eq!(sub_tile(24, 0, 1), 12);
    // 24 pixels, 100 triangles, limit 10: 12 px sub-tiles hold 100/4 = 25, 8 px ones
    // 100/9 = 11, and 6 px ones 100/16 = 6 < 10.
    assert_eq!(sub_tile(24, 100, 10), 6);
    // 60 pixels, limit 1: 5 px sub-tiles hold 144/144 = 1, 6 px ones 144/100 = 1,
    // and 4 px ones 144/225 = 0 < 1.
    assert_eq!(sub_tile(60, 144, 1), 4);
    assert_eq!(sub_tile(60, 200, 1), 4);
    // 10 px sub-tiles of a 60 px tile are a candidate too: they hold 30/36 = 0 < 1,
    // where 12 px ones hold 30/25 = 1.
    assert_eq!(sub_tile(60, 30, 1), 10);
    // Many triangles: even the smallest candidate stays at or above the limit.
    assert_eq!(sub_tile(60, 3600, 2), 2);
}

#[test]
fn grid_covers_image() {
    assert_eq!(tile_grid([100, 50], 16), [7, 4]);
    assert_eq!(tile_grid([96, 48], 16), [6, 3]);
    assert_eq!(tile_grid([0, 1], 16), [0, 1]);
    assert_eq!(tile_grid([0, 5], 0), [0, u32::MAX]);
}

#[test]
fn prepared_masks() {
    let m = pre_masks([100, 50], 16);
    assert_eq!(m.len(), 28);
    assert!(m.iter().all(|x| x.len() == 0));
    let r = pre_row_sub_masks([100, 50], 16);
    assert_eq!(r.len(), 4);
    assert!(r.iter().all(|x| x.is_empty()));
}

#[test]
fn row_sub_tiles_offsets() {
    let mut masks = vec![CompressedMasks::new(), CompressedMasks::new(), CompressedMasks::new()];
    // Tile 0: 128 triangles, tile 1: 3, tile 2: 64.
    masks[0].push(!0);
    masks[0].push(!0);
    masks[1].push(7);
    masks[2].push(!0);
    let r = row_sub_tile_iter(12, [3, 1], 0, 10, &masks);
    // 128 triangles in a 12 px tile: 4 px sub-tiles hold 128/9 = 14 >= 10,
    // 3 px ones hold 128/16 = 8, so 3 px sub-tiles (4x4 = 16 slots).
    assert_eq!(r, vec![(0, Some((3, 0))), (1, None), (2, Some((4, 16)))]);
}

#[test]
fn chunk_masks() {
    assert_eq!(init_chunk_mask(72, 0), 0xffff_ffff_ffff_ffff);
    assert_eq!(init_chunk_mask(72, 64), 0xff);
    assert_eq!(init_chunk_mask(5, 5), 0);
    assert_eq!(init_chunk_mask(64, 1), 0x7fff_ffff_ffff_ffff);
}

#[test]
fn mask_get_len_count() {
    let mut m = CompressedMasks::new();
    for w in [0u64, 0, 5, !0, !0, 0, 3] {
        m.push(w);
    }
    assert_eq!(m.len(), 7);
    assert_eq!(m.get(0), Some(0));
    assert_eq!(m.get(2), Some(5));
    assert_eq!(m.get(3), Some(!0));
    assert_eq!(m.get(4), Some(!0));
    assert_eq!(m.get(6), Some(3));
    assert_eq!(m.get(7), None);
    assert_eq!(m.count_ones(), 2 + 64 + 64 + 2);
    m.clear();
    assert_eq!(m.len(), 0);
    assert_eq!(m.get(0), None);
    assert_eq!(m.count_ones(), 0);
}

#[test]
fn row_jobs_fill_slots_in_order() {
    let entries = vec![(0u32, Some((3u32, 0usize))), (1, None), (2, Some((4, 16)))];
    let jobs = row_sub_mask_jobs(12, [3, 2], 1, &entries);
    assert_eq!(jobs.len(), 16 + 9);
    for (q, job) in jobs.iter().enumerate() {
        assert_eq!(job.slot, q);
    }
    assert_eq!(jobs[0], SubTileJob { slot: 0, pos: [0, 4], size: 3, tile: 3 });
    assert_eq!(jobs[5], SubTileJob { slot: 5, pos: [1, 5], size: 3, tile: 3 });
    assert_eq!(jobs[15], SubTileJob { slot: 15, pos: [3, 7], size: 3, tile: 3 });
    assert_eq!(jobs[16], SubTileJob { slot: 16, pos: [6, 3], size: 4, tile: 5 });
    assert_eq!(jobs[24], SubTileJob { slot: 24, pos: [8, 5], size: 4, tile: 5 });
}

#[test]
fn row_jobs_from_split_list() {
    let mut masks = vec![CompressedMasks::new(), CompressedMasks::new()];
    masks[0].push(7);
    masks[1].push(!0);
    masks[1].push(!0);
    let entries = row_sub_tile_iter(12, [2, 1], 0, 10, &masks);
    let jobs = row_sub_mask_jobs(12, [2, 1], 0, &entries);
    assert_eq!(jobs.len(), 16);
    assert!(jobs.iter().all(|j| j.tile == 1 && j.size == 3));
    assert_eq!(jobs[15].pos, [7, 3]);
}

#[test]
fn tile_numbers_and_pre_tiles() {
    assert_eq!(tile_at(0, 7), [0, 0]);
    assert_eq!(tile_at(9, 7), [2, 1]);
    assert_eq!(tile_at(27, 7), [6, 3]);
    // 100 x 50 pixels: 7 x 4 tiles of 16 and 4 x 2 pre-tiles of 32.
    assert_eq!(tile_grid([100, 50], 32), [4, 2]);
    assert_eq!(pre_tile_index([6, 3], 2, 4), 7);
    assert_eq!(pre_tile_index([0, 0], 2, 4), 0);
    assert_eq!(pre_tile_index([5, 2], 2, 4), 6);
}

#[test]
fn tile_extents_cover_image_side() {
    assert_eq!(tile_extent(0, 16, 100), 16);
    assert_eq!(tile_extent(5, 16, 100), 16);
    assert_eq!(tile_extent(6, 16, 100), 4);
    let [w, h] = tile_grid([100, 48], 16);
    let total_w: u32 = (0..w).map(|i| tile_extent(i, 16, 100)).sum();
    let total_h: u32 = (0..h).map(|j| tile_extent(j, 16, 48)).sum();
    assert_eq!(total_w, 100);
    assert_eq!(total_h, 48);
    assert_eq!(tile_extent(3, 16, 48), 0);
}

#[test]
fn optimal_sizes_are_recognised() {
    for t in [12u32, 24, 36, 48, 60, 120] {
        assert!(is_optimal_sub_tile_size(t));
        assert_eq!(optimal_sub_tile_size(t), t);
    }
    assert!(!is_optimal_sub_tile_size(0));
    assert!(!is_optimal_sub_tile_size(16));
    assert!(!is_optimal_sub_tile_size(121));
}
