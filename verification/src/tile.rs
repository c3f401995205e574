//! Tile scheduling: tile grids, adaptive sub-tiling and mask preparation.

use vstd::prelude::*;

use crate::mask::{CompressedMasks, ones_total};

verus! {

/// The tile sizes that `optimal_sub_tile_size` produces.
pub open spec fn is_optimal_tile_size(t: u32) -> bool {
    t == 12 || t == 24 || t == 36 || t == 48 || t == 60 || t == 120
}

/// Whether `t` is one of the tile sizes that `optimal_sub_tile_size` produces.
pub fn is_optimal_sub_tile_size(t: u32) -> (r: bool)
    ensures
        r == is_optimal_tile_size(t),
{
    t == 12 || t == 24 || t == 36 || t == 48 || t == 60 || t == 120
}

/// The optimal tile size for a requested tile size.
pub open spec fn optimal_sub_tile_size_spec(tile_size: u32) -> u32 {
    if tile_size <= 12 {
        12
    } else if tile_size <= 24 {
        24
    } else if tile_size <= 36 {
        36
    } else if tile_size <= 48 {
        48
    } else if tile_size <= 60 {
        60
    } else {
        120
    }
}

/// The optimal tile size for a requested size is the smallest of the sizes 12, 24,
/// 36, 48, 60 and 120 that is at least the request (it is no larger than any of
/// them that the request does not exceed), and 120 for a request above all of them.
pub proof fn lemma_optimal_sub_tile_size_smallest(tile_size: u32)
    ensures
        ({
            let r = optimal_sub_tile_size_spec(tile_size);
            &&& r == 12 || r == 24 || r == 36 || r == 48 || r == 60 || r == 120
            &&& tile_size <= 120 ==> tile_size <= r
            &&& tile_size <= 12 ==> r <= 12
            &&& tile_size <= 24 ==> r <= 24
            &&& tile_size <= 36 ==> r <= 36
            &&& tile_size <= 48 ==> r <= 48
            &&& tile_size <= 60 ==> r <= 60
            &&& tile_size > 120 ==> r == 120
        }),
{
}

/// Get optimal tile size for sub-tiling.
///
/// When sub-tiling is enabled, it should override the tile size set by the user,
/// to use a better number with more divisors.
pub fn optimal_sub_tile_size(tile_size: u32) -> (r: u32)
    ensures
        r == optimal_sub_tile_size_spec(tile_size),
        is_optimal_tile_size(r),
        tile_size <= 120 ==> tile_size <= r,
        forall|r2: u32| is_optimal_tile_size(r2) && tile_size <= r2 ==> r <= r2,
        tile_size > 120 ==> r == 120,
{
    proof {
        lemma_optimal_sub_tile_size_smallest(tile_size);
    }
    match tile_size {
        0..=12 => 12,
        13..=24 => 24,
        25..=36 => 36,
        37..=48 => 48,
        49..=60 => 60,
        _ => 120,
    }
}

/// Whether `d` can serve as the sub-tile size of a tile of size `t`: a divisor of `t`
/// strictly between 1 and `t`.
pub open spec fn is_sub_tile_size(t: u32, d: u32) -> bool {
    1 < d < t && t % d == 0
}

/// Whether splitting a tile of size `t` into sub-tiles of size `d` leaves fewer than
/// `k` of the `x` triangles per sub-tile on average, where `t / d` sub-tiles stand on
/// each side.
pub open spec fn below_limit(t: u32, x: u32, d: u32, k: u32) -> bool {
    (x as int / ((t / d) as int * (t / d) as int)) < k
}

/// The largest sub-tile size of a tile of size `t`, not above `d`, whose sub-tiles hold
/// fewer than `k` of the `tri` triangles on average; 2 if there is none above 2.
pub open spec fn largest_sub_tile_below(t: u32, tri: u32, k: u32, d: u32) -> u32
    decreases d,
{
    if d <= 2 {
        2
    } else if is_sub_tile_size(t, d) && below_limit(t, tri, d, k) {
        d
    } else {
        largest_sub_tile_below(t, tri, k, (d - 1) as u32)
    }
}

/// The sub-tile size that `sub_tile` chooses: the largest divisor of the tile size
/// whose sub-tiles hold fewer than `k` triangles on average, 2 if there is none.
pub open spec fn sub_tile_spec(t: u32, tri: u32, k: u32) -> u32 {
    largest_sub_tile_below(t, tri, k, (t - 1) as u32)
}

/// A divisor of `t` below `t` is at most half of `t`.
proof fn lemma_proper_divisor_at_most_half(t: u32, d: u32)
    requires
        is_sub_tile_size(t, d),
    ensures
        d <= t / 2,
        2 <= t / d,
{
    let q = t / d;
    assert(t == d * q) by (nonlinear_arith)
        requires
            t % d == 0,
            d > 0,
            q == t / d,
    ;
    assert(q >= 2) by (nonlinear_arith)
        requires
            t == d * q,
            d < t,
            d > 1,
    ;
    assert(d <= t / 2) by (nonlinear_arith)
        requires
            t == d * q,
            q >= 2,
            d > 1,
    ;
}

/// The scan from `d` downward returns a sub-tile size below the limit, or 2; and no
/// sub-tile size above what it returns, up to `d`, is below the limit.
proof fn lemma_largest_sub_tile_below(t: u32, tri: u32, k: u32, d: u32)
    ensures
        ({
            let r = largest_sub_tile_below(t, tri, k, d);
            &&& r == 2 || (is_sub_tile_size(t, r) && below_limit(t, tri, r, k) && r <= d)
            &&& forall|e: u32|
                r < e <= d && is_sub_tile_size(t, e) ==> !#[trigger] below_limit(t, tri, e, k)
        }),
    decreases d,
{
    if d > 2 && !(is_sub_tile_size(t, d) && below_limit(t, tri, d, k)) {
        lemma_largest_sub_tile_below(t, tri, k, (d - 1) as u32);
    }
}

/// Average per sub-tile, as the tile code computes it, for a sub-tile size `d`.
fn per_sub_tile(t: u32, x: u32, d: u32) -> (r: u32)
    requires
        is_sub_tile_size(t, d),
        t <= 120,
    ensures
        r == x as int / ((t / d) as int * (t / d) as int),
{
    proof {
        lemma_proper_divisor_at_most_half(t, d);
    }
    let n = t / d;
    assert(1 <= n <= 60) by (nonlinear_arith)
        requires
            n == t / d,
            2 <= n,
            d >= 2,
            t <= 120,
    ;
    assert(1 <= n * n <= 3600) by (nonlinear_arith)
        requires
            1 <= n <= 60,
    ;
    x / (n * n)
}

/// Calculate the largest divisor sub-tile-size where average number of triangles
/// is less than `k`.
///
/// The input of `opt_tile_size` should be an output of `optimal_sub_tile_size`.
///
/// The initial condition of sub-tiling is `triangles_in_tile >= k`.
pub fn sub_tile(opt_tile_size: u32, triangles_in_tile: u32, k: u32) -> (r: u32)
    requires
        is_optimal_tile_size(opt_tile_size),
    ensures
        r == sub_tile_spec(opt_tile_size, triangles_in_tile, k),
{
    let t = opt_tile_size;
    let tri = triangles_in_tile;
    let mut d: u32 = t - 1;
    while d > 2
        invariant
            t == opt_tile_size,
            tri == triangles_in_tile,
            2 <= d < t,
            is_optimal_tile_size(t),
            largest_sub_tile_below(t, tri, k, d) == sub_tile_spec(t, tri, k),
        decreases d,
    {
        if t % d == 0 {
            if per_sub_tile(t, tri, d) < k {
                assert(is_sub_tile_size(t, d) && below_limit(t, tri, d, k));
                return d;
            }
        }
        d = d - 1;
    }
    2
}

/// A chosen sub-tile size splits the tile exactly into at least 2 by 2 sub-tiles.
pub proof fn lemma_sub_tile_divides(t: u32, tri: u32, k: u32)
    requires
        is_optimal_tile_size(t),
    ensures
        2 <= sub_tile_spec(t, tri, k) <= t / 2,
        t % sub_tile_spec(t, tri, k) == 0,
        t / sub_tile_spec(t, tri, k) <= 60,
{
    let r = sub_tile_spec(t, tri, k);
    lemma_largest_sub_tile_below(t, tri, k, (t - 1) as u32);
    if r == 2 {
        assert(t % 2 == 0);
    } else {
        lemma_proper_divisor_at_most_half(t, r);
        assert(t / r <= 60) by (nonlinear_arith)
            requires
                r >= 2,
                t <= 120,
        ;
    }
}

/// For every tile size that `optimal_sub_tile_size` produces, `sub_tile` picks the largest
/// divisor of the tile size whose sub-tiles hold fewer than `k` triangles on average, and
/// 2 where there is none: the chosen size is a sub-tile size, its sub-tiles hold fewer than
/// `k` triangles or it is 2, and no larger sub-tile size would hold fewer than `k`.
pub proof fn lemma_sub_tile_largest_below_limit(t: u32, tri: u32, k: u32)
    requires
        is_optimal_tile_size(t),
    ensures
        is_sub_tile_size(t, sub_tile_spec(t, tri, k)),
        below_limit(t, tri, sub_tile_spec(t, tri, k), k) || sub_tile_spec(t, tri, k) == 2,
        forall|d: u32|
            is_sub_tile_size(t, d) && sub_tile_spec(t, tri, k) < d ==> !#[trigger] below_limit(
                t,
                tri,
                d,
                k,
            ),
{
    lemma_largest_sub_tile_below(t, tri, k, (t - 1) as u32);
    assert(t % 2 == 0);
}

/// The number of tiles of size `tile_size` needed to cover `len` pixels.
///
/// A zero tile size gives no tiles for an empty side and `u32::MAX` tiles otherwise.
pub open spec fn tiles_to_cover(len: u32, tile_size: u32) -> u32 {
    if tile_size == 0 {
        if len == 0 {
            0
        } else {
            u32::MAX
        }
    } else {
        ((len as int + tile_size as int - 1) / tile_size as int) as u32
    }
}

fn tiles_to_cover_exec(len: u32, tile_size: u32) -> (r: u32)
    ensures
        r == tiles_to_cover(len, tile_size),
{
    if tile_size == 0 {
        if len == 0 {
            0
        } else {
            u32::MAX
        }
    } else {
        let q = len / tile_size;
        let r = len % tile_size;
        proof {
            let l = len as int;
            let ts = tile_size as int;
            assert((l + ts - 1) / ts == l / ts + (if l % ts == 0 { 0int } else { 1int })
                && (l % ts != 0 ==> l / ts + 1 <= l)) by (nonlinear_arith)
                requires
                    ts > 0,
                    l >= 0,
            ;
        }
        if r == 0 {
            q
        } else {
            q + 1
        }
    }
}

/// Calculate the grid size of tiles needed to cover image.
///
/// Dimension is the size of image in pixels.
///
/// Indices are in the grid of tiles.
pub fn tile_grid(dim: [u32; 2], tile_size: u32) -> (r: [u32; 2])
    ensures
        r[0] == tiles_to_cover(dim[0], tile_size),
        r[1] == tiles_to_cover(dim[1], tile_size),
{
    let tw = tiles_to_cover_exec(dim[0], tile_size);
    let th = tiles_to_cover_exec(dim[1], tile_size);
    [tw, th]
}

/// With a tile size above zero, the grid covers the image and no tile row or column is
/// left fully outside it.
pub proof fn lemma_tile_grid_covers(len: u32, tile_size: u32)
    requires
        tile_size > 0,
    ensures
        tiles_to_cover(len, tile_size) as int * tile_size as int >= len as int,
        tiles_to_cover(len, tile_size) > 0 ==> (tiles_to_cover(len, tile_size) as int - 1)
            * (tile_size as int) < (len as int),
{
    let n = (len as int + tile_size as int - 1) / tile_size as int;
    assert(n * (tile_size as int) >= (len as int) && (n > 0 ==> (n - 1) * (tile_size as int)
        < (len as int)) && 0 <= n <= len) by (nonlinear_arith)
        requires
            n == (len as int + tile_size as int - 1) / tile_size as int,
            tile_size > 0,
            len >= 0,
    ;
    assert(0 <= n <= len);
    assert(n <= u32::MAX);
}

/// Prepare row sub-tile compressed masks.
pub fn pre_row_sub_masks(dim: [u32; 2], n_tile_size: u32) -> (r: Vec<Vec<CompressedMasks>>)
    ensures
        r@.len() == tiles_to_cover(dim[1], n_tile_size),
        forall|j: int| 0 <= j < r@.len() ==> (#[trigger] r@[j])@.len() == 0,
{
    let h = tile_grid(dim, n_tile_size)[1];
    let mut rows: Vec<Vec<CompressedMasks>> = Vec::new();
    let mut j: u32 = 0;
    while j < h
        invariant
            j <= h,
            rows@.len() == j,
            forall|i: int| 0 <= i < rows@.len() ==> (#[trigger] rows@[i])@.len() == 0,
        decreases h - j,
    {
        rows.push(Vec::new());
        j = j + 1;
    }
    rows
}

/// Prepare compressed masks, one empty mask sequence per tile.
pub fn pre_masks(dim: [u32; 2], n_tile_size: u32) -> (r: Vec<CompressedMasks>)
    requires
        tiles_to_cover(dim[0], n_tile_size) as int * tiles_to_cover(dim[1], n_tile_size) as int
            <= u32::MAX,
    ensures
        r@.len() == tiles_to_cover(dim[0], n_tile_size) as int * tiles_to_cover(
            dim[1],
            n_tile_size,
        ) as int,
        forall|k: int| 0 <= k < r@.len() ==> (#[trigger] r@[k]).wf() && r@[k]@.len() == 0,
{
    let grid = tile_grid(dim, n_tile_size);
    let n = grid[0] * grid[1];
    let mut masks: Vec<CompressedMasks> = Vec::new();
    let mut k: u32 = 0;
    while k < n
        invariant
            k <= n,
            masks@.len() == k,
            forall|i: int| 0 <= i < masks@.len() ==> (#[trigger] masks@[i]).wf() && masks@[i]@.len()
                == 0,
        decreases n - k,
    {
        masks.push(CompressedMasks::new());
        k = k + 1;
    }
    masks
}

/// The number of triangles of a tile as the tile scheduler counts them:
/// the total of set bits, truncated to 32 bits.
pub open spec fn tile_triangles(m: Seq<u64>) -> u32 {
    (ones_total(m) % 0x1_0000_0000) as u32
}

/// The sub-mask slots that the tiles of a row use, one entry per tile:
/// `None` for a tile without sub-tiling, or the sub-tile size and the slot offset.
pub open spec fn row_sub_tiles(t: u32, limit: u32, tris: Seq<u32>) -> Seq<
    (u32, Option<(u32, usize)>),
>
    decreases tris.len(),
{
    if tris.len() == 0 {
        Seq::empty()
    } else {
        let prev = tris.drop_last();
        let tri = tris.last();
        row_sub_tiles(t, limit, prev).push(
            (
                (tris.len() - 1) as u32,
                if tri >= limit {
                    Some((sub_tile_spec(t, tri, limit), row_sub_tile_slots(t, limit, prev) as usize))
                } else {
                    None
                },
            ),
        )
    }
}

/// The number of sub-mask slots that a row of tiles uses.
pub open spec fn row_sub_tile_slots(t: u32, limit: u32, tris: Seq<u32>) -> nat
    decreases tris.len(),
{
    if tris.len() == 0 {
        0
    } else {
        let prev = tris.drop_last();
        let tri = tris.last();
        row_sub_tile_slots(t, limit, prev) + if tri >= limit {
            let n = t / sub_tile_spec(t, tri, limit);
            (n * n) as nat
        } else {
            0
        }
    }
}

/// The sub-tiling list of a row has one entry per tile, in column order: tile `c`
/// gets `None` when it holds fewer triangles than the limit, and otherwise the
/// sub-tile size that `sub_tile` chooses for it together with the number of slots
/// that the sub-tiled tiles before it in the row use.
pub proof fn lemma_row_sub_tiles_entries(t: u32, limit: u32, tris: Seq<u32>)
    ensures
        row_sub_tiles(t, limit, tris).len() == tris.len(),
        forall|c: int|
            0 <= c < tris.len() ==> #[trigger] row_sub_tiles(t, limit, tris)[c] == (
                c as u32,
                if tris[c] >= limit {
                    Some((sub_tile_spec(t, tris[c], limit), row_sub_tile_slots(t, limit, tris.take(c)) as usize))
                } else {
                    None
                },
            ),
    decreases tris.len(),
{
    if tris.len() > 0 {
        let prev = tris.drop_last();
        lemma_row_sub_tiles_entries(t, limit, prev);
        assert forall|c: int| 0 <= c < tris.len() implies #[trigger] row_sub_tiles(t, limit, tris)[c] == (
            c as u32,
            if tris[c] >= limit {
                Some((sub_tile_spec(t, tris[c], limit), row_sub_tile_slots(t, limit, tris.take(c)) as usize))
            } else {
                None
            },
        ) by {
            if c < tris.len() - 1 {
                assert(prev[c] == tris[c]);
                assert(prev.take(c) =~= tris.take(c));
            } else {
                assert(prev =~= tris.take(c));
            }
        }
    }
}

/// The triangle counts of the tiles `row * w .. row * w + cols` of a mask table.
pub open spec fn row_triangles(masks: Seq<CompressedMasks>, w: int, row: int, cols: int) -> Seq<
    u32,
> {
    Seq::new(cols as nat, |c: int| tile_triangles(masks[row * w + c]@))
}

/// Lists, for each tile of a row, whether it is sub-tiled:
/// `(col, None)` means no sub-tiling and `(col, Some((st, offset)))` means sub-tiling
/// of size `st` with sub-mask offset.
///
/// The sub-mask offset is relative to some list per row that
/// stores compressed masks for sub-tiling.
pub fn row_sub_tile_iter(
    n_tile_size: u32,
    grid: [u32; 2],
    row: u32,
    triangle_limit_per_tile: u32,
    masks: &[CompressedMasks],
) -> (r: Vec<(u32, Option<(u32, usize)>)>)
    requires
        is_optimal_tile_size(n_tile_size),
        grid[0] == 0 || row as int * grid[0] as int + grid[0] as int - 1 <= u32::MAX,
        row as int * grid[0] as int + grid[0] as int <= masks@.len(),
        grid[0] as int * 3600 <= usize::MAX,
        forall|c: int|
            0 <= c < grid[0] ==> (#[trigger] masks@[row * grid[0] + c]).wf() && ones_total(
                masks@[row * grid[0] + c]@,
            ) <= u64::MAX,
    ensures
        r@ == row_sub_tiles(
            n_tile_size,
            triangle_limit_per_tile,
            row_triangles(masks@, grid[0] as int, row as int, grid[0] as int),
        ),
{
    let w = grid[0];
    let mut res: Vec<(u32, Option<(u32, usize)>)> = Vec::new();
    let mut offset: usize = 0;
    let mut col: u32 = 0;
    let ghost all = row_triangles(masks@, w as int, row as int, w as int);
    while col < w
        invariant
            col <= w,
            w == grid[0],
            is_optimal_tile_size(n_tile_size),
            all == row_triangles(masks@, w as int, row as int, w as int),
            w == 0 || row as int * w as int + w as int - 1 <= u32::MAX,
            row as int * w as int + w as int <= masks@.len(),
            w as int * 3600 <= usize::MAX,
            forall|c: int|
                0 <= c < w ==> (#[trigger] masks@[row * w + c]).wf() && ones_total(
                    masks@[row * w + c]@,
                ) <= u64::MAX,
            res@ == row_sub_tiles(n_tile_size, triangle_limit_per_tile, all.take(col as int)),
            offset == row_sub_tile_slots(n_tile_size, triangle_limit_per_tile, all.take(col as int)),
            offset <= col as int * 3600,
        decreases w - col,
    {
        let ghost prev = all.take(col as int);
        assert(all.take(col + 1).drop_last() =~= prev);
        let k = row * w + col;
        assert(masks@[row * w + col] == masks@[k as int]);
        let ones = masks[k as usize].count_ones();
        let triangles = (ones % 0x1_0000_0000) as u32;
        assert(triangles == all[col as int]);
        if triangles >= triangle_limit_per_tile {
            let st = sub_tile(n_tile_size, triangles, triangle_limit_per_tile);
            proof {
                lemma_sub_tile_divides(n_tile_size, triangles, triangle_limit_per_tile);
            }
            let n = n_tile_size / st;
            assert(n * n <= 3600) by (nonlinear_arith)
                requires
                    n <= 60,
            ;
            let start = offset;
            offset = offset + (n * n) as usize;
            res.push((col, Some((st, start))));
        } else {
            res.push((col, None));
        }
        col = col + 1;
    }
    assert(all.take(w as int) =~= all);
    res
}


/// One sub-tile mask to compute for a row of tiles.
#[derive(Copy, Clone, Debug, PartialEq, Eq)]
pub struct SubTileJob {
    /// The slot of the mask in the row's list of sub-masks.
    pub slot: usize,
    /// The position of the sub-tile in the grid of sub-tiles.
    pub pos: [u32; 2],
    /// The sub-tile size in pixels.
    pub size: u32,
    /// The index of the tile whose mask the sub-tile refines.
    pub tile: u32,
}

/// The sub-tile masks of tile `col` of row `row`, when it is split into sub-tiles
/// of size `st` whose masks start at slot `offset`: row by row of sub-tiles.
pub open spec fn sub_tile_jobs(t: u32, w: u32, row: u32, col: u32, st: u32, offset: usize) -> Seq<SubTileJob> {
    let n = t / st;
    Seq::new(
        (n * n) as nat,
        |q: int|
            SubTileJob {
                slot: (offset + q) as usize,
                pos: [(col * n + q % (n as int)) as u32, (row * n + q / (n as int)) as u32],
                size: st,
                tile: (row * w + col) as u32,
            },
    )
}

/// The sub-tile masks of a row of tiles, tile by tile.
pub open spec fn row_jobs(t: u32, w: u32, row: u32, entries: Seq<(u32, Option<(u32, usize)>)>) -> Seq<SubTileJob>
    decreases entries.len(),
{
    if entries.len() == 0 {
        Seq::empty()
    } else {
        let (col, split) = entries.last();
        row_jobs(t, w, row, entries.drop_last()) + match split {
            Some((st, offset)) => sub_tile_jobs(t, w, row, col, st, offset),
            None => Seq::empty(),
        }
    }
}

/// Whether every split tile of a row has a sub-tile size that divides the tile
/// size, and its sub-tiles' positions, tile index and slots fit their integer types.
pub open spec fn jobs_fit(t: u32, w: u32, row: u32, entries: Seq<(u32, Option<(u32, usize)>)>) -> bool {
    forall|e: int|
        0 <= e < entries.len() ==> match #[trigger] entries[e] {
            (col, Some((st, offset))) => {
                &&& 0 < st <= t
                &&& (col + 1) * (t / st) <= u32::MAX
                &&& (row + 1) * (t / st) <= u32::MAX
                &&& row * w + col <= u32::MAX
                &&& offset + (t / st) * (t / st) <= usize::MAX
            },
            (_, None) => true,
        }
}

/// Lists the sub-tile masks to compute for a row of tiles, from the list of how
/// each tile of the row is split.
pub fn row_sub_mask_jobs(
    n_tile_size: u32,
    grid: [u32; 2],
    row: u32,
    entries: &Vec<(u32, Option<(u32, usize)>)>,
) -> (r: Vec<SubTileJob>)
    requires
        jobs_fit(n_tile_size, grid[0], row, entries@),
    ensures
        r@ == row_jobs(n_tile_size, grid[0], row, entries@),
{
    let w = grid[0];
    let t = n_tile_size;
    let mut res: Vec<SubTileJob> = Vec::new();
    let ne = entries.len();
    let mut e: usize = 0;
    while e < ne
        invariant
            ne == entries@.len(),
            e <= ne,
            w == grid[0],
            t == n_tile_size,
            jobs_fit(t, w, row, entries@),
            res@ == row_jobs(t, w, row, entries@.take(e as int)),
        decreases ne - e,
    {
        assert(entries@.take(e + 1).drop_last() =~= entries@.take(e as int));
        let (col, split) = entries[e];
        assert(entries@[e as int] == (col, split));
        if let Some((st, offset)) = split {
            let n = t / st;
            let ghost base = res@;
            assert(n * n <= usize::MAX) by (nonlinear_arith)
                requires
                    offset + n * n <= usize::MAX,
                    offset >= 0,
            ;
            let nn = (n as usize) * (n as usize);
            let mut q: usize = 0;
            while q < nn
                invariant
                    nn == n * n,
                    q <= nn,
                    n == t / st,
                    0 < st,
                    (col + 1) * n <= u32::MAX,
                    (row + 1) * n <= u32::MAX,
                    row * w + col <= u32::MAX,
                    offset + n * n <= usize::MAX,
                    res@ == base + sub_tile_jobs(t, w, row, col, st, offset).take(q as int),
                decreases nn - q,
            {
                let ghost qi = q as int;
                assert(n > 0) by (nonlinear_arith)
                    requires
                        nn == n * n,
                        q < nn,
                ;
                let iu = q % (n as usize);
                let ju = q / (n as usize);
                assert(ju < n) by (nonlinear_arith)
                    requires
                        ju == qi / (n as int),
                        qi < n * n,
                        n > 0,
                ;
                let i = iu as u32;
                let j = ju as u32;
                assert(col * n + i < (col + 1) * n) by (nonlinear_arith)
                    requires
                        i < n,
                ;
                assert(row * n + j < (row + 1) * n) by (nonlinear_arith)
                    requires
                        j < n,
                ;
                let job = SubTileJob {
                    slot: offset + q,
                    pos: [col * n + i, row * n + j],
                    size: st,
                    tile: row * w + col,
                };
                assert(job == sub_tile_jobs(t, w, row, col, st, offset)[qi]);
                res.push(job);
                assert(sub_tile_jobs(t, w, row, col, st, offset).take(qi + 1)
                    =~= sub_tile_jobs(t, w, row, col, st, offset).take(qi).push(job));
                q = q + 1;
            }
            assert(sub_tile_jobs(t, w, row, col, st, offset).take(nn as int) =~= sub_tile_jobs(t, w, row, col, st, offset));
        } else {
            assert(res@ =~= row_jobs(t, w, row, entries@.take(e as int)) + Seq::<SubTileJob>::empty());
        }
        e = e + 1;
    }
    assert(entries@.take(ne as int) =~= entries@);
    res
}

/// When a row's split list comes from `row_sub_tile_iter`, its sub-tile masks fill
/// the slots of the row's list of sub-masks in order, with no gap and no slot
/// used twice, and there are as many as the row uses.
pub proof fn lemma_row_jobs_fill_slots(t: u32, limit: u32, tris: Seq<u32>, w: u32, row: u32)
    requires
        row_sub_tile_slots(t, limit, tris) <= usize::MAX,
    ensures
        row_jobs(t, w, row, row_sub_tiles(t, limit, tris)).len() == row_sub_tile_slots(t, limit, tris),
        forall|q: int|
            0 <= q < row_sub_tile_slots(t, limit, tris) ==> #[trigger] row_jobs(t, w, row, row_sub_tiles(t, limit, tris))[q].slot == q,
    decreases tris.len(),
{
    if tris.len() > 0 {
        let prev = tris.drop_last();
        let tri = tris.last();
        lemma_row_jobs_fill_slots(t, limit, prev, w, row);
        let entries = row_sub_tiles(t, limit, tris);
        assert(entries.drop_last() =~= row_sub_tiles(t, limit, prev));
        let before = row_jobs(t, w, row, row_sub_tiles(t, limit, prev));
        let all = row_jobs(t, w, row, entries);
        let base = row_sub_tile_slots(t, limit, prev);
        assert forall|q: int| 0 <= q < row_sub_tile_slots(t, limit, tris) implies #[trigger] all[q].slot == q by {
            if q < base {
                assert(all[q] == before[q]);
            } else {
                let st = sub_tile_spec(t, tri, limit);
                let jobs = sub_tile_jobs(t, w, row, (tris.len() - 1) as u32, st, base as usize);
                assert(all[q] == jobs[q - base]);
            }
        }
    }
}

/// The grid position of tile number `k` in a grid `w` tiles wide, the tiles
/// numbered row by row.
pub fn tile_at(k: u32, w: u32) -> (r: [u32; 2])
    requires
        w > 0,
    ensures
        r[0] == k % w,
        r[1] == k / w,
        r[1] as int * w as int + r[0] as int == k as int,
{
    proof {
        assert((k / w) as int * w as int + (k % w) as int == k as int) by (nonlinear_arith)
            requires
                w > 0,
        ;
    }
    [k % w, k / w]
}

/// The number of the pre-tile that covers tile `pos`, when a pre-tile spans `s` by
/// `s` tiles and the grid of pre-tiles is `w2` pre-tiles wide.
pub fn pre_tile_index(pos: [u32; 2], s: u32, w2: u32) -> (r: usize)
    requires
        s > 0,
        (pos[1] / s) as int * w2 as int + (pos[0] / s) as int <= u32::MAX,
    ensures
        r == (pos[1] / s) as int * w2 as int + (pos[0] / s) as int,
{
    let i = pos[0] / s;
    let j = pos[1] / s;
    (j * w2 + i) as usize
}

proof fn lemma_pre_tile_coord(i: u32, len: u32, t: u32, s: u32)
    requires
        t > 0,
        s > 0,
        t as int * s as int <= u32::MAX,
        i < tiles_to_cover(len, t),
    ensures
        i / s < tiles_to_cover(len, (t * s) as u32),
{
    lemma_tile_grid_covers(len, t);
    let ts = (t * s) as u32;
    assert(t as int * s as int > 0) by (nonlinear_arith)
        requires
            t > 0,
            s > 0,
    ;
    lemma_tile_grid_covers(len, ts);
    let n2 = tiles_to_cover(len, ts) as int;
    let q = (i / s) as int;
    assert(i as int * t as int <= (tiles_to_cover(len, t) as int - 1) * t as int) by (nonlinear_arith)
        requires
            (i as int) <= tiles_to_cover(len, t) as int - 1,
            t > 0,
    ;
    assert(q * (ts as int) <= i as int * t as int) by (nonlinear_arith)
        requires
            q == (i / s) as int,
            ts as int == t as int * s as int,
            s > 0,
            t > 0,
    ;
    assert(q < n2) by (nonlinear_arith)
        requires
            q * (ts as int) < len as int,
            n2 * (ts as int) >= len as int,
            ts > 0,
            q >= 0,
    ;
}

/// Every tile of a grid lies under a pre-tile of the coarser grid whose tiles are
/// `s` times as large, so the pre-tile number stays below the number of pre-tiles.
pub proof fn lemma_pre_tile_in_grid(dim: [u32; 2], t: u32, s: u32, pos: [u32; 2])
    requires
        t > 0,
        s > 0,
        t as int * s as int <= u32::MAX,
        pos[0] < tiles_to_cover(dim[0], t),
        pos[1] < tiles_to_cover(dim[1], t),
    ensures
        pos[0] / s < tiles_to_cover(dim[0], (t * s) as u32),
        pos[1] / s < tiles_to_cover(dim[1], (t * s) as u32),
        ((pos[1] / s) as int * tiles_to_cover(dim[0], (t * s) as u32) as int + (pos[0] / s) as int)
            < (tiles_to_cover(dim[0], (t * s) as u32) as int * tiles_to_cover(dim[1], (t * s) as u32) as int),
{
    lemma_pre_tile_coord(pos[0], dim[0], t, s);
    lemma_pre_tile_coord(pos[1], dim[1], t, s);
    let w2 = tiles_to_cover(dim[0], (t * s) as u32) as int;
    let h2 = tiles_to_cover(dim[1], (t * s) as u32) as int;
    let i = (pos[0] / s) as int;
    let j = (pos[1] / s) as int;
    assert(j * w2 + i < w2 * h2) by (nonlinear_arith)
        requires
            0 <= i < w2,
            0 <= j < h2,
    ;
}

/// The number of pixels of tile `i` that lie inside an image side of `len` pixels,
/// for tiles of `ts` pixels.
pub open spec fn extent_of(i: int, ts: int, len: int) -> int {
    if (i + 1) * ts <= len {
        ts
    } else {
        len - i * ts
    }
}

/// The number of pixels of tile `i` that lie inside an image side of `len` pixels,
/// for tiles of `ts` pixels: the tile size, or what is left of the side for the
/// last tile.
pub fn tile_extent(i: u32, ts: u32, len: u32) -> (r: u32)
    requires
        ts > 0,
        (i as int + 1) * ts as int <= u32::MAX,
        i as int * ts as int <= len as int,
    ensures
        r == extent_of(i as int, ts as int, len as int),
{
    proof {
        assert(i as int * ts as int + ts as int == (i as int + 1) * ts as int) by (nonlinear_arith);
        assert(i as int + 1 <= (i as int + 1) * ts as int) by (nonlinear_arith)
            requires
                ts > 0,
                i >= 0,
        ;
    }
    let end = (i + 1) * ts;
    let start = i * ts;
    let end = if end < len { end } else { len };
    end - start
}

/// The pixels of the first `k` tiles along an image side.
pub open spec fn extents_total(k: int, ts: int, len: int) -> int
    decreases k,
{
    if k <= 0 {
        0
    } else {
        extents_total(k - 1, ts, len) + extent_of(k - 1, ts, len)
    }
}

proof fn lemma_extents_prefix(k: int, ts: int, len: int)
    requires
        ts > 0,
        len >= 0,
        0 <= k,
        (k - 1) * ts < len,
    ensures
        extents_total(k, ts, len) == if k * ts <= len { k * ts } else { len },
    decreases k,
{
    if k == 0 {
        assert(k * ts == 0) by (nonlinear_arith)
            requires
                k == 0,
        ;
    } else {
        assert((k - 2) * ts < len) by (nonlinear_arith)
            requires
                (k - 1) * ts < len,
                ts > 0,
        ;
        lemma_extents_prefix(k - 1, ts, len);
        assert(extents_total(k - 1, ts, len) == (k - 1) * ts);
        assert(((k - 1) + 1) * ts == k * ts);
        assert(k * ts == (k - 1) * ts + ts) by (nonlinear_arith);
        assert(extent_of(k - 1, ts, len) == if k * ts <= len { ts } else { len - (k - 1) * ts });
        assert(extents_total(k, ts, len) == extents_total(k - 1, ts, len) + extent_of(k - 1, ts, len));
    }
}

/// The tiles of a grid split an image side exactly: every tile has between one
/// pixel and a tile size of pixels inside the side, and together they have all of
/// its pixels.
pub proof fn lemma_tile_extents_cover(len: u32, ts: u32)
    requires
        ts > 0,
    ensures
        forall|i: int|
            0 <= i < tiles_to_cover(len, ts) ==> 0 < #[trigger] extent_of(i, ts as int, len as int) <= ts,
        extents_total(tiles_to_cover(len, ts) as int, ts as int, len as int) == len,
{
    lemma_tile_grid_covers(len, ts);
    let n = tiles_to_cover(len, ts) as int;
    assert forall|i: int| 0 <= i < n implies 0 < #[trigger] extent_of(i, ts as int, len as int) <= ts by {
        assert(i * (ts as int) <= (n - 1) * (ts as int)) by (nonlinear_arith)
            requires
                i <= n - 1,
                ts > 0,
        ;
        assert((i + 1) * (ts as int) == i * (ts as int) + ts) by (nonlinear_arith);
    }
    if n > 0 {
        lemma_extents_prefix(n, ts as int, len as int);
    } else {
        assert(len == 0) by (nonlinear_arith)
            requires
                n == 0,
                n * (ts as int) >= len as int,
                len >= 0,
        ;
    }
}

} // verus!
