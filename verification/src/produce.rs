//! Produce Pattern: virtual lists that hand out chunks of 64 items.

use vstd::prelude::*;

use crate::geometry::{
    aabb_to_cube, cube_triangle, quad_to_triangles, spec_aabb_to_cube, spec_cube_triangle,
    spec_quad_to_triangles, Aabb, Chunk, Cube, Quad, Triangle,
};

verus! {

/// The mask with the lowest `min(n, 64)` bits set.
pub open spec fn chunk_mask_of(n: nat) -> u64 {
    if n >= 64 {
        0xffff_ffff_ffff_ffffu64
    } else {
        vstd::bits::low_bits_mask(n) as u64
    }
}

/// Gets the initial chunk mask: one bit for each item of the list that the chunk
/// at `offset` covers.
pub fn init_chunk_mask(len: usize, offset: usize) -> (r: u64)
    requires
        offset <= len,
    ensures
        r == chunk_mask_of((len - offset) as nat),
{
    let d = len - offset;
    if d >= 64 {
        0xffff_ffff_ffff_ffffu64
    } else {
        let n = d as u64;
        proof {
            vstd::bits::lemma_u64_pow2_no_overflow(n as nat);
            vstd::bits::lemma_u64_shl_is_mul(1, n);
        }
        (1u64 << n) - 1
    }
}


/// Implemented by virtual lists that produces chunks of data.
pub trait Produce<T> {
    /// The length of the virtual list.
    spec fn spec_virtual_length(&self) -> int;

    /// The offsets at which a chunk can be produced.
    spec fn produce_req(&self, offset: usize) -> bool;

    /// Whether `chunk` is the chunk that the list produces at `offset`.
    spec fn produces(&self, offset: usize, chunk: Seq<T>) -> bool;

    /// The length of the virtual list.
    fn virtual_length(&self) -> (r: usize)
        requires
            self.spec_virtual_length() <= usize::MAX,
        ensures
            r == self.spec_virtual_length(),
    ;

    /// Produce a chunk at some offset.
    fn produce(&self, offset: usize) -> (r: Chunk<T>)
        requires
            self.produce_req(offset),
        ensures
            self.produces(offset, r@),
    ;
}

/// Whether `d` is a value that `T::default()` returns.
pub open spec fn is_default<T: Default>(d: T) -> bool {
    call_ensures(T::default, (), d)
}

/// The triangle whose corners all have every coordinate `d`.
pub open spec fn uniform_triangle<S>(d: S) -> Triangle<S> {
    ([d, d, d], [d, d, d], [d, d, d])
}

/// The chunk of a plain list at `offset`: item `t` of the chunk is item `offset + t`
/// of the list where the list has one, and `filler` elsewhere.
pub open spec fn list_chunk<T>(list: Seq<T>, offset: int, chunk: Seq<T>, filler: T) -> bool {
    &&& chunk.len() == 64
    &&& forall|t: int|
        0 <= t < 64 ==> #[trigger] chunk[t] == if offset + t < list.len() {
            list[offset + t]
        } else {
            filler
        }
}

impl<T: Default + Copy> Produce<T> for [T] {
    open spec fn spec_virtual_length(&self) -> int {
        self@.len() as int
    }

    open spec fn produce_req(&self, offset: usize) -> bool {
        offset <= self@.len()
    }

    open spec fn produces(&self, offset: usize, chunk: Seq<T>) -> bool {
        exists|filler: T| is_default(filler) && #[trigger] list_chunk(self@, offset as int, chunk, filler)
    }

    fn virtual_length(&self) -> (r: usize) {
        self.len()
    }

    fn produce(&self, offset: usize) -> (r: Chunk<T>) {
        let filler = T::default();
        let mut chunk: Chunk<T> = [filler; 64];
        let len = self.len();
        let n = if len - offset < 64 {
            len - offset
        } else {
            64
        };
        let mut i: usize = 0;
        while i < n
            invariant
                len == self@.len(),
                n <= 64,
                offset + n <= self@.len(),
                n == 64 || offset + n == self@.len(),
                i <= n,
                chunk@.len() == 64,
                forall|t: int| 0 <= t < i ==> #[trigger] chunk@[t] == self@[offset + t],
                forall|t: int| i <= t < 64 ==> #[trigger] chunk@[t] == filler,
            decreases n - i,
        {
            chunk[i] = self[offset + i];
            i = i + 1;
        }
        assert(list_chunk(self@, offset as int, chunk@, filler));
        chunk
    }
}

impl<T: Default + Copy> Produce<T> for Vec<T> {
    open spec fn spec_virtual_length(&self) -> int {
        self@.len() as int
    }

    open spec fn produce_req(&self, offset: usize) -> bool {
        offset <= self@.len()
    }

    open spec fn produces(&self, offset: usize, chunk: Seq<T>) -> bool {
        exists|filler: T| is_default(filler) && #[trigger] list_chunk(self@, offset as int, chunk, filler)
    }

    fn virtual_length(&self) -> (r: usize) {
        self.as_slice().virtual_length()
    }

    fn produce(&self, offset: usize) -> (r: Chunk<T>) {
        self.as_slice().produce(offset)
    }
}

/// The first (`h == 0`) or second triangle of a quad.
pub open spec fn quad_triangle<S>(q: Quad<S>, h: int) -> Triangle<S> {
    if h == 0 {
        spec_quad_to_triangles(q).0
    } else {
        spec_quad_to_triangles(q).1
    }
}

/// The triangle that a list of quads puts at position `t` of the chunk at `offset`:
/// virtual triangle `offset + t`, that is triangle `(offset + t) % 2` of quad
/// `(offset + t) / 2`, where the list has that quad.
pub open spec fn quad_chunk_item<S>(quads: Seq<Quad<S>>, offset: int, t: int) -> Option<
    Triangle<S>,
> {
    let v = offset + t;
    if v / 2 < quads.len() {
        Some(quad_triangle(quads[v / 2], v % 2))
    } else {
        None
    }
}

impl<S: Default + Copy> Produce<Triangle<S>> for [Quad<S>] {
    open spec fn spec_virtual_length(&self) -> int {
        (self@.len() * 2) as int
    }

    open spec fn produce_req(&self, offset: usize) -> bool {
        offset / 2 <= self@.len()
    }

    open spec fn produces(&self, offset: usize, chunk: Seq<Triangle<S>>) -> bool {
        exists|d: S| is_default(d) && #[trigger] quad_chunk(self@, offset as int, chunk, uniform_triangle(d))
    }

    fn virtual_length(&self) -> (r: usize) {
        self.len() * 2
    }

    fn produce(&self, offset: usize) -> (r: Chunk<Triangle<S>>) {
        let d = S::default();
        let filler: Triangle<S> = ([d, d, d], [d, d, d], [d, d, d]);
        let mut chunk: Chunk<Triangle<S>> = [filler; 64];
        let len = self.len();
        let j = offset / 2;
        let k = offset % 2;
        let mut t: usize = 0;
        while t < 64
            invariant
                len == self@.len(),
                j == offset / 2,
                k == offset % 2,
                j <= len,
                t <= 64,
                filler == uniform_triangle(d),
                chunk@.len() == 64,
                forall|u: int| 0 <= u < t ==> #[trigger] chunk@[u] == match quad_chunk_item(self@, offset as int, u) {
                    Some(x) => x,
                    None => filler,
                },
                forall|u: int| t <= u < 64 ==> #[trigger] chunk@[u] == filler,
            decreases 64 - t,
        {
            let c = (k + t) / 2;
            proof {
                let o = offset as int;
                let tt = t as int;
                assert((o + tt) / 2 == j + c && (o + tt) % 2 == (k + tt) % 2) by (nonlinear_arith)
                    requires
                        o == 2 * j + k,
                        0 <= k < 2,
                        tt >= 0,
                        c == (k + tt) / 2,
                ;
            }
            if c < len - j {
                let (a, b) = quad_to_triangles(self[j + c]);
                chunk[t] = if (k + t) % 2 == 0 {
                    a
                } else {
                    b
                };
            }
            t = t + 1;
        }
        assert(quad_chunk(self@, offset as int, chunk@, uniform_triangle(d)));
        chunk
    }
}

/// Whether `chunk` holds the items that a list of quads puts into the chunk at
/// `offset`, and `filler` at every other position.
pub open spec fn quad_chunk<S>(quads: Seq<Quad<S>>, offset: int, chunk: Seq<Triangle<S>>, filler: Triangle<S>) -> bool {
    &&& chunk.len() == 64
    &&& forall|t: int|
        0 <= t < 64 ==> #[trigger] chunk[t] == match quad_chunk_item(quads, offset, t) {
            Some(x) => x,
            None => filler,
        }
}

/// Converts into cubes.
pub trait IntoCube<S> {
    /// The cube that a value stands for.
    spec fn spec_into_cube(self) -> Cube<S>;

    /// Convert into cube.
    fn into_cube(self) -> (r: Cube<S>)
        ensures
            r == self.spec_into_cube(),
    ;
}

impl<S: Copy> IntoCube<S> for Cube<S> {
    open spec fn spec_into_cube(self) -> Cube<S> {
        self
    }

    fn into_cube(self) -> (r: Cube<S>) {
        self
    }
}

impl<S: Copy> IntoCube<S> for Aabb<S> {
    open spec fn spec_into_cube(self) -> Cube<S> {
        spec_aabb_to_cube(self)
    }

    fn into_cube(self) -> (r: Cube<S>) {
        aabb_to_cube(self)
    }
}

/// The triangle that a list of cubes puts at position `t` of the chunk at `offset`:
/// virtual triangle `offset + t`, which is triangle `(offset + t) % 12` of cube
/// `(offset + t) / 12`, where the list has that cube.
pub open spec fn cube_chunk_item<S, C: IntoCube<S>>(cubes: Seq<C>, offset: int, t: int) -> Option<
    Triangle<S>,
> {
    let v = offset + t;
    if v / 12 < cubes.len() {
        Some(spec_cube_triangle(cubes[v / 12].spec_into_cube(), v % 12))
    } else {
        None
    }
}

/// Whether `chunk` holds the items that a list of cubes puts into the chunk at
/// `offset`, and `filler` at every other position.
pub open spec fn cube_chunk<S, C: IntoCube<S>>(cubes: Seq<C>, offset: int, chunk: Seq<Triangle<S>>, filler: Triangle<S>) -> bool {
    &&& chunk.len() == 64
    &&& forall|t: int|
        0 <= t < 64 ==> #[trigger] chunk[t] == match cube_chunk_item(cubes, offset, t) {
            Some(x) => x,
            None => filler,
        }
}

/// Produces the chunk of triangles at `offset` of a list of cubes.
fn produce_cube_triangles<S: Default + Copy, C: IntoCube<S> + Copy>(list: &[C], offset: usize) -> (r: Chunk<
    Triangle<S>,
>)
    requires
        offset / 12 <= list@.len(),
    ensures
        exists|d: S| is_default(d) && #[trigger] cube_chunk(list@, offset as int, r@, uniform_triangle(d)),
{
    let d = S::default();
    let filler: Triangle<S> = ([d, d, d], [d, d, d], [d, d, d]);
    let mut chunk: Chunk<Triangle<S>> = [filler; 64];
    let len = list.len();
    let j = offset / 12;
    let k = offset % 12;
    let mut t: usize = 0;
    while t < 64
        invariant
            len == list@.len(),
            j == offset / 12,
            k == offset % 12,
            j <= len,
            t <= 64,
            filler == uniform_triangle(d),
            chunk@.len() == 64,
            forall|u: int| 0 <= u < t ==> #[trigger] chunk@[u] == match cube_chunk_item(list@, offset as int, u) {
                Some(x) => x,
                None => filler,
            },
            forall|u: int| t <= u < 64 ==> #[trigger] chunk@[u] == filler,
        decreases 64 - t,
    {
        let c = (k + t) / 12;
        proof {
            let o = offset as int;
            let tt = t as int;
            assert((o + tt) / 12 == j + c && (o + tt) % 12 == (k + tt) % 12) by (nonlinear_arith)
                requires
                    o == 12 * j + k,
                    0 <= k < 12,
                    tt >= 0,
                    c == (k + tt) / 12,
            ;
        }
        if c < len - j {
            let cube = list[j + c].into_cube();
            let tri = cube_triangle(&cube, (k + t) % 12);
            chunk[t] = tri;
        }
        t = t + 1;
    }
    assert(cube_chunk(list@, offset as int, chunk@, uniform_triangle(d)));
    chunk
}

impl<S: Default + Copy> Produce<Triangle<S>> for [Cube<S>] {
    open spec fn spec_virtual_length(&self) -> int {
        (self@.len() * 12) as int
    }

    open spec fn produce_req(&self, offset: usize) -> bool {
        offset / 12 <= self@.len()
    }

    open spec fn produces(&self, offset: usize, chunk: Seq<Triangle<S>>) -> bool {
        exists|d: S| is_default(d) && #[trigger] cube_chunk(self@, offset as int, chunk, uniform_triangle(d))
    }

    fn virtual_length(&self) -> (r: usize) {
        self.len() * 12
    }

    fn produce(&self, offset: usize) -> (r: Chunk<Triangle<S>>) {
        produce_cube_triangles(self, offset)
    }
}

impl<S: Default + Copy> Produce<Triangle<S>> for [Aabb<S>] {
    open spec fn spec_virtual_length(&self) -> int {
        (self@.len() * 12) as int
    }

    open spec fn produce_req(&self, offset: usize) -> bool {
        offset / 12 <= self@.len()
    }

    open spec fn produces(&self, offset: usize, chunk: Seq<Triangle<S>>) -> bool {
        exists|d: S| is_default(d) && #[trigger] cube_chunk(self@, offset as int, chunk, uniform_triangle(d))
    }

    fn virtual_length(&self) -> (r: usize) {
        self.len() * 12
    }

    fn produce(&self, offset: usize) -> (r: Chunk<Triangle<S>>) {
        produce_cube_triangles(self, offset)
    }
}

/// Virtual triangle `v` of a list of quads: triangle `v % 2` of quad `v / 2`.
pub open spec fn quad_virtual_triangle<S>(quads: Seq<Quad<S>>, v: int) -> Triangle<S> {
    quad_triangle(quads[v / 2], v % 2)
}

/// Virtual triangle `v` of a list of cubes: triangle `v % 12` of cube `v / 12`.
pub open spec fn cube_virtual_triangle<S, C: IntoCube<S>>(cubes: Seq<C>, v: int) -> Triangle<S> {
    spec_cube_triangle(cubes[v / 12].spec_into_cube(), v % 12)
}

/// Every position `t` of a chunk of quad triangles holds virtual triangle
/// `offset + t` wherever the list has one.
pub proof fn lemma_quad_chunk_virtual<S>(quads: Seq<Quad<S>>, offset: int, t: int)
    requires
        0 <= t < 64,
        (offset + t) / 2 < quads.len(),
    ensures
        quad_chunk_item(quads, offset, t) == Some(quad_virtual_triangle(quads, offset + t)),
{
}

/// Every position `t` of a chunk of cube triangles holds virtual triangle
/// `offset + t` wherever the list has one.
pub proof fn lemma_cube_chunk_virtual<S, C: IntoCube<S>>(cubes: Seq<C>, offset: int, t: int)
    requires
        0 <= t < 64,
        (offset + t) / 12 < cubes.len(),
    ensures
        cube_chunk_item(cubes, offset, t) == Some(cube_virtual_triangle(cubes, offset + t)),
{
}

} // verus!
