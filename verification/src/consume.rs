//! Consume pattern.
//!
//! A consumer takes items one at a time. A consumer of triangles also consumes
//! quads (two triangles each), cubes (six quads each) and axis-aligned boxes (the
//! cube that they span), so one plain `Vec` of triangles serves algorithms that
//! produce any of these.

use vstd::prelude::*;

use crate::geometry::{
    aabb_to_cube, cube_bottom, cube_far, cube_left, cube_near, cube_right, cube_top,
    quad_to_triangles, spec_aabb_to_cube, spec_cube_face, spec_cube_triangle, spec_quad_to_triangles, Aabb, Cube,
    Quad, Triangle,
};

verus! {

/// Implemented by data structures that consume something.
pub trait Consumer<T>: Sized {
    /// Whether consuming `item` takes the consumer from `before` to `after`.
    spec fn consumes(before: Self, item: T, after: Self) -> bool;

    /// Consumes one item.
    fn consume(&mut self, item: T)
        ensures
            Self::consumes(*old(self), item, *final(self)),
    ;

    /// Consumes all the items, in order.
    fn consume_all(&mut self, data: Vec<T>)
        ensures
            consumes_seq(|b: Self, x: T, a: Self| Self::consumes(b, x, a), *old(self), data@, *final(self)),
    {
        let ghost init = *self;
        let ghost items = data@;
        proof {
            assert(items.take(0) =~= Seq::<T>::empty());
            assert(consumer_run(|b: Self, x: T, a: Self| Self::consumes(b, x, a), seq![init], init, items.take(0), init));
        }
        for d in it: data
            invariant
                it.seq() == items,
                consumes_seq(|b: Self, x: T, a: Self| Self::consumes(b, x, a), init, items.take(it.index() as int), *self),
        {
            let ghost mid = *self;
            self.consume(d);
            proof {
                let k = it.index() as int;
                assert(items.take(k + 1) =~= items.take(k).push(d));
                lemma_consumes_seq_push(|b: Self, x: T, a: Self| Self::consumes(b, x, a), init, items.take(k), mid, d, *self);
            }
        }
        proof {
            assert(items.take(items.len() as int) =~= items);
        }
    }
}

/// Whether `states` walks a consumer through `items`: it starts at `before`, ends
/// at `after`, and consuming item `i` takes state `i` to state `i + 1`, where
/// `step(b, x, a)` says that consuming `x` takes a consumer from `b` to `a`.
pub open spec fn consumer_run<C, T>(
    step: spec_fn(C, T, C) -> bool,
    states: Seq<C>,
    before: C,
    items: Seq<T>,
    after: C,
) -> bool {
    &&& states.len() == items.len() + 1
    &&& states[0] == before
    &&& states[items.len() as int] == after
    &&& forall|i: int| 0 <= i < items.len() ==> #[trigger] step(states[i], items[i], states[i + 1])
}

/// Whether consuming `items` in order takes a consumer from `before` to `after`.
pub open spec fn consumes_seq<C, T>(step: spec_fn(C, T, C) -> bool, before: C, items: Seq<T>, after: C) -> bool {
    exists|states: Seq<C>| #[trigger] consumer_run(step, states, before, items, after)
}

/// Consuming one more item extends a run of consumed items.
proof fn lemma_consumes_seq_push<C, T>(
    step: spec_fn(C, T, C) -> bool,
    before: C,
    items: Seq<T>,
    mid: C,
    item: T,
    after: C,
)
    requires
        consumes_seq(step, before, items, mid),
        step(mid, item, after),
    ensures
        consumes_seq(step, before, items.push(item), after),
{
    let states = choose|states: Seq<C>| #[trigger] consumer_run(step, states, before, items, mid);
    let longer = states.push(after);
    let s = items.push(item);
    assert forall|i: int| 0 <= i < s.len() implies #[trigger] step(longer[i], s[i], longer[i + 1]) by {
        if i < items.len() {
            assert(step(states[i], items[i], states[i + 1]));
        }
    }
    assert(consumer_run(step, longer, before, s, after));
}

/// A `Vec<T>` consumes `T` by pushing it.
impl<T> Consumer<T> for Vec<T> {
    open spec fn consumes(before: Self, item: T, after: Self) -> bool {
        after@ == before@.push(item)
    }

    fn consume(&mut self, item: T) {
        self.push(item);
    }
}

/// A consumer of triangles consumes a quad as its two triangles.
impl<C, S: Copy, M: Copy> Consumer<(Quad<S>, M)> for C where C: Consumer<(Triangle<S>, M)> {
    open spec fn consumes(before: C, item: (Quad<S>, M), after: C) -> bool {
        let (a, b) = spec_quad_to_triangles(item.0);
        consumes_seq(
            |x: C, t: (Triangle<S>, M), y: C| <C as Consumer<(Triangle<S>, M)>>::consumes(x, t, y),
            before,
            seq![(a, item.1), (b, item.1)],
            after,
        )
    }

    fn consume(&mut self, item: (Quad<S>, M)) {
        let ghost before = *self;
        let (quad, mat) = item;
        let (a, b) = quad_to_triangles(quad);
        <C as Consumer<(Triangle<S>, M)>>::consume(self, (a, mat));
        let ghost mid = *self;
        <C as Consumer<(Triangle<S>, M)>>::consume(self, (b, mat));
        proof {
            let step = |x: C, t: (Triangle<S>, M), y: C| <C as Consumer<(Triangle<S>, M)>>::consumes(x, t, y);
            assert(consumer_run(step, seq![before, mid, *self], before, seq![(a, mat), (b, mat)], *self));
        }
    }
}

/// The six faces of a cube, far, near, top, bottom, left and right, each with
/// material `m`.
pub open spec fn cube_faces<S, M>(c: Cube<S>, m: M) -> Seq<(Quad<S>, M)> {
    seq![
        (spec_cube_face(c, 0), m),
        (spec_cube_face(c, 1), m),
        (spec_cube_face(c, 2), m),
        (spec_cube_face(c, 3), m),
        (spec_cube_face(c, 4), m),
        (spec_cube_face(c, 5), m),
    ]
}

/// A consumer of quads consumes a cube as its six faces.
impl<C, S: Copy, M: Copy> Consumer<(Cube<S>, M)> for C where C: Consumer<(Quad<S>, M)> {
    open spec fn consumes(before: C, item: (Cube<S>, M), after: C) -> bool {
        consumes_seq(
            |x: C, q: (Quad<S>, M), y: C| <C as Consumer<(Quad<S>, M)>>::consumes(x, q, y),
            before,
            cube_faces(item.0, item.1),
            after,
        )
    }

    fn consume(&mut self, item: (Cube<S>, M)) {
        let ghost s0 = *self;
        let (cube, mat) = item;
        <C as Consumer<(Quad<S>, M)>>::consume(self, (cube_far(&cube), mat));
        let ghost s1 = *self;
        <C as Consumer<(Quad<S>, M)>>::consume(self, (cube_near(&cube), mat));
        let ghost s2 = *self;
        <C as Consumer<(Quad<S>, M)>>::consume(self, (cube_top(&cube), mat));
        let ghost s3 = *self;
        <C as Consumer<(Quad<S>, M)>>::consume(self, (cube_bottom(&cube), mat));
        let ghost s4 = *self;
        <C as Consumer<(Quad<S>, M)>>::consume(self, (cube_left(&cube), mat));
        let ghost s5 = *self;
        <C as Consumer<(Quad<S>, M)>>::consume(self, (cube_right(&cube), mat));
        proof {
            let step = |x: C, q: (Quad<S>, M), y: C| <C as Consumer<(Quad<S>, M)>>::consumes(x, q, y);
            let faces = cube_faces(cube, mat);
            let states = seq![s0, s1, s2, s3, s4, s5, *self];
            assert forall|i: int| 0 <= i < faces.len() implies #[trigger] step(states[i], faces[i], states[i + 1]) by {
                if i == 0 {
                } else if i == 1 {
                } else if i == 2 {
                } else if i == 3 {
                } else if i == 4 {
                } else {
                }
            }
            assert(consumer_run(step, states, s0, faces, *self));
        }
    }
}

/// A consumer of cubes consumes an axis-aligned box as the cube it spans.
impl<C, S: Copy, M> Consumer<(Aabb<S>, M)> for C where C: Consumer<(Cube<S>, M)> {
    open spec fn consumes(before: C, item: (Aabb<S>, M), after: C) -> bool {
        <C as Consumer<(Cube<S>, M)>>::consumes(before, (spec_aabb_to_cube(item.0), item.1), after)
    }

    fn consume(&mut self, item: (Aabb<S>, M)) {
        let (aabb, mat) = item;
        <C as Consumer<(Cube<S>, M)>>::consume(self, (aabb_to_cube(aabb), mat));
    }
}

/// Along a run of a `Vec` consumer, state `k` holds the items of `before`
/// followed by the first `k` items consumed.
proof fn lemma_vec_run_prefix<T>(states: Seq<Vec<T>>, before: Vec<T>, items: Seq<T>, after: Vec<T>, k: int)
    requires
        consumer_run(|x: Vec<T>, t: T, y: Vec<T>| <Vec<T> as Consumer<T>>::consumes(x, t, y), states, before, items, after),
        0 <= k <= items.len(),
    ensures
        states[k]@ == before@ + items.take(k),
    decreases k,
{
    if k == 0 {
        assert(items.take(0) =~= Seq::<T>::empty());
        assert(before@ + items.take(0) =~= before@);
    } else {
        lemma_vec_run_prefix(states, before, items, after, k - 1);
        let step = |x: Vec<T>, t: T, y: Vec<T>| <Vec<T> as Consumer<T>>::consumes(x, t, y);
        assert(step(states[k - 1], items[k - 1], states[k]));
        assert(items.take(k) =~= items.take(k - 1).push(items[k - 1]));
        assert(before@ + items.take(k) =~= (before@ + items.take(k - 1)).push(items[k - 1]));
    }
}

/// A `Vec` that consumes a run of items ends up with them appended, in order.
pub proof fn lemma_vec_consumes_seq<T>(before: Vec<T>, items: Seq<T>, after: Vec<T>)
    requires
        consumes_seq(|x: Vec<T>, t: T, y: Vec<T>| <Vec<T> as Consumer<T>>::consumes(x, t, y), before, items, after),
    ensures
        after@ == before@ + items,
{
    let step = |x: Vec<T>, t: T, y: Vec<T>| <Vec<T> as Consumer<T>>::consumes(x, t, y);
    let states = choose|states: Seq<Vec<T>>| #[trigger] consumer_run(step, states, before, items, after);
    lemma_vec_run_prefix(states, before, items, after, items.len() as int);
    assert(items.take(items.len() as int) =~= items);
}

/// A `Vec` of triangles that consumes a quad gets the quad's two triangles
/// appended, each with the quad's material.
pub proof fn lemma_vec_consumes_quad<S: Copy, M: Copy>(
    before: Vec<(Triangle<S>, M)>,
    item: (Quad<S>, M),
    after: Vec<(Triangle<S>, M)>,
)
    requires
        <Vec<(Triangle<S>, M)> as Consumer<(Quad<S>, M)>>::consumes(before, item, after),
    ensures
        after@ == before@.push((spec_quad_to_triangles(item.0).0, item.1)).push(
            (spec_quad_to_triangles(item.0).1, item.1),
        ),
{
    let (a, b) = spec_quad_to_triangles(item.0);
    lemma_vec_consumes_seq(before, seq![(a, item.1), (b, item.1)], after);
    assert(before@ + seq![(a, item.1), (b, item.1)] =~= before@.push((a, item.1)).push((b, item.1)));
}

/// The twelve triangles of a cube, face by face, each with material `m`.
pub open spec fn cube_triangles<S, M>(c: Cube<S>, m: M) -> Seq<(Triangle<S>, M)> {
    Seq::new(12, |i: int| (spec_cube_triangle(c, i), m))
}

/// Along a run of a `Vec` of triangles over the faces of a cube, state `k` holds
/// the items of `before` followed by the triangles of the first `k` faces.
proof fn lemma_vec_cube_run_prefix<S: Copy, M: Copy>(
    states: Seq<Vec<(Triangle<S>, M)>>,
    before: Vec<(Triangle<S>, M)>,
    c: Cube<S>,
    m: M,
    after: Vec<(Triangle<S>, M)>,
    k: int,
)
    requires
        consumer_run(
            |x: Vec<(Triangle<S>, M)>, q: (Quad<S>, M), y: Vec<(Triangle<S>, M)>|
                <Vec<(Triangle<S>, M)> as Consumer<(Quad<S>, M)>>::consumes(x, q, y),
            states,
            before,
            cube_faces(c, m),
            after,
        ),
        0 <= k <= 6,
    ensures
        states[k]@ == before@ + cube_triangles(c, m).take(2 * k),
    decreases k,
{
    let tris = cube_triangles(c, m);
    if k == 0 {
        assert(before@ + tris.take(0) =~= before@);
    } else {
        lemma_vec_cube_run_prefix(states, before, c, m, after, k - 1);
        let step = |x: Vec<(Triangle<S>, M)>, q: (Quad<S>, M), y: Vec<(Triangle<S>, M)>|
            <Vec<(Triangle<S>, M)> as Consumer<(Quad<S>, M)>>::consumes(x, q, y);
        let faces = cube_faces(c, m);
        let f = k - 1;
        assert(0 <= f < faces.len());
        assert(step(states[f], faces[f], states[f + 1]));
        assert(f + 1 == k);
        lemma_vec_consumes_quad(states[f], faces[f], states[k]);
        assert(faces[f] == (spec_cube_face(c, f), m));
        assert(tris[2 * f] == (spec_cube_triangle(c, 2 * f), m));
        assert(tris[2 * f + 1] == (spec_cube_triangle(c, 2 * f + 1), m));
        assert((2 * f) / 2 == f && (2 * f + 1) / 2 == f && (2 * f) % 2 == 0 && (2 * f + 1) % 2 == 1);
        assert(tris.take(2 * k) =~= tris.take(2 * f).push(tris[2 * f]).push(tris[2 * f + 1]));
        assert(before@ + tris.take(2 * k) =~= (before@ + tris.take(2 * f)).push(tris[2 * f]).push(tris[2 * f + 1]));
    }
}

/// A `Vec` of triangles that consumes a cube gets the cube's twelve triangles
/// appended, face by face, each with the cube's material.
pub proof fn lemma_vec_consumes_cube<S: Copy, M: Copy>(
    before: Vec<(Triangle<S>, M)>,
    item: (Cube<S>, M),
    after: Vec<(Triangle<S>, M)>,
)
    requires
        <Vec<(Triangle<S>, M)> as Consumer<(Cube<S>, M)>>::consumes(before, item, after),
    ensures
        after@ == before@ + cube_triangles(item.0, item.1),
{
    let step = |x: Vec<(Triangle<S>, M)>, q: (Quad<S>, M), y: Vec<(Triangle<S>, M)>|
        <Vec<(Triangle<S>, M)> as Consumer<(Quad<S>, M)>>::consumes(x, q, y);
    let states = choose|states: Seq<Vec<(Triangle<S>, M)>>| #[trigger]
        consumer_run(step, states, before, cube_faces(item.0, item.1), after);
    lemma_vec_cube_run_prefix(states, before, item.0, item.1, after, 6);
    assert(cube_triangles(item.0, item.1).take(12) =~= cube_triangles(item.0, item.1));
}

/// A `Vec` of triangles that consumes an axis-aligned box gets the twelve
/// triangles of the cube that the box spans appended.
pub proof fn lemma_vec_consumes_aabb<S: Copy, M: Copy>(
    before: Vec<(Triangle<S>, M)>,
    item: (Aabb<S>, M),
    after: Vec<(Triangle<S>, M)>,
)
    requires
        <Vec<(Triangle<S>, M)> as Consumer<(Aabb<S>, M)>>::consumes(before, item, after),
    ensures
        after@ == before@ + cube_triangles(spec_aabb_to_cube(item.0), item.1),
{
    lemma_vec_consumes_cube(before, (spec_aabb_to_cube(item.0), item.1), after);
}

} // verus!
