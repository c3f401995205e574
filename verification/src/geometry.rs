//! Geometric primitives over any scalar type, and the conversions between them
//! that only rearrange corners.

use vstd::prelude::*;

verus! {

/// Point.
pub type Point<S> = [S; 3];
/// Triangle.
pub type Triangle<S> = (Point<S>, Point<S>, Point<S>);
/// Quad.
pub type Quad<S> = [Point<S>; 4];
/// Cube.
pub type Cube<S> = [Point<S>; 8];
/// Axis-Aligned Bounding Box.
pub type Aabb<S> = (Point<S>, Point<S>);
/// Standard chunk of 64 items.
///
/// This is designed to fit a 64 bit mask.
pub type Chunk<T> = [T; 64];

/// The two triangles of a quad.
pub open spec fn spec_quad_to_triangles<S>(q: Quad<S>) -> (Triangle<S>, Triangle<S>) {
    ((q[0], q[1], q[2]), (q[2], q[1], q[3]))
}

/// Convert from quad to two triangles.
pub fn quad_to_triangles<S: Copy>(quad: Quad<S>) -> (r: (Triangle<S>, Triangle<S>))
    ensures
        r == spec_quad_to_triangles(quad),
{
    ((quad[0], quad[1], quad[2]), (quad[2], quad[1], quad[3]))
}

/// The corners of the cube spanned by an AABB.
pub open spec fn spec_aabb_to_cube<S>(b: Aabb<S>) -> Cube<S> {
    let (mi, ma) = b;
    [
        mi,
        [ma[0], mi[1], mi[2]],
        [mi[0], ma[1], mi[2]],
        [ma[0], ma[1], mi[2]],
        [mi[0], mi[1], ma[2]],
        [ma[0], mi[1], ma[2]],
        [mi[0], ma[1], ma[2]],
        ma,
    ]
}

/// Corner `i` of the cube of an AABB takes coordinate `k` from the maximum corner when
/// bit `k` of `i` is set and from the minimum corner otherwise.
pub proof fn lemma_aabb_to_cube_corners<S>(b: Aabb<S>)
    ensures
        forall|i: int, k: int|
            0 <= i < 8 && 0 <= k < 3 ==> #[trigger] spec_aabb_to_cube(b)[i][k] == if (if k == 0 {
                i
            } else if k == 1 {
                i / 2
            } else {
                i / 4
            }) % 2 == 1 {
                b.1[k]
            } else {
                b.0[k]
            },
{
    let c = spec_aabb_to_cube(b);
    assert forall|i: int, k: int| 0 <= i < 8 && 0 <= k < 3 implies #[trigger] c[i][k] == if (if k == 0 {
        i
    } else if k == 1 {
        i / 2
    } else {
        i / 4
    }) % 2 == 1 {
        b.1[k]
    } else {
        b.0[k]
    } by {
        assert(i == 0 || i == 1 || i == 2 || i == 3 || i == 4 || i == 5 || i == 6 || i == 7);
    }
}

/// Convert AABB to cube.
pub fn aabb_to_cube<S: Copy>(aabb: Aabb<S>) -> (r: Cube<S>)
    ensures
        r == spec_aabb_to_cube(aabb),
{
    let (mi, ma) = aabb;
    [
        mi,
        [ma[0], mi[1], mi[2]],
        [mi[0], ma[1], mi[2]],
        [ma[0], ma[1], mi[2]],
        [mi[0], mi[1], ma[2]],
        [ma[0], mi[1], ma[2]],
        [mi[0], ma[1], ma[2]],
        ma,
    ]
}

/// The face of a cube with number `f`, in the order far, near, top, bottom, left, right.
///
/// Each face lists its corners so that its triangles face away from the cube.
pub open spec fn spec_cube_face<S>(c: Cube<S>, f: int) -> Quad<S> {
    if f == 0 {
        [c[4], c[5], c[6], c[7]]
    } else if f == 1 {
        [c[1], c[0], c[3], c[2]]
    } else if f == 2 {
        [c[3], c[2], c[7], c[6]]
    } else if f == 3 {
        [c[1], c[0], c[5], c[4]]
    } else if f == 4 {
        [c[0], c[4], c[2], c[6]]
    } else {
        [c[5], c[1], c[7], c[3]]
    }
}

/// Cube near quad.
pub fn cube_near<S: Copy>(cube: &Cube<S>) -> (r: Quad<S>)
    ensures
        r == spec_cube_face(*cube, 1),
{
    [cube[1], cube[0], cube[3], cube[2]]
}

/// Cube far quad.
pub fn cube_far<S: Copy>(cube: &Cube<S>) -> (r: Quad<S>)
    ensures
        r == spec_cube_face(*cube, 0),
{
    [cube[4], cube[5], cube[6], cube[7]]
}

/// Cube left quad.
pub fn cube_left<S: Copy>(cube: &Cube<S>) -> (r: Quad<S>)
    ensures
        r == spec_cube_face(*cube, 4),
{
    [cube[0], cube[4], cube[2], cube[6]]
}

/// Cube right quad.
pub fn cube_right<S: Copy>(cube: &Cube<S>) -> (r: Quad<S>)
    ensures
        r == spec_cube_face(*cube, 5),
{
    [cube[5], cube[1], cube[7], cube[3]]
}

/// Cube bottom quad.
pub fn cube_bottom<S: Copy>(cube: &Cube<S>) -> (r: Quad<S>)
    ensures
        r == spec_cube_face(*cube, 3),
{
    [cube[1], cube[0], cube[5], cube[4]]
}

/// Cube top quad.
pub fn cube_top<S: Copy>(cube: &Cube<S>) -> (r: Quad<S>)
    ensures
        r == spec_cube_face(*cube, 2),
{
    [cube[3], cube[2], cube[7], cube[6]]
}

/// Triangle number `i` of a cube: face `i / 2`, first or second triangle of the face.
pub open spec fn spec_cube_triangle<S>(c: Cube<S>, i: int) -> Triangle<S> {
    let (a, b) = spec_quad_to_triangles(spec_cube_face(c, i / 2));
    if i % 2 == 0 {
        a
    } else {
        b
    }
}

/// Triangle number `i` of a cube, for `i < 12`.
pub fn cube_triangle<S: Copy>(cube: &Cube<S>, i: usize) -> (r: Triangle<S>)
    requires
        i < 12,
    ensures
        r == spec_cube_triangle(*cube, i as int),
{
    let quad = if i / 2 == 0 {
        cube_far(cube)
    } else if i / 2 == 1 {
        cube_near(cube)
    } else if i / 2 == 2 {
        cube_top(cube)
    } else if i / 2 == 3 {
        cube_bottom(cube)
    } else if i / 2 == 4 {
        cube_left(cube)
    } else {
        cube_right(cube)
    };
    let (a, b) = quad_to_triangles(quad);
    if i % 2 == 0 {
        a
    } else {
        b
    }
}

} // verus!
