//! Scene resources and settings.
//!
//! A scene object stores all resources used for rendering; resources are referred
//! to by handles that hold their position among the resources of their kind.

use vstd::prelude::*;

verus! {

/// References a vertex shader.
#[derive(Copy, Clone, Debug, PartialEq, Eq, Hash)]
pub struct VertexShader(pub usize);

/// References a fragment shader.
#[derive(Copy, Clone, Debug, PartialEq, Eq, Hash)]
pub struct FragmentShader(pub usize);

/// References a program.
#[derive(Copy, Clone, Debug, PartialEq, Eq, Hash)]
pub struct Program(pub usize);

/// References 4D matrix uniform.
#[derive(Copy, Clone, Debug, PartialEq, Eq, Hash)]
pub struct Matrix4Uniform(pub usize);

/// References a 2D vector uniform.
#[derive(Copy, Clone, Debug, PartialEq, Eq, Hash)]
pub struct Vector2Uniform(pub usize);

/// References a 3D vector uniform.
#[derive(Copy, Clone, Debug, PartialEq, Eq, Hash)]
pub struct Vector3Uniform(pub usize);

/// References a f32 uniform.
#[derive(Copy, Clone, Debug, PartialEq, Eq, Hash)]
pub struct F32Uniform(pub usize);

/// References a vertex array object.
#[derive(Copy, Clone, Debug, PartialEq, Eq, Hash)]
pub struct VertexArray(pub usize);

/// References a color buffer object.
#[derive(Copy, Clone, Debug, PartialEq, Eq, Hash)]
pub struct ColorBuffer(pub usize, pub usize);

/// References a 3D vertex buffer object.
///
/// Stores `id, len`.
#[derive(Copy, Clone, Debug, PartialEq, Eq, Hash)]
pub struct VertexBuffer3(pub usize, pub usize);

/// References a 2D vertex buffer object.
///
/// Stores `id, len`.
#[derive(Copy, Clone, Debug, PartialEq, Eq, Hash)]
pub struct VertexBuffer2(pub usize, pub usize);

/// References an UV buffer object.
///
/// Stores `id, len`.
#[derive(Copy, Clone, Debug, PartialEq, Eq, Hash)]
pub struct UVBuffer(pub usize, pub usize);

/// References a normal buffer object.
///
/// Stores `id, len`.
#[derive(Copy, Clone, Debug, PartialEq, Eq, Hash)]
pub struct NormalBuffer(pub usize, pub usize);

/// References a command list object.
#[derive(Copy, Clone, Debug, PartialEq, Eq, Hash)]
pub struct CommandList(pub usize);

/// References a texture object.
#[derive(Copy, Clone, Debug, PartialEq, Eq, Hash)]
pub struct Texture(pub usize);

/// References an external action.
#[derive(Copy, Clone, Debug, PartialEq, Eq, Hash)]
pub struct External(pub usize);

impl ColorBuffer {
    /// Length of color buffer.
    pub fn len(&self) -> (r: usize)
        ensures
            r == self.1,
    {
        self.1
    }
}

impl VertexBuffer3 {
    /// Length of vertex buffer.
    pub fn len(&self) -> (r: usize)
        ensures
            r == self.1,
    {
        self.1
    }
}

impl VertexBuffer2 {
    /// Length of vertex buffer.
    pub fn len(&self) -> (r: usize)
        ensures
            r == self.1,
    {
        self.1
    }
}

/// Stores scene settings.
#[derive(Clone)]
pub struct SceneSettings {
    /// Whether to clear depth buffer.
    pub clear_depth_buffer: bool,
    /// Whether to enable depth test.
    pub clear_enable_depth_test: bool,
}

impl Default for SceneSettings {
    fn default() -> (r: Self)
        ensures
            r.clear_depth_buffer,
            r.clear_enable_depth_test,
    {
        SceneSettings::new()
    }
}

impl SceneSettings {
    /// Returns new scene settings with default settings.
    pub fn new() -> (r: SceneSettings)
        ensures
            r.clear_depth_buffer,
            r.clear_enable_depth_test,
    {
        SceneSettings { clear_depth_buffer: true, clear_enable_depth_test: true }
    }

    /// Set whether to clear depth buffer on clear.
    pub fn clear_depth_buffer(self, val: bool) -> (r: Self)
        ensures
            r.clear_depth_buffer == val,
            r.clear_enable_depth_test == self.clear_enable_depth_test,
    {
        let mut s = self;
        s.clear_depth_buffer = val;
        s
    }

    /// Set whether to enable depth test on clear.
    ///
    /// Uses depth test function `LESS` by default.
    pub fn clear_enable_depth_test(self, val: bool) -> (r: Self)
        ensures
            r.clear_enable_depth_test == val,
            r.clear_depth_buffer == self.clear_depth_buffer,
    {
        let mut s = self;
        s.clear_enable_depth_test = val;
        s
    }
}


/// A corner of an OBJ triangle: the index of its vertex, and of its texture
/// coordinate and normal when the file gives them.
pub type ObjCorner = (usize, Option<usize>, Option<usize>);

/// Whether every corner of a triangle has a texture coordinate and a normal.
pub open spec fn corners_complete(t: [ObjCorner; 3]) -> bool {
    &&& t[0].1 is Some && t[0].2 is Some
    &&& t[1].1 is Some && t[1].2 is Some
    &&& t[2].1 is Some && t[2].2 is Some
}

/// The index that a corner gives into the vertices (`which == 0`), the texture
/// coordinates (`which == 1`) or the normals (`which == 2`).
pub open spec fn corner_index(c: ObjCorner, which: int) -> int {
    if which == 0 {
        c.0 as int
    } else if which == 1 {
        c.1.unwrap() as int
    } else {
        c.2.unwrap() as int
    }
}

/// The `k` components of item `i` of a flat array.
pub open spec fn item_of<T>(src: Seq<T>, k: int, i: int) -> Seq<T> {
    src.subrange(i * k, i * k + k)
}

/// The components that the complete triangles pick from a flat array of items of
/// `k` components, triangle by triangle and corner by corner.
pub open spec fn triangle_items<T>(src: Seq<T>, k: int, tris: Seq<[ObjCorner; 3]>, which: int) -> Seq<T>
    decreases tris.len(),
{
    if tris.len() == 0 {
        Seq::empty()
    } else {
        let t = tris.last();
        triangle_items(src, k, tris.drop_last(), which) + if corners_complete(t) {
            item_of(src, k, corner_index(t[0], which)) + item_of(src, k, corner_index(t[1], which))
                + item_of(src, k, corner_index(t[2], which))
        } else {
            Seq::empty()
        }
    }
}

/// Whether every complete triangle picks items inside a flat array of `len`
/// components, `k` per item.
pub open spec fn triangles_fit(len: int, k: int, tris: Seq<[ObjCorner; 3]>, which: int) -> bool {
    forall|j: int|
        0 <= j < tris.len() && corners_complete(#[trigger] tris[j]) ==> {
            &&& corner_index(tris[j][0], which) * k + k <= len
            &&& corner_index(tris[j][1], which) * k + k <= len
            &&& corner_index(tris[j][2], which) * k + k <= len
        }
}

/// Appends the `k` components of item `i` of `src`.
fn push_item<T: Copy>(out: &mut Vec<T>, src: &Vec<T>, k: usize, i: usize)
    requires
        i * k + k <= src@.len(),
    ensures
        final(out)@ == old(out)@ + item_of(src@, k as int, i as int),
{
    let ghost start = out@;
    assert(src@.len() == src.len());
    let base = i * k;
    let mut c: usize = 0;
    while c < k
        invariant
            c <= k,
            base == i * k,
            base + k <= src@.len(),
            src@.len() == src.len(),
            out@ == start + src@.subrange(base as int, base + c),
        decreases k - c,
    {
        out.push(src[base + c]);
        assert(src@.subrange(base as int, base + c + 1) =~= src@.subrange(base as int, base + c).push(src@[base + c]));
        c = c + 1;
    }
}

/// Gathers, for the triangles of an OBJ mesh whose corners all have texture
/// coordinates and normals, the components of their vertices (three each), texture
/// coordinates (two each) and normals (three each), corner by corner.
pub fn triangle_arrays<T: Copy>(
    vertices: &Vec<T>,
    uvs: &Vec<T>,
    normals: &Vec<T>,
    triangles: &Vec<[ObjCorner; 3]>,
) -> (r: (Vec<T>, Vec<T>, Vec<T>))
    requires
        triangles_fit(vertices@.len() as int, 3, triangles@, 0),
        triangles_fit(uvs@.len() as int, 2, triangles@, 1),
        triangles_fit(normals@.len() as int, 3, triangles@, 2),
    ensures
        r.0@ == triangle_items(vertices@, 3, triangles@, 0),
        r.1@ == triangle_items(uvs@, 2, triangles@, 1),
        r.2@ == triangle_items(normals@, 3, triangles@, 2),
{
    let mut vs: Vec<T> = Vec::new();
    let mut ts: Vec<T> = Vec::new();
    let mut ns: Vec<T> = Vec::new();
    let n = triangles.len();
    let mut j: usize = 0;
    while j < n
        invariant
            n == triangles@.len(),
            j <= n,
            triangles_fit(vertices@.len() as int, 3, triangles@, 0),
            triangles_fit(uvs@.len() as int, 2, triangles@, 1),
            triangles_fit(normals@.len() as int, 3, triangles@, 2),
            vs@ == triangle_items(vertices@, 3, triangles@.take(j as int), 0),
            ts@ == triangle_items(uvs@, 2, triangles@.take(j as int), 1),
            ns@ == triangle_items(normals@, 3, triangles@.take(j as int), 2),
        decreases n - j,
    {
        let t = triangles[j];
        assert(triangles@.take(j + 1).drop_last() =~= triangles@.take(j as int));
        assert(triangles@.take(j + 1).last() == t);
        if let ((a_v, Some(a_uv), Some(a_n)), (b_v, Some(b_uv), Some(b_n)), (c_v, Some(c_uv), Some(c_n))) = (t[0], t[1], t[2]) {
            assert(corners_complete(triangles@[j as int]));
            assert(corner_index(t[0], 0) * 3 + 3 <= vertices@.len() && corner_index(t[1], 0) * 3 + 3 <= vertices@.len()
                && corner_index(t[2], 0) * 3 + 3 <= vertices@.len());
            assert(corner_index(t[0], 1) * 2 + 2 <= uvs@.len() && corner_index(t[1], 1) * 2 + 2 <= uvs@.len()
                && corner_index(t[2], 1) * 2 + 2 <= uvs@.len());
            assert(corner_index(t[0], 2) * 3 + 3 <= normals@.len() && corner_index(t[1], 2) * 3 + 3 <= normals@.len()
                && corner_index(t[2], 2) * 3 + 3 <= normals@.len());
            push_item(&mut vs, vertices, 3, a_v);
            push_item(&mut vs, vertices, 3, b_v);
            push_item(&mut vs, vertices, 3, c_v);
            push_item(&mut ts, uvs, 2, a_uv);
            push_item(&mut ts, uvs, 2, b_uv);
            push_item(&mut ts, uvs, 2, c_uv);
            push_item(&mut ns, normals, 3, a_n);
            push_item(&mut ns, normals, 3, b_n);
            push_item(&mut ns, normals, 3, c_n);
        }
        j = j + 1;
    }
    assert(triangles@.take(n as int) =~= triangles@);
    (vs, ts, ns)
}

/// The triangles whose three corners all have a texture coordinate and a normal,
/// in their order.
pub open spec fn complete_triangles(tris: Seq<[ObjCorner; 3]>) -> Seq<[ObjCorner; 3]> {
    tris.filter(|t: [ObjCorner; 3]| corners_complete(t))
}

proof fn lemma_block_index(p: int, k: int, n: int)
    requires
        k > 0,
        0 <= p < 3 * k * n,
    ensures
        0 <= p / (3 * k) < n,
{
    vstd::arithmetic::div_mod::lemma_fundamental_div_mod(p, 3 * k);
    let a = p / (3 * k);
    let r = p % (3 * k);
    assert(0 <= r);
    assert(0 <= a < n) by (nonlinear_arith)
        requires
            k > 0,
            p == 3 * k * a + r,
            0 <= r < 3 * k,
            0 <= p < 3 * k * n,
    ;
}

proof fn lemma_block_split(p: int, k: int, m: int, q: int)
    requires
        k > 0,
        0 <= q < 3 * k,
        p == 3 * k * m + q,
    ensures
        p / (3 * k) == m,
        p % (3 * k) == q,
        0 <= q / k < 3,
        0 <= q % k < k,
        q == k * (q / k) + q % k,
{
    assert(p == m * (3 * k) + q) by (nonlinear_arith)
        requires
            p == 3 * k * m + q,
    ;
    vstd::arithmetic::div_mod::lemma_fundamental_div_mod_converse(p, 3 * k, m, q);
    vstd::arithmetic::div_mod::lemma_fundamental_div_mod(q, k);
    let c = q / k;
    let x = q % k;
    assert(0 <= x < k);
    assert(0 <= c < 3) by (nonlinear_arith)
        requires
            k > 0,
            q == k * c + x,
            0 <= x < k,
            0 <= q < 3 * k,
    ;
}

/// What `triangle_arrays` gathers into one array: each complete triangle, and only
/// those, in order, gives `3 * k` components, corner by corner; component `x` of
/// corner `c` of the `m`-th complete triangle is component `x` of the item that
/// the corner names.
pub proof fn lemma_triangle_items_positions<T>(src: Seq<T>, k: int, tris: Seq<[ObjCorner; 3]>, which: int)
    requires
        k > 0,
        triangles_fit(src.len() as int, k, tris, which),
    ensures
        triangle_items(src, k, tris, which).len() == 3 * k * complete_triangles(tris).len(),
        forall|p: int|
            0 <= p < triangle_items(src, k, tris, which).len() ==> #[trigger] triangle_items(src, k, tris, which)[p]
                == src[corner_index(complete_triangles(tris)[p / (3 * k)][(p % (3 * k)) / k], which) * k + (p % (
                3 * k)) % k],
    decreases tris.len(),
{
    if tris.len() == 0 {
        reveal(Seq::filter);
        assert(complete_triangles(tris).len() == 0);
        assert(3 * k * 0 == 0) by (nonlinear_arith);
    } else {
        let prev = tris.drop_last();
        let t = tris.last();
        assert(prev.push(t) =~= tris);
        prev.lemma_filter_push(t, |t: [ObjCorner; 3]| corners_complete(t));
        assert forall|j: int| 0 <= j < prev.len() && corners_complete(#[trigger] prev[j]) implies {
            &&& corner_index(prev[j][0], which) * k + k <= src.len()
            &&& corner_index(prev[j][1], which) * k + k <= src.len()
            &&& corner_index(prev[j][2], which) * k + k <= src.len()
        } by {
            assert(prev[j] == tris[j]);
        }
        lemma_triangle_items_positions(src, k, prev, which);
        let fp = complete_triangles(prev);
        let f = complete_triangles(tris);
        let ip = triangle_items(src, k, prev, which);
        let it = triangle_items(src, k, tris, which);
        let n = fp.len() as int;
        if corners_complete(t) {
            assert(f == fp.push(t));
            assert(corners_complete(tris[tris.len() - 1]));
            let a0 = item_of(src, k, corner_index(t[0], which));
            let a1 = item_of(src, k, corner_index(t[1], which));
            let a2 = item_of(src, k, corner_index(t[2], which));
            assert forall|c: int| 0 <= c < 3 implies 0 <= #[trigger] corner_index(t[c], which) * k && corner_index(
                t[c],
                which,
            ) * k + k <= src.len() by {
                let ci = corner_index(t[c], which);
                assert(ci >= 0);
                assert(0 <= ci * k) by (nonlinear_arith)
                    requires
                        ci >= 0,
                        k > 0,
                ;
            }
            assert(corner_index(t[0], which) * k >= 0);
            assert(corner_index(t[1], which) * k >= 0);
            assert(corner_index(t[2], which) * k >= 0);
            assert(a0.len() == k && a1.len() == k && a2.len() == k);
            assert(it == ip + (a0 + a1 + a2));
            assert(3 * k * n + 3 * k == 3 * k * (n + 1)) by (nonlinear_arith);
            assert forall|p: int| 0 <= p < it.len() implies #[trigger] it[p] == src[corner_index(
                f[p / (3 * k)][(p % (3 * k)) / k],
                which,
            ) * k + (p % (3 * k)) % k] by {
                if p < ip.len() {
                    lemma_block_index(p, k, n);
                    assert(it[p] == ip[p]);
                    assert(f[p / (3 * k)] == fp[p / (3 * k)]);
                } else {
                    let q = p - 3 * k * n;
                    lemma_block_split(p, k, n, q);
                    let c = q / k;
                    let x = q % k;
                    assert(f[n] == t);
                    assert(it[p] == (a0 + a1 + a2)[q]);
                    assert(q == k * c + x);
                    if c == 0 {
                        assert(q == x) by (nonlinear_arith)
                            requires
                                q == k * c + x,
                                c == 0,
                        ;
                        assert((a0 + a1 + a2)[q] == a0[x]);
                    } else if c == 1 {
                        assert(q == k + x) by (nonlinear_arith)
                            requires
                                q == k * c + x,
                                c == 1,
                        ;
                        assert((a0 + a1 + a2)[q] == a1[x]);
                    } else {
                        assert(q == 2 * k + x) by (nonlinear_arith)
                            requires
                                q == k * c + x,
                                c == 2,
                        ;
                        assert((a0 + a1 + a2)[q] == a2[x]);
                    }
                }
            }
        } else {
            assert(f == fp);
            assert(it =~= ip);
        }
    }
}

} // verus!
