//! Bones of a reactive document laid out for physics simulation.
//!
//! The points that bones connect are gathered per dimension, sorted by position
//! and without duplicates, so that a point has one slot in the simulation and the
//! slot is found without a hash map. Bones then refer to slots. A slot is locked
//! when the selection locks its point or a function computes the point; bones whose
//! two points are both locked, or that connect a point to itself, are dropped, and
//! the weight of every other bone reflects which of its points is locked.

use core::marker::PhantomData;
use vstd::prelude::*;

use crate::reactive::{fns, ptr, Reactor, ReactorModel};
use crate::reactive::selection::Selection;

verus! {

/// A pointer to a point node of some dimension.
pub trait PointPtr: Copy + Sized {
    /// The position that the pointer holds.
    spec fn ptr_index(&self) -> usize;

    /// Returns the position that the pointer holds.
    fn position(&self) -> (r: usize)
        ensures
            r == self.ptr_index(),
    ;

    /// The pointer to position `i`.
    fn at_position(i: usize) -> (r: Self)
        ensures
            r.ptr_index() == i,
    ;

    /// Two pointers to the same position are the same pointer.
    proof fn lemma_same_position(a: Self, b: Self)
        requires
            a.ptr_index() == b.ptr_index(),
        ensures
            a == b,
    ;
}

impl<T> PointPtr for ptr::Point1<T> {
    open spec fn ptr_index(&self) -> usize {
        self.index()
    }

    fn position(&self) -> (r: usize) {
        self.0
    }

    fn at_position(i: usize) -> (r: Self) {
        ptr::Point1(i, PhantomData)
    }

    proof fn lemma_same_position(a: Self, b: Self) {
    }
}

impl<T> PointPtr for ptr::Point2<T> {
    open spec fn ptr_index(&self) -> usize {
        self.index()
    }

    fn position(&self) -> (r: usize) {
        self.0
    }

    fn at_position(i: usize) -> (r: Self) {
        ptr::Point2(i, PhantomData)
    }

    proof fn lemma_same_position(a: Self, b: Self) {
    }
}

impl<T> PointPtr for ptr::Point3<T> {
    open spec fn ptr_index(&self) -> usize {
        self.index()
    }

    fn position(&self) -> (r: usize) {
        self.0
    }

    fn at_position(i: usize) -> (r: Self) {
        ptr::Point3(i, PhantomData)
    }

    proof fn lemma_same_position(a: Self, b: Self) {
    }
}

impl<T> PointPtr for ptr::Point4<T> {
    open spec fn ptr_index(&self) -> usize {
        self.index()
    }

    fn position(&self) -> (r: usize) {
        self.0
    }

    fn at_position(i: usize) -> (r: Self) {
        ptr::Point4(i, PhantomData)
    }

    proof fn lemma_same_position(a: Self, b: Self) {
    }
}

/// A point node of some dimension, which either holds data or is computed.
pub trait PointNode: Sized {
    /// The data that a data node holds.
    type Value: Copy;

    /// Whether the node holds data.
    spec fn holds_data(&self) -> bool;

    /// Returns whether the node holds data.
    fn is_data(&self) -> (r: bool)
        ensures
            r == self.holds_data(),
    ;

    /// The data node holding `v`.
    spec fn data_node(v: Self::Value) -> Self;

    /// Returns the data node holding `v`.
    fn data(v: Self::Value) -> (r: Self)
        ensures
            r == Self::data_node(v),
    ;

    /// A data node holds data.
    proof fn lemma_data_node_holds_data(v: Self::Value)
        ensures
            Self::data_node(v).holds_data(),
    ;
}

impl<T: Copy> PointNode for fns::Point1<T> {
    type Value = T;

    open spec fn holds_data(&self) -> bool {
        *self is Data
    }

    fn is_data(&self) -> (r: bool) {
        match self {
            fns::Point1::Data(_) => true,
            _ => false,
        }
    }

    open spec fn data_node(v: T) -> Self {
        fns::Point1::Data(v)
    }

    fn data(v: T) -> (r: Self) {
        fns::Point1::Data(v)
    }

    proof fn lemma_data_node_holds_data(v: T) {
    }
}

impl<T: Copy> PointNode for fns::Point2<T> {
    type Value = [T; 2];

    open spec fn holds_data(&self) -> bool {
        *self is Data
    }

    fn is_data(&self) -> (r: bool) {
        match self {
            fns::Point2::Data(_) => true,
            _ => false,
        }
    }

    open spec fn data_node(v: [T; 2]) -> Self {
        fns::Point2::Data(v)
    }

    fn data(v: [T; 2]) -> (r: Self) {
        fns::Point2::Data(v)
    }

    proof fn lemma_data_node_holds_data(v: [T; 2]) {
    }
}

impl<T: Copy> PointNode for fns::Point3<T> {
    type Value = [T; 3];

    open spec fn holds_data(&self) -> bool {
        *self is Data
    }

    fn is_data(&self) -> (r: bool) {
        match self {
            fns::Point3::Data(_) => true,
            _ => false,
        }
    }

    open spec fn data_node(v: [T; 3]) -> Self {
        fns::Point3::Data(v)
    }

    fn data(v: [T; 3]) -> (r: Self) {
        fns::Point3::Data(v)
    }

    proof fn lemma_data_node_holds_data(v: [T; 3]) {
    }
}

impl<T: Copy> PointNode for fns::Point4<T> {
    type Value = [T; 4];

    open spec fn holds_data(&self) -> bool {
        *self is Data
    }

    fn is_data(&self) -> (r: bool) {
        match self {
            fns::Point4::Data(_) => true,
            _ => false,
        }
    }

    open spec fn data_node(v: [T; 4]) -> Self {
        fns::Point4::Data(v)
    }

    fn data(v: [T; 4]) -> (r: Self) {
        fns::Point4::Data(v)
    }

    proof fn lemma_data_node_holds_data(v: [T; 4]) {
    }
}

/// The first point of a bone.
pub open spec fn bone_a<P, T>(b: fns::Bone<P, T>) -> P {
    match b {
        fns::Bone::Eq(a, _, _) => a,
        fns::Bone::Less(a, _, _) => a,
        fns::Bone::More(a, _, _) => a,
    }
}

/// The second point of a bone.
pub open spec fn bone_b<P, T>(b: fns::Bone<P, T>) -> P {
    match b {
        fns::Bone::Eq(_, b, _) => b,
        fns::Bone::Less(_, b, _) => b,
        fns::Bone::More(_, b, _) => b,
    }
}

/// The distance pointer of a bone.
pub open spec fn bone_dist<P, T>(b: fns::Bone<P, T>) -> ptr::Point1<T> {
    match b {
        fns::Bone::Eq(_, _, d) => d,
        fns::Bone::Less(_, _, d) => d,
        fns::Bone::More(_, _, d) => d,
    }
}

/// Whether position `x` is an end of bone `b`.
pub open spec fn has_end<P: PointPtr, T>(b: fns::Bone<P, T>, x: int) -> bool {
    bone_a(b).ptr_index() == x || bone_b(b).ptr_index() == x
}

/// Whether position `x` is an end of one of the first `j` bones.
pub open spec fn is_end_upto<P: PointPtr, T>(bones: Seq<fns::Bone<P, T>>, j: int, x: int) -> bool {
    exists|k: int| 0 <= k < j && #[trigger] has_end(bones[k], x)
}

/// Whether position `x` is an end of some bone.
pub open spec fn is_end<P: PointPtr, T>(bones: Seq<fns::Bone<P, T>>, x: int) -> bool {
    is_end_upto(bones, bones.len() as int, x)
}

/// The number of positions below `x` that are ends of bones: the slot of the
/// point at position `x` when it is an end.
pub open spec fn slot<P: PointPtr, T>(bones: Seq<fns::Bone<P, T>>, x: int) -> nat
    decreases x,
{
    if x <= 0 {
        0
    } else {
        slot(bones, x - 1) + if is_end(bones, x - 1) { 1nat } else { 0nat }
    }
}

/// Whether every bone connects points below position `n`.
pub open spec fn bones_within<P: PointPtr, T>(bones: Seq<fns::Bone<P, T>>, n: int) -> bool {
    forall|k: int|
        0 <= k < bones.len() ==> (#[trigger] bone_a(bones[k])).ptr_index() < n && bone_b(bones[k]).ptr_index() < n
}

/// Whether `map` lists, in increasing order, the positions below `n` that are
/// ends of bones, each in its slot.
pub open spec fn is_slot_map<P: PointPtr, T>(map: Seq<P>, bones: Seq<fns::Bone<P, T>>, n: int) -> bool {
    &&& map.len() == slot(bones, n)
    &&& forall|k: int| 0 <= k < map.len() ==> {
        let x = (#[trigger] map[k]).ptr_index() as int;
        x < n && is_end(bones, x) && slot(bones, x) == k
    }
    &&& forall|x: int| 0 <= x < n && is_end(bones, x) ==> #[trigger] map[slot(bones, x) as int].ptr_index() == x
}

proof fn lemma_slot_monotonic<P: PointPtr, T>(bones: Seq<fns::Bone<P, T>>, x: int, y: int)
    requires
        x <= y,
    ensures
        slot(bones, x) <= slot(bones, y),
    decreases y - x,
{
    if x < y {
        lemma_slot_monotonic(bones, x, y - 1);
    }
}

/// Gathers the positions that bones connect, sorted and without duplicates, and the
/// slot of every position below `n`.
fn gather_slots<P: PointPtr, T>(bones: &Vec<fns::Bone<P, T>>, n: usize) -> (r: (Vec<P>, Vec<bool>, Vec<usize>))
    requires
        bones_within(bones@, n as int),
    ensures
        is_slot_map(r.0@, bones@, n as int),
        r.1@.len() == n,
        r.2@.len() == n,
        forall|x: int| 0 <= x < n ==> #[trigger] r.1@[x] == is_end(bones@, x),
        forall|x: int| 0 <= x < n ==> #[trigger] r.2@[x] == slot(bones@, x),
{
    let mut seen: Vec<bool> = vec![false; n];
    let nb = bones.len();
    let mut j: usize = 0;
    while j < nb
        invariant
            nb == bones@.len(),
            j <= nb,
            seen@.len() == n,
            bones_within(bones@, n as int),
            forall|x: int| 0 <= x < n ==> #[trigger] seen@[x] == is_end_upto(bones@, j as int, x),
        decreases nb - j,
    {
        let (a, b) = match &bones[j] {
            fns::Bone::Eq(a, b, _) => (*a, *b),
            fns::Bone::Less(a, b, _) => (*a, *b),
            fns::Bone::More(a, b, _) => (*a, *b),
        };
        assert(bone_a(bones@[j as int]) == a && bone_b(bones@[j as int]) == b);
        let xa = a.position();
        let xb = b.position();
        seen.set(xa, true);
        seen.set(xb, true);
        assert forall|x: int| 0 <= x < n implies #[trigger] seen@[x] == is_end_upto(bones@, j + 1, x) by {
            if is_end_upto(bones@, j + 1, x) {
                let k = choose|k: int| 0 <= k < j + 1 && #[trigger] has_end(bones@[k], x);
                if k < j {
                    assert(is_end_upto(bones@, j as int, x));
                }
            }
            if x == xa || x == xb {
                assert(has_end(bones@[j as int], x));
            }
            if is_end_upto(bones@, j as int, x) {
                let k = choose|k: int| 0 <= k < j && #[trigger] has_end(bones@[k], x);
                assert(has_end(bones@[k], x));
            }
        }
        j = j + 1;
    }
    let mut map: Vec<P> = Vec::new();
    let mut slots: Vec<usize> = Vec::new();
    let mut x: usize = 0;
    while x < n
        invariant
            x <= n,
            seen@.len() == n,
            nb == bones@.len(),
            forall|y: int| 0 <= y < n ==> #[trigger] seen@[y] == is_end(bones@, y),
            slots@.len() == x,
            forall|y: int| 0 <= y < x ==> #[trigger] slots@[y] == slot(bones@, y),
            map@.len() == slot(bones@, x as int),
            map@.len() <= x,
            forall|k: int| 0 <= k < map@.len() ==> {
                let y = (#[trigger] map@[k]).ptr_index() as int;
                y < x && is_end(bones@, y) && slot(bones@, y) == k
            },
            forall|y: int| 0 <= y < x && is_end(bones@, y) ==> #[trigger] map@[slot(bones@, y) as int].ptr_index() == y,
        decreases n - x,
    {
        slots.push(map.len());
        if seen[x] {
            map.push(P::at_position(x));
        }
        assert forall|y: int| 0 <= y < x + 1 && is_end(bones@, y) implies #[trigger] map@[slot(bones@, y) as int].ptr_index() == y by {
            if y < x {
                lemma_slot_monotonic(bones@, y + 1, x as int);
            }
        }
        x = x + 1;
    }
    (map, seen, slots)
}

/// How strongly a bone pulls on its first point: half of a correction goes to
/// each end, all of it to the first end when the second is locked, and none of it
/// when the first is locked.
#[derive(Copy, Clone, Debug, PartialEq, Eq, Structural)]
pub enum BoneWeight {
    /// The first end takes none of a correction: the second end takes it all.
    Zero,
    /// Each end takes half of a correction.
    Half,
    /// The first end takes all of a correction.
    One,
}

/// The kind of a bone.
#[derive(Copy, Clone, Debug, PartialEq, Eq, Structural)]
pub enum BoneKind {
    /// Keeps distance.
    Eq,
    /// Keeps less or equal distance.
    Less,
    /// Keeps larger or equal distance.
    More,
}

/// A bone between two slots, with the pointer to its distance.
#[derive(Debug)]
pub struct BoneLink<T> {
    /// Slot of the first point.
    pub a: usize,
    /// Slot of the second point.
    pub b: usize,
    /// Distance.
    pub dist: ptr::Point1<T>,
    /// Weight of the first point.
    pub weight: BoneWeight,
}

impl<T> Clone for BoneLink<T> {
    fn clone(&self) -> (r: Self)
        ensures
            r == *self,
    {
        BoneLink { a: self.a, b: self.b, dist: self.dist, weight: self.weight }
    }
}

impl<T> Copy for BoneLink<T> {

}

/// The kind of a bone.
pub open spec fn bone_kind<P, T>(b: fns::Bone<P, T>) -> BoneKind {
    match b {
        fns::Bone::Eq(..) => BoneKind::Eq,
        fns::Bone::Less(..) => BoneKind::Less,
        fns::Bone::More(..) => BoneKind::More,
    }
}

/// The link of a bone before locking is taken into account.
pub open spec fn link_of<P: PointPtr, T>(bones: Seq<fns::Bone<P, T>>, b: fns::Bone<P, T>) -> BoneLink<T> {
    BoneLink {
        a: slot(bones, bone_a(b).ptr_index() as int) as usize,
        b: slot(bones, bone_b(b).ptr_index() as int) as usize,
        dist: bone_dist(b),
        weight: BoneWeight::Half,
    }
}

/// The links of the bones of kind `kind` among the first `j` bones, in order.
pub open spec fn kind_links<P: PointPtr, T>(bones: Seq<fns::Bone<P, T>>, kind: BoneKind, j: int) -> Seq<BoneLink<T>>
    decreases j,
{
    if j <= 0 {
        Seq::empty()
    } else if bone_kind(bones[j - 1]) == kind {
        kind_links(bones, kind, j - 1).push(link_of(bones, bones[j - 1]))
    } else {
        kind_links(bones, kind, j - 1)
    }
}

/// Whether some pointer in `locked` points at position `x`.
pub open spec fn locks<P: PointPtr>(locked: Seq<P>, x: int) -> bool {
    exists|i: int| 0 <= i < locked.len() && #[trigger] locked[i].ptr_index() == x
}

/// Whether the point in slot `k` of `map` is locked: the selection locks it, or a
/// function computes it.
pub open spec fn slot_locked<P: PointPtr, N: PointNode>(map: Seq<P>, points: Seq<N>, locked: Seq<P>, k: int) -> bool {
    locks(locked, map[k].ptr_index() as int) || !points[map[k].ptr_index() as int].holds_data()
}

/// Whether every link connects slots below `m`.
pub open spec fn links_within<T>(s: Seq<BoneLink<T>>, m: int) -> bool {
    forall|i: int| 0 <= i < s.len() ==> (#[trigger] s[i]).a < m && s[i].b < m
}

/// Processes link `i`: drops it, by moving the last link into its place, when both
/// of its points are locked or both ends are the same slot; gives none of a
/// correction to the first point when only that point is locked, and all of it when
/// only the second point is locked.
pub open spec fn prune_at<T>(s: Seq<BoneLink<T>>, locked: Seq<bool>, i: int) -> Seq<BoneLink<T>> {
    let l = s[i];
    if locked[l.a as int] && locked[l.b as int] || l.a == l.b {
        s.update(i, s.last()).drop_last()
    } else if locked[l.a as int] {
        s.update(i, BoneLink { weight: BoneWeight::Zero, ..l })
    } else if locked[l.b as int] {
        s.update(i, BoneLink { weight: BoneWeight::One, ..l })
    } else {
        s
    }
}

/// The links after processing links `s.len() - 1` down to `i`.
pub open spec fn pruned_from<T>(s: Seq<BoneLink<T>>, locked: Seq<bool>, i: int) -> Seq<BoneLink<T>>
    decreases s.len() - i,
{
    if i >= s.len() {
        s
    } else {
        prune_at(pruned_from(s, locked, i + 1), locked, i)
    }
}

/// The links after processing every link, from the last to the first.
pub open spec fn pruned<T>(s: Seq<BoneLink<T>>, locked: Seq<bool>) -> Seq<BoneLink<T>> {
    pruned_from(s, locked, 0)
}

/// Computes the locked state of every slot.
fn lock_slots<P: PointPtr, N: PointNode, T>(
    map: &Vec<P>,
    seen: &Vec<bool>,
    slots: &Vec<usize>,
    points: &Vec<N>,
    locked: &Vec<P>,
    Ghost(bones): Ghost<Seq<fns::Bone<P, T>>>,
) -> (r: Vec<bool>)
    requires
        is_slot_map(map@, bones, points@.len() as int),
        seen@.len() == points@.len(),
        slots@.len() == points@.len(),
        forall|x: int| 0 <= x < points@.len() ==> #[trigger] seen@[x] == is_end(bones, x),
        forall|x: int| 0 <= x < points@.len() ==> #[trigger] slots@[x] == slot(bones, x),
    ensures
        r@.len() == map@.len(),
        forall|k: int| 0 <= k < map@.len() ==> #[trigger] r@[k] == slot_locked(map@, points@, locked@, k),
{
    let n = points.len();
    let m = map.len();
    let mut lk: Vec<bool> = vec![false; m];
    let nl = locked.len();
    let mut i: usize = 0;
    while i < nl
        invariant
            n == points@.len(),
            m == map@.len(),
            nl == locked@.len(),
            i <= nl,
            lk@.len() == m,
            is_slot_map(map@, bones, n as int),
            seen@.len() == n,
            slots@.len() == n,
            forall|x: int| 0 <= x < n ==> #[trigger] seen@[x] == is_end(bones, x),
            forall|x: int| 0 <= x < n ==> #[trigger] slots@[x] == slot(bones, x),
            forall|k: int| 0 <= k < m ==> #[trigger] lk@[k] == locks(locked@.take(i as int), map@[k].ptr_index() as int),
        decreases nl - i,
    {
        let x = locked[i].position();
        if x < n && seen[x] {
            let k = slots[x];
            proof {
                lemma_slot_monotonic(bones, x + 1, n as int);
            }
            lk.set(k, true);
        }
        assert forall|k: int| 0 <= k < m implies #[trigger] lk@[k] == locks(locked@.take(i + 1), map@[k].ptr_index() as int) by {
            let y = map@[k].ptr_index() as int;
            let t = locked@.take(i + 1);
            assert(t[i as int] == locked@[i as int]);
            if locks(locked@.take(i as int), y) {
                let w = choose|w: int| 0 <= w < i && #[trigger] locked@.take(i as int)[w].ptr_index() == y;
                assert(t[w] == locked@.take(i as int)[w]);
            }
            if locks(t, y) {
                let w = choose|w: int| 0 <= w < i + 1 && #[trigger] t[w].ptr_index() == y;
                if w < i {
                    assert(locked@.take(i as int)[w] == t[w]);
                }
            }
            if x < n && seen@[x as int] && y == x {
                assert(map@[slot(bones, x as int) as int].ptr_index() == x);
            }
        }
        i = i + 1;
    }
    assert(locked@.take(nl as int) =~= locked@);
    let mut k: usize = 0;
    while k < m
        invariant
            n == points@.len(),
            m == map@.len(),
            k <= m,
            lk@.len() == m,
            is_slot_map(map@, bones, n as int),
            forall|j: int| 0 <= j < k ==> #[trigger] lk@[j] == slot_locked(map@, points@, locked@, j),
            forall|j: int| k <= j < m ==> #[trigger] lk@[j] == locks(locked@, map@[j].ptr_index() as int),
        decreases m - k,
    {
        if !lk[k] {
            let x = map[k].position();
            let computed = !points[x].is_data();
            lk.set(k, computed);
        }
        k = k + 1;
    }
    lk
}

/// Lists the links of the bones of one kind, in the order of the bones.
fn links_of_kind<P: PointPtr, T>(bones: &Vec<fns::Bone<P, T>>, slots: &Vec<usize>, kind: BoneKind) -> (r: Vec<BoneLink<T>>)
    requires
        bones_within(bones@, slots@.len() as int),
        forall|x: int| 0 <= x < slots@.len() ==> #[trigger] slots@[x] == slot(bones@, x),
    ensures
        r@ == kind_links(bones@, kind, bones@.len() as int),
{
    let mut r: Vec<BoneLink<T>> = Vec::new();
    let nb = bones.len();
    let mut j: usize = 0;
    while j < nb
        invariant
            nb == bones@.len(),
            j <= nb,
            bones_within(bones@, slots@.len() as int),
            forall|x: int| 0 <= x < slots@.len() ==> #[trigger] slots@[x] == slot(bones@, x),
            r@ == kind_links(bones@, kind, j as int),
        decreases nb - j,
    {
        let (a, b, dist, k) = match &bones[j] {
            fns::Bone::Eq(a, b, d) => (*a, *b, *d, BoneKind::Eq),
            fns::Bone::Less(a, b, d) => (*a, *b, *d, BoneKind::Less),
            fns::Bone::More(a, b, d) => (*a, *b, *d, BoneKind::More),
        };
        assert(bone_a(bones@[j as int]) == a && bone_b(bones@[j as int]) == b);
        if k == kind {
            let link = BoneLink { a: slots[a.position()], b: slots[b.position()], dist, weight: BoneWeight::Half };
            assert(link == link_of(bones@, bones@[j as int]));
            r.push(link);
        }
        j = j + 1;
    }
    r
}

proof fn lemma_pruned_shape<T>(s: Seq<BoneLink<T>>, locked: Seq<bool>, i: int)
    requires
        0 <= i <= s.len(),
        links_within(s, locked.len() as int),
    ensures
        pruned_from(s, locked, i).len() >= i,
        links_within(pruned_from(s, locked, i), locked.len() as int),
    decreases s.len() - i,
{
    if i < s.len() {
        lemma_pruned_shape(s, locked, i + 1);
        let c = pruned_from(s, locked, i + 1);
        let d = prune_at(c, locked, i);
        assert forall|j: int| 0 <= j < d.len() implies (#[trigger] d[j]).a < locked.len() && d[j].b < locked.len() by {
            if j == i {
                assert(c[i].a < locked.len());
            } else {
                assert(c[j].a < locked.len());
            }
        }
    }
}

/// Drops and reweighs links by the locked state of their slots.
fn prune_links<T>(links: &mut Vec<BoneLink<T>>, locked: &Vec<bool>)
    requires
        links_within(old(links)@, locked@.len() as int),
    ensures
        final(links)@ == pruned(old(links)@, locked@),
{
    let ghost s0 = links@;
    let mut i = links.len();
    proof {
        lemma_pruned_shape(s0, locked@, i as int);
    }
    while i > 0
        invariant
            i <= s0.len(),
            links@ == pruned_from(s0, locked@, i as int),
            links_within(s0, locked@.len() as int),
        decreases i,
    {
        i = i - 1;
        proof {
            lemma_pruned_shape(s0, locked@, i + 1);
        }
        let l = links[i];
        if locked[l.a] && locked[l.b] || l.a == l.b {
            links.swap_remove(i);
        } else if locked[l.a] {
            links.set(i, BoneLink { weight: BoneWeight::Zero, ..l });
        } else if locked[l.b] {
            links.set(i, BoneLink { weight: BoneWeight::One, ..l });
        }
    }
}

/// The locked state of every slot of `map`.
pub open spec fn slot_locks<P: PointPtr, N: PointNode>(map: Seq<P>, points: Seq<N>, locked: Seq<P>) -> Seq<bool> {
    Seq::new(map.len(), |k: int| slot_locked(map, points, locked, k))
}

/// The bones of one dimension laid out for simulation.
pub struct BoneGroup<P, T> {
    /// The point of every slot, in increasing position.
    pub map: Vec<P>,
    /// Bones that keep constant distance.
    pub eq_bones: Vec<BoneLink<T>>,
    /// Bones that keep a maximum distance.
    pub less_bones: Vec<BoneLink<T>>,
    /// Bones that keep a minimum distance.
    pub more_bones: Vec<BoneLink<T>>,
}

impl<P: PointPtr, T> BoneGroup<P, T> {
    /// Whether this group lays out `bones` between points of `points`, with the
    /// points of `locked` locked.
    pub open spec fn lays_out<N: PointNode>(&self, bones: Seq<fns::Bone<P, T>>, points: Seq<N>, locked: Seq<P>) -> bool {
        let lk = slot_locks(self.map@, points, locked);
        &&& is_slot_map(self.map@, bones, points.len() as int)
        &&& self.eq_bones@ == pruned(kind_links(bones, BoneKind::Eq, bones.len() as int), lk)
        &&& self.less_bones@ == pruned(kind_links(bones, BoneKind::Less, bones.len() as int), lk)
        &&& self.more_bones@ == pruned(kind_links(bones, BoneKind::More, bones.len() as int), lk)
    }
}

proof fn lemma_kind_links_within<P: PointPtr, T>(bones: Seq<fns::Bone<P, T>>, kind: BoneKind, j: int, n: int)
    requires
        0 <= j <= bones.len(),
        bones_within(bones, n),
    ensures
        links_within(kind_links(bones, kind, j), slot(bones, n) as int),
    decreases j,
{
    if j > 0 {
        lemma_kind_links_within(bones, kind, j - 1, n);
        let b = bones[j - 1];
        let xa = bone_a(b).ptr_index() as int;
        let xb = bone_b(b).ptr_index() as int;
        assert(has_end(bones[j - 1], xa) && has_end(bones[j - 1], xb));
        assert(is_end(bones, xa) && is_end(bones, xb));
        lemma_slot_monotonic(bones, xa + 1, n);
        lemma_slot_monotonic(bones, xb + 1, n);
    }
}

/// Lays out the bones of one dimension.
fn bone_group<P: PointPtr, N: PointNode, T>(
    bones: &Vec<fns::Bone<P, T>>,
    points: &Vec<N>,
    locked: &Vec<P>,
) -> (r: BoneGroup<P, T>)
    requires
        bones_within(bones@, points@.len() as int),
    ensures
        r.lays_out(bones@, points@, locked@),
{
    let n = points.len();
    let (map, seen, slots) = gather_slots(bones, n);
    let lk = lock_slots::<P, N, T>(&map, &seen, &slots, points, locked, Ghost(bones@));
    proof {
        assert(lk@ =~= slot_locks(map@, points@, locked@));
        lemma_kind_links_within(bones@, BoneKind::Eq, bones@.len() as int, n as int);
        lemma_kind_links_within(bones@, BoneKind::Less, bones@.len() as int, n as int);
        lemma_kind_links_within(bones@, BoneKind::More, bones@.len() as int, n as int);
    }
    let mut eq_bones = links_of_kind(bones, &slots, BoneKind::Eq);
    let mut less_bones = links_of_kind(bones, &slots, BoneKind::Less);
    let mut more_bones = links_of_kind(bones, &slots, BoneKind::More);
    prune_links(&mut eq_bones, &lk);
    prune_links(&mut less_bones, &lk);
    prune_links(&mut more_bones, &lk);
    BoneGroup { map, eq_bones, less_bones, more_bones }
}

/// The bones of a document laid out for simulation, per dimension.
pub struct BoneLayout<T> {
    /// Bones between scalars.
    pub bones1: BoneGroup<ptr::Point1<T>, T>,
    /// Bones between 2D points.
    pub bones2: BoneGroup<ptr::Point2<T>, T>,
    /// Bones between 3D points.
    pub bones3: BoneGroup<ptr::Point3<T>, T>,
    /// Bones between 4D points.
    pub bones4: BoneGroup<ptr::Point4<T>, T>,
}

impl<T: Copy> BoneLayout<T> {
    /// Lays out the bones of a document, with the points that the selection locks
    /// locked.
    pub fn new(doc: &Reactor<T>, selection: &Selection<T>) -> (r: BoneLayout<T>)
        requires
            bones_within(doc@.bones1, doc@.points1.len() as int),
            bones_within(doc@.bones2, doc@.points2.len() as int),
            bones_within(doc@.bones3, doc@.points3.len() as int),
            bones_within(doc@.bones4, doc@.points4.len() as int),
        ensures
            r.bones1.lays_out(doc@.bones1, doc@.points1, selection.locked1@),
            r.bones2.lays_out(doc@.bones2, doc@.points2, selection.locked2@),
            r.bones3.lays_out(doc@.bones3, doc@.points3, selection.locked3@),
            r.bones4.lays_out(doc@.bones4, doc@.points4, selection.locked4@),
    {
        BoneLayout {
            bones1: bone_group(&doc.bones1, &doc.points1, &selection.locked1),
            bones2: bone_group(&doc.bones2, &doc.points2, &selection.locked2),
            bones3: bone_group(&doc.bones3, &doc.points3, &selection.locked3),
            bones4: bone_group(&doc.bones4, &doc.points4, &selection.locked4),
        }
    }
}

/// The points after writing positions back: slot `i` writes the second position
/// of `pos[i]` into the point at `map[i]` when that point holds data, for the
/// first `i` slots in order.
pub open spec fn committed<P: PointPtr, N: PointNode>(
    points: Seq<N>,
    map: Seq<P>,
    pos: Seq<(N::Value, N::Value)>,
    i: int,
) -> Seq<N>
    decreases i,
{
    if i <= 0 {
        points
    } else {
        let prev = committed(points, map, pos, i - 1);
        let x = map[i - 1].ptr_index() as int;
        if prev[x].holds_data() {
            prev.update(x, N::data_node(pos[i - 1].1))
        } else {
            prev
        }
    }
}

/// The positions after writing them back: the previous position of a slot whose
/// point holds data becomes its current position.
pub open spec fn settled<P: PointPtr, N: PointNode>(
    points: Seq<N>,
    map: Seq<P>,
    pos: Seq<(N::Value, N::Value)>,
) -> Seq<(N::Value, N::Value)> {
    Seq::new(
        pos.len(),
        |i: int|
            if points[map[i].ptr_index() as int].holds_data() {
                (pos[i].1, pos[i].1)
            } else {
                pos[i]
            },
    )
}

/// Whether every slot below `len` has a point below `n`.
pub open spec fn map_within<P: PointPtr>(map: Seq<P>, len: int, n: int) -> bool {
    len <= map.len() && forall|i: int| 0 <= i < len ==> (#[trigger] map[i]).ptr_index() < n
}

proof fn lemma_committed_shape<P: PointPtr, N: PointNode>(
    points: Seq<N>,
    map: Seq<P>,
    pos: Seq<(N::Value, N::Value)>,
    i: int,
)
    requires
        0 <= i <= pos.len(),
        map_within(map, pos.len() as int, points.len() as int),
    ensures
        committed(points, map, pos, i).len() == points.len(),
        forall|x: int| 0 <= x < points.len() ==>
            (#[trigger] committed(points, map, pos, i)[x]).holds_data() == points[x].holds_data(),
    decreases i,
{
    if i > 0 {
        lemma_committed_shape(points, map, pos, i - 1);
        let prev = committed(points, map, pos, i - 1);
        let x = map[i - 1].ptr_index() as int;
        if prev[x].holds_data() {
            N::lemma_data_node_holds_data(pos[i - 1].1);
        }
    }
}

/// Writes the current positions of slots back into the points that hold data.
fn commit_points<P: PointPtr, N: PointNode>(points: &mut Vec<N>, map: &Vec<P>, pos: &mut Vec<(N::Value, N::Value)>)
    requires
        map_within(map@, old(pos)@.len() as int, old(points)@.len() as int),
    ensures
        final(points)@ == committed(old(points)@, map@, old(pos)@, old(pos)@.len() as int),
        final(pos)@ == settled(old(points)@, map@, old(pos)@),
{
    let ghost p0 = points@;
    let ghost q0 = pos@;
    let n = pos.len();
    let mut i: usize = 0;
    while i < n
        invariant
            n == q0.len(),
            i <= n,
            map_within(map@, n as int, p0.len() as int),
            points@ == committed(p0, map@, q0, i as int),
            pos@.len() == n,
            forall|j: int| 0 <= j < i ==> #[trigger] pos@[j] == settled(p0, map@, q0)[j],
            forall|j: int| i <= j < n ==> #[trigger] pos@[j] == q0[j],
        decreases n - i,
    {
        proof {
            lemma_committed_shape(p0, map@, q0, i as int);
        }
        let x = map[i].position();
        if points[x].is_data() {
            let cur = pos[i].1;
            points.set(x, N::data(cur));
            pos.set(i, (cur, cur));
        }
        i = i + 1;
    }
    assert(pos@ =~= settled(p0, map@, q0));
}

/// Stores intermediate data for physics simulation.
pub struct Physics<T> {
    /// Scalars connected to bones.
    pub pos1: Vec<(T, T)>,
    /// 2D points connected to bones.
    pub pos2: Vec<([T; 2], [T; 2])>,
    /// 3D points connected to bones.
    pub pos3: Vec<([T; 3], [T; 3])>,
    /// 4D points connected to bones.
    pub pos4: Vec<([T; 4], [T; 4])>,
    /// Scalar bones that keep constant distance.
    pub eq_bones1: Vec<(usize, usize, T, T)>,
    /// 2D bones that keep constant distance.
    pub eq_bones2: Vec<(usize, usize, T, T)>,
    /// 3D bones that keep constant distance.
    pub eq_bones3: Vec<(usize, usize, T, T)>,
    /// 4D bones that keep constant distance.
    pub eq_bones4: Vec<(usize, usize, T, T)>,
    /// Bones that keep a maximum distance.
    pub less_bones1: Vec<(usize, usize, T, T)>,
    /// 2D bones that keep maximum distance.
    pub less_bones2: Vec<(usize, usize, T, T)>,
    /// 3D bones that keep maximum distance.
    pub less_bones3: Vec<(usize, usize, T, T)>,
    /// 4D bones that keep maximum distance.
    pub less_bones4: Vec<(usize, usize, T, T)>,
    /// Scalar bones that keep minimum distance.
    pub more_bones1: Vec<(usize, usize, T, T)>,
    /// 2D bones that keep minimum distance.
    pub more_bones2: Vec<(usize, usize, T, T)>,
    /// 3D bones that keep minimum distance.
    pub more_bones3: Vec<(usize, usize, T, T)>,
    /// 4D bones that keep minimum distance.
    pub more_bones4: Vec<(usize, usize, T, T)>,
    /// Position map back to document for scalars.
    /// Sorted to enable binary search.
    pub map1: Vec<ptr::Point1<T>>,
    /// Position map back to document for 2D points.
    /// Sorted to enable binary search.
    pub map2: Vec<ptr::Point2<T>>,
    /// Position map back to document for 3D points.
    /// Sorted to enable binary search.
    pub map3: Vec<ptr::Point3<T>>,
    /// Position map back to document for 4D points.
    /// Sorted to enable binary search.
    pub map4: Vec<ptr::Point4<T>>,
}

impl<T: Copy> Physics<T> {
    /// Commit changes to document.
    /// Writes data to document and updates previous position.
    pub fn commit(&mut self, doc: &mut Reactor<T>)
        requires
            map_within(old(self).map1@, old(self).pos1@.len() as int, old(doc)@.points1.len() as int),
            map_within(old(self).map2@, old(self).pos2@.len() as int, old(doc)@.points2.len() as int),
            map_within(old(self).map3@, old(self).pos3@.len() as int, old(doc)@.points3.len() as int),
            map_within(old(self).map4@, old(self).pos4@.len() as int, old(doc)@.points4.len() as int),
        ensures
            final(doc)@ == (ReactorModel {
                points1: committed(old(doc)@.points1, old(self).map1@, old(self).pos1@, old(self).pos1@.len() as int),
                points2: committed(old(doc)@.points2, old(self).map2@, old(self).pos2@, old(self).pos2@.len() as int),
                points3: committed(old(doc)@.points3, old(self).map3@, old(self).pos3@, old(self).pos3@.len() as int),
                points4: committed(old(doc)@.points4, old(self).map4@, old(self).pos4@, old(self).pos4@.len() as int),
                ..old(doc)@
            }),
            final(self).pos1@ == settled(old(doc)@.points1, old(self).map1@, old(self).pos1@),
            final(self).pos2@ == settled(old(doc)@.points2, old(self).map2@, old(self).pos2@),
            final(self).pos3@ == settled(old(doc)@.points3, old(self).map3@, old(self).pos3@),
            final(self).pos4@ == settled(old(doc)@.points4, old(self).map4@, old(self).pos4@),
            final(self).map1@ == old(self).map1@,
            final(self).map2@ == old(self).map2@,
            final(self).map3@ == old(self).map3@,
            final(self).map4@ == old(self).map4@,
            final(self).eq_bones1@ == old(self).eq_bones1@,
            final(self).eq_bones2@ == old(self).eq_bones2@,
            final(self).eq_bones3@ == old(self).eq_bones3@,
            final(self).eq_bones4@ == old(self).eq_bones4@,
            final(self).less_bones1@ == old(self).less_bones1@,
            final(self).less_bones2@ == old(self).less_bones2@,
            final(self).less_bones3@ == old(self).less_bones3@,
            final(self).less_bones4@ == old(self).less_bones4@,
            final(self).more_bones1@ == old(self).more_bones1@,
            final(self).more_bones2@ == old(self).more_bones2@,
            final(self).more_bones3@ == old(self).more_bones3@,
            final(self).more_bones4@ == old(self).more_bones4@,
    {
        commit_points(&mut doc.points1, &self.map1, &mut self.pos1);
        commit_points(&mut doc.points2, &self.map2, &mut self.pos2);
        commit_points(&mut doc.points3, &self.map3, &mut self.pos3);
        commit_points(&mut doc.points4, &self.map4, &mut self.pos4);
    }
}

/// The slots of a slot map hold their points in strictly increasing position, so
/// no point has two slots.
pub proof fn lemma_slot_map_sorted<P: PointPtr, T>(map: Seq<P>, bones: Seq<fns::Bone<P, T>>, n: int)
    requires
        is_slot_map(map, bones, n),
    ensures
        forall|i: int, j: int| 0 <= i < j < map.len() ==> map[i].ptr_index() < map[j].ptr_index(),
{
    assert forall|i: int, j: int| 0 <= i < j < map.len() implies map[i].ptr_index() < map[j].ptr_index() by {
        let x = map[i].ptr_index() as int;
        let y = map[j].ptr_index() as int;
        if y <= x {
            lemma_slot_monotonic(bones, y, x);
        }
    }
}

/// A slot map holds no point in two slots.
pub proof fn lemma_slot_map_distinct<P: PointPtr, T>(map: Seq<P>, bones: Seq<fns::Bone<P, T>>, n: int)
    requires
        is_slot_map(map, bones, n),
    ensures
        map_distinct(map, map.len() as int),
{
    lemma_slot_map_sorted(map, bones, n);
}

/// Whether a link that survived pruning is as pruning leaves it: not both of its
/// points are locked, its ends differ, and its weight reflects which point is
/// locked: none of a correction goes to a locked first point, all of it to the
/// first point when the second is locked, and half otherwise.
pub open spec fn kept_link<T>(l: BoneLink<T>, locked: Seq<bool>) -> bool {
    &&& !(locked[l.a as int] && locked[l.b as int])
    &&& l.a != l.b
    &&& (l.weight == BoneWeight::Zero <==> locked[l.a as int])
    &&& (l.weight == BoneWeight::One <==> locked[l.b as int])
}

proof fn lemma_pruned_from_kept<T>(s: Seq<BoneLink<T>>, locked: Seq<bool>, i: int)
    requires
        0 <= i <= s.len(),
        links_within(s, locked.len() as int),
        forall|j: int| 0 <= j < s.len() ==> (#[trigger] s[j]).weight == BoneWeight::Half,
    ensures
        pruned_from(s, locked, i).len() >= i,
        forall|j: int| 0 <= j < i ==> #[trigger] pruned_from(s, locked, i)[j] == s[j],
        forall|j: int| i <= j < pruned_from(s, locked, i).len() ==> kept_link(#[trigger] pruned_from(s, locked, i)[j], locked),
    decreases s.len() - i,
{
    if i < s.len() {
        lemma_pruned_from_kept(s, locked, i + 1);
        lemma_pruned_shape(s, locked, i + 1);
        let c = pruned_from(s, locked, i + 1);
        let d = prune_at(c, locked, i);
        assert(c[i] == s[i]);
        assert forall|j: int| i <= j < d.len() implies kept_link(#[trigger] d[j], locked) by {
            if j > i {
                assert(d[j] == c[j]);
            } else {
                let l = c[i];
                if locked[l.a as int] && locked[l.b as int] || l.a == l.b {
                    assert(d[i] == c[c.len() - 1]);
                }
            }
        }
        assert forall|j: int| 0 <= j < i implies #[trigger] d[j] == s[j] by {
            assert(d[j] == c[j]);
        }
    }
}

/// Every link that pruning keeps has at least one free point and distinct ends,
/// and gives none of a correction to its first point exactly when that point is
/// locked, and all of it exactly when its second point is locked.
pub proof fn lemma_pruned_links_kept<T>(s: Seq<BoneLink<T>>, locked: Seq<bool>)
    requires
        links_within(s, locked.len() as int),
        forall|j: int| 0 <= j < s.len() ==> (#[trigger] s[j]).weight == BoneWeight::Half,
    ensures
        forall|j: int| 0 <= j < pruned(s, locked).len() ==> kept_link(#[trigger] pruned(s, locked)[j], locked),
{
    lemma_pruned_from_kept(s, locked, 0);
}

/// Whether no two of the first `len` slots of `map` hold the same point.
pub open spec fn map_distinct<P: PointPtr>(map: Seq<P>, len: int) -> bool {
    forall|i: int, j: int| 0 <= i < j < len ==> map[i].ptr_index() != map[j].ptr_index()
}

/// The value that the point at position `x` holds after writing back: the current
/// position of its slot when it has a slot and holds data, else what it held.
pub open spec fn written<P: PointPtr, N: PointNode>(
    points: Seq<N>,
    map: Seq<P>,
    pos: Seq<(N::Value, N::Value)>,
    x: int,
) -> N {
    if points[x].holds_data() && exists|i: int| 0 <= i < pos.len() && #[trigger] map[i].ptr_index() == x {
        N::data_node(pos[choose|i: int| 0 <= i < pos.len() && #[trigger] map[i].ptr_index() == x].1)
    } else {
        points[x]
    }
}

proof fn lemma_committed_upto<P: PointPtr, N: PointNode>(
    points: Seq<N>,
    map: Seq<P>,
    pos: Seq<(N::Value, N::Value)>,
    k: int,
)
    requires
        0 <= k <= pos.len(),
        map_within(map, pos.len() as int, points.len() as int),
        map_distinct(map, pos.len() as int),
    ensures
        forall|x: int| 0 <= x < points.len() ==> #[trigger] committed(points, map, pos, k)[x] == (
            if points[x].holds_data() && exists|i: int| 0 <= i < k && #[trigger] map[i].ptr_index() == x {
                N::data_node(pos[choose|i: int| 0 <= i < k && #[trigger] map[i].ptr_index() == x].1)
            } else {
                points[x]
            }
        ),
    decreases k,
{
    if k > 0 {
        lemma_committed_upto(points, map, pos, k - 1);
        lemma_committed_shape(points, map, pos, k - 1);
        let prev = committed(points, map, pos, k - 1);
        let y = map[k - 1].ptr_index() as int;
        assert forall|x: int| 0 <= x < points.len() implies #[trigger] committed(points, map, pos, k)[x] == (
            if points[x].holds_data() && exists|i: int| 0 <= i < k && #[trigger] map[i].ptr_index() == x {
                N::data_node(pos[choose|i: int| 0 <= i < k && #[trigger] map[i].ptr_index() == x].1)
            } else {
                points[x]
            }
        ) by {
            if x == y {
                assert(map[k - 1].ptr_index() == x);
                let c = choose|i: int| 0 <= i < k && #[trigger] map[i].ptr_index() == x;
                assert(c == k - 1);
                if exists|i: int| 0 <= i < k - 1 && #[trigger] map[i].ptr_index() == x {
                    let w = choose|i: int| 0 <= i < k - 1 && #[trigger] map[i].ptr_index() == x;
                    assert(map[w].ptr_index() != map[k - 1].ptr_index());
                }
            } else {
                if exists|i: int| 0 <= i < k && #[trigger] map[i].ptr_index() == x {
                    let w = choose|i: int| 0 <= i < k && #[trigger] map[i].ptr_index() == x;
                    assert(w != k - 1);
                    assert(exists|i: int| 0 <= i < k - 1 && #[trigger] map[i].ptr_index() == x);
                    let v = choose|i: int| 0 <= i < k - 1 && #[trigger] map[i].ptr_index() == x;
                    assert(v == w) by {
                        if v != w {
                            if v < w {
                                assert(map[v].ptr_index() != map[w].ptr_index());
                            } else {
                                assert(map[w].ptr_index() != map[v].ptr_index());
                            }
                        }
                    }
                }
                if exists|i: int| 0 <= i < k - 1 && #[trigger] map[i].ptr_index() == x {
                    let v = choose|i: int| 0 <= i < k - 1 && #[trigger] map[i].ptr_index() == x;
                    assert(0 <= v < k);
                }
            }
        }
    }
}

/// When no two slots hold the same point, writing back leaves every point that
/// has a slot and holds data with the current position of its slot, and every
/// other point as it was.
pub proof fn lemma_commit_writes_slots<P: PointPtr, N: PointNode>(
    points: Seq<N>,
    map: Seq<P>,
    pos: Seq<(N::Value, N::Value)>,
)
    requires
        map_within(map, pos.len() as int, points.len() as int),
        map_distinct(map, pos.len() as int),
    ensures
        committed(points, map, pos, pos.len() as int).len() == points.len(),
        forall|x: int| 0 <= x < points.len() ==>
            #[trigger] committed(points, map, pos, pos.len() as int)[x] == written(points, map, pos, x),
{
    lemma_committed_shape(points, map, pos, pos.len() as int);
    lemma_committed_upto(points, map, pos, pos.len() as int);
}

/// Writing positions back through the slot map of a bone layout, one position per
/// slot at most, reads only points of the document, and leaves every point that has
/// a slot and holds data with the current position of its slot, and every other
/// point as it was.
pub proof fn lemma_layout_commit_writes_slots<P: PointPtr, T, N: PointNode>(
    group: BoneGroup<P, T>,
    bones: Seq<fns::Bone<P, T>>,
    points: Seq<N>,
    locked: Seq<P>,
    pos: Seq<(N::Value, N::Value)>,
)
    requires
        group.lays_out(bones, points, locked),
        pos.len() <= group.map@.len(),
    ensures
        map_within(group.map@, pos.len() as int, points.len() as int),
        committed(points, group.map@, pos, pos.len() as int).len() == points.len(),
        forall|x: int| 0 <= x < points.len() ==>
            #[trigger] committed(points, group.map@, pos, pos.len() as int)[x] == written(points, group.map@, pos, x),
{
    lemma_slot_map_distinct(group.map@, bones, points.len() as int);
    lemma_commit_writes_slots(points, group.map@, pos);
}

/// Whether pruning keeps a link: not both of its points are locked and its ends
/// differ.
pub open spec fn link_kept<T>(l: BoneLink<T>, locked: Seq<bool>) -> bool {
    !(locked[l.a as int] && locked[l.b as int]) && l.a != l.b
}

/// The links from position `i` on that pruning keeps, in order.
pub open spec fn kept_from<T>(s: Seq<BoneLink<T>>, locked: Seq<bool>, i: int) -> Seq<BoneLink<T>>
    decreases s.len() - i,
{
    if i >= s.len() {
        Seq::empty()
    } else if link_kept(s[i], locked) {
        seq![s[i]] + kept_from(s, locked, i + 1)
    } else {
        kept_from(s, locked, i + 1)
    }
}

/// Links with their weights set back to half.
pub open spec fn unweighted<T>(s: Seq<BoneLink<T>>) -> Seq<BoneLink<T>> {
    s.map_values(|l: BoneLink<T>| BoneLink { weight: BoneWeight::Half, ..l })
}

proof fn lemma_unweighted_concat<T>(a: Seq<BoneLink<T>>, b: Seq<BoneLink<T>>)
    ensures
        unweighted(a + b) == unweighted(a) + unweighted(b),
{
    assert(unweighted(a + b) =~= unweighted(a) + unweighted(b));
}

proof fn lemma_pruned_from_multiset<T>(s: Seq<BoneLink<T>>, locked: Seq<bool>, i: int)
    requires
        0 <= i <= s.len(),
        links_within(s, locked.len() as int),
        forall|j: int| 0 <= j < s.len() ==> (#[trigger] s[j]).weight == BoneWeight::Half,
    ensures
        unweighted(pruned_from(s, locked, i).skip(i)).to_multiset() == kept_from(s, locked, i).to_multiset(),
    decreases s.len() - i,
{
    broadcast use vstd::seq_lib::lemma_multiset_commutative;

    if i == s.len() {
        assert(pruned_from(s, locked, i).skip(i) =~= Seq::<BoneLink<T>>::empty());
        assert(unweighted(Seq::<BoneLink<T>>::empty()) =~= Seq::<BoneLink<T>>::empty());
    } else {
        lemma_pruned_from_multiset(s, locked, i + 1);
        lemma_pruned_from_kept(s, locked, i + 1);
        lemma_pruned_shape(s, locked, i + 1);
        let c = pruned_from(s, locked, i + 1);
        let d = prune_at(c, locked, i);
        let l = c[i];
        assert(l == s[i]);
        let tail = c.skip(i + 1);
        if locked[l.a as int] && locked[l.b as int] || l.a == l.b {
            assert(!link_kept(s[i], locked));
            if i == c.len() - 1 {
                assert(d.skip(i) =~= Seq::<BoneLink<T>>::empty());
                assert(tail =~= Seq::<BoneLink<T>>::empty());
                assert(unweighted(Seq::<BoneLink<T>>::empty()) =~= Seq::<BoneLink<T>>::empty());
            } else {
                let rest = tail.drop_last();
                assert(d.skip(i) =~= seq![c.last()] + rest);
                assert(tail =~= rest + seq![c.last()]);
                lemma_unweighted_concat(seq![c.last()], rest);
                lemma_unweighted_concat(rest, seq![c.last()]);
                vstd::seq_lib::lemma_seq_union_to_multiset_commutative(unweighted(seq![c.last()]), unweighted(rest));
            }
        } else {
            assert(link_kept(s[i], locked));
            let di = d[i];
            assert(d.skip(i) =~= seq![di] + tail);
            lemma_unweighted_concat(seq![di], tail);
            assert(unweighted(seq![di]) =~= seq![s[i]]);
            assert(kept_from(s, locked, i) == seq![s[i]] + kept_from(s, locked, i + 1));
        }
    }
}

/// Pruning keeps exactly the links that have a free point and whose ends differ,
/// each once: leaving weights aside, it only reorders them.
pub proof fn lemma_pruned_links_complete<T>(s: Seq<BoneLink<T>>, locked: Seq<bool>)
    requires
        links_within(s, locked.len() as int),
        forall|j: int| 0 <= j < s.len() ==> (#[trigger] s[j]).weight == BoneWeight::Half,
    ensures
        unweighted(pruned(s, locked)).to_multiset() == kept_from(s, locked, 0).to_multiset(),
{
    lemma_pruned_from_multiset(s, locked, 0);
    assert(pruned(s, locked).skip(0) =~= pruned(s, locked));
}

/// Whether a bone is of the variant that `kind` names.
pub open spec fn is_bone_of_kind<P, T>(b: fns::Bone<P, T>, kind: BoneKind) -> bool {
    match b {
        fns::Bone::Eq(..) => kind == BoneKind::Eq,
        fns::Bone::Less(..) => kind == BoneKind::Less,
        fns::Bone::More(..) => kind == BoneKind::More,
    }
}

/// The bones of `bones` of the variant that `kind` names, in order.
pub open spec fn bones_of_kind<P, T>(bones: Seq<fns::Bone<P, T>>, kind: BoneKind) -> Seq<fns::Bone<P, T>> {
    bones.filter(|b: fns::Bone<P, T>| is_bone_of_kind(b, kind))
}

/// The links of a list of bones, one for each, before locking is taken into account.
pub open spec fn links_of_bones<P: PointPtr, T>(all: Seq<fns::Bone<P, T>>, sel: Seq<fns::Bone<P, T>>) -> Seq<BoneLink<T>> {
    sel.map_values(|b: fns::Bone<P, T>| link_of(all, b))
}

/// The kind of a bone is its variant: an `Eq` bone keeps distance, a `Less` bone a
/// maximum distance and a `More` bone a minimum distance.
pub proof fn lemma_bone_kind_is_variant<P, T>(b: fns::Bone<P, T>)
    ensures
        (bone_kind(b) == BoneKind::Eq) == (b is Eq),
        (bone_kind(b) == BoneKind::Less) == (b is Less),
        (bone_kind(b) == BoneKind::More) == (b is More),
{
}

/// The links of a kind come from the bones of that variant and from no others: one
/// link for each such bone among the first `j`, in their order.
pub proof fn lemma_kind_links_of_variant<P: PointPtr, T>(bones: Seq<fns::Bone<P, T>>, kind: BoneKind, j: int)
    requires
        0 <= j <= bones.len(),
    ensures
        kind_links(bones, kind, j) == links_of_bones(bones, bones_of_kind(bones.take(j), kind)),
    decreases j,
{
    reveal(Seq::filter);
    if j == 0 {
        assert(bones.take(0).len() == 0);
        assert(links_of_bones(bones, bones_of_kind(bones.take(0), kind)) =~= Seq::<BoneLink<T>>::empty());
    } else {
        lemma_kind_links_of_variant(bones, kind, j - 1);
        let t = bones.take(j);
        assert(t.drop_last() =~= bones.take(j - 1));
        assert(t.last() == bones[j - 1]);
        let prev = bones_of_kind(bones.take(j - 1), kind);
        if is_bone_of_kind(bones[j - 1], kind) {
            assert(bones_of_kind(t, kind) == prev.push(bones[j - 1]));
            assert(links_of_bones(bones, prev.push(bones[j - 1])) =~= links_of_bones(bones, prev).push(
                link_of(bones, bones[j - 1]),
            ));
        } else {
            assert(bones_of_kind(t, kind) == prev);
        }
    }
}

} // verus!
