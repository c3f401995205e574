//! Reference counting over the function graph of a reactive document.

use vstd::prelude::*;

use crate::reactive::{
    fns, ptr, Reactor, ReactorModel, Spline1, Spline2, Spline3, Spline4, Surface1, Surface2,
    Surface3, Surface4,
};

verus! {

/// A reference from a node of the document to a point node.
#[derive(Copy, Clone, Debug, PartialEq, Eq)]
pub enum PointRef {
    /// Refers to a scalar.
    P1(usize),
    /// Refers to a 2D point.
    P2(usize),
    /// Refers to a 3D point.
    P3(usize),
    /// Refers to a 4D point.
    P4(usize),
}

/// The number of times that `q` occurs in `s`.
pub open spec fn occurrences(s: Seq<PointRef>, q: PointRef) -> nat
    decreases s.len(),
{
    if s.len() == 0 {
        0
    } else {
        occurrences(s.drop_last(), q) + if s.last() == q {
            1nat
        } else {
            0nat
        }
    }
}

/// Implemented by nodes that refer to point nodes.
pub trait PointRefs {
    /// The point references of a node, in the order in which they are counted.
    spec fn spec_point_refs(&self) -> Seq<PointRef>;

    /// Lists the point references of a node.
    fn point_refs(&self) -> (r: Vec<PointRef>)
        ensures
            r@ == self.spec_point_refs(),
    ;
}

/// The point references of a sequence of nodes, node after node.
pub open spec fn refs_of<N: PointRefs>(nodes: Seq<N>) -> Seq<PointRef>
    decreases nodes.len(),
{
    if nodes.len() == 0 {
        Seq::empty()
    } else {
        refs_of(nodes.drop_last()) + nodes.last().spec_point_refs()
    }
}

/// The point references of the collection of a document with number `k`,
/// in the order bools, scalars, 2D, 3D, 4D points, splines, surfaces and colors.
pub open spec fn doc_section<T>(d: ReactorModel<T>, k: nat) -> Seq<PointRef> {
    if k == 0 {
        refs_of(d.bools)
    } else if k == 1 {
        refs_of(d.points1)
    } else if k == 2 {
        refs_of(d.points2)
    } else if k == 3 {
        refs_of(d.points3)
    } else if k == 4 {
        refs_of(d.points4)
    } else if k == 5 {
        refs_of(d.splines1)
    } else if k == 6 {
        refs_of(d.splines2)
    } else if k == 7 {
        refs_of(d.splines3)
    } else if k == 8 {
        refs_of(d.splines4)
    } else if k == 9 {
        refs_of(d.surfaces1)
    } else if k == 10 {
        refs_of(d.surfaces2)
    } else if k == 11 {
        refs_of(d.surfaces3)
    } else if k == 12 {
        refs_of(d.surfaces4)
    } else {
        refs_of(d.colors)
    }
}

/// The point references of the first `k` collections of a document.
pub open spec fn doc_refs_upto<T>(d: ReactorModel<T>, k: nat) -> Seq<PointRef>
    decreases k,
{
    if k == 0 {
        Seq::empty()
    } else {
        doc_refs_upto(d, (k - 1) as nat) + doc_section(d, (k - 1) as nat)
    }
}

/// All point references of a document, collection after collection.
pub open spec fn doc_refs<T>(d: ReactorModel<T>) -> Seq<PointRef> {
    doc_refs_upto(d, 14)
}

proof fn lemma_doc_refs_upto_prefix<T>(d: ReactorModel<T>, k: nat)
    requires
        k <= 14,
    ensures
        doc_refs_upto(d, k).is_prefix_of(doc_refs(d)),
    decreases 14 - k,
{
    if k < 14 {
        lemma_doc_refs_upto_prefix(d, k + 1);
        let a = doc_refs_upto(d, k);
        let b = doc_refs_upto(d, k + 1);
        assert(b.subrange(0, a.len() as int) =~= a);
        lemma_prefix_trans(a, b, doc_refs(d));
    } else {
        assert(doc_refs(d).subrange(0, doc_refs(d).len() as int) =~= doc_refs(d));
    }
}

proof fn lemma_prefix_trans(a: Seq<PointRef>, b: Seq<PointRef>, c: Seq<PointRef>)
    requires
        a.is_prefix_of(b),
        b.is_prefix_of(c),
    ensures
        a.is_prefix_of(c),
{
    assert(c.subrange(0, a.len() as int) =~= b.subrange(0, a.len() as int));
}

proof fn lemma_prefix_append(d: Seq<PointRef>, p: Seq<PointRef>, s: Seq<PointRef>)
    requires
        p.is_prefix_of(s),
    ensures
        (d + p).is_prefix_of(d + s),
{
    assert((d + s).subrange(0, (d + p).len() as int) =~= d + p);
}

/// Whether a point reference names a node that the document holds.
pub open spec fn ref_in_doc<T>(d: ReactorModel<T>, q: PointRef) -> bool {
    match q {
        PointRef::P1(i) => i < d.points1.len(),
        PointRef::P2(i) => i < d.points2.len(),
        PointRef::P3(i) => i < d.points3.len(),
        PointRef::P4(i) => i < d.points4.len(),
    }
}

/// Every point reference of a document names a node that the document holds.
pub open spec fn refs_in_doc<T>(d: ReactorModel<T>) -> bool {
    forall|i: int| 0 <= i < doc_refs(d).len() ==> ref_in_doc(d, #[trigger] doc_refs(d)[i])
}

proof fn lemma_occurrences_concat(s: Seq<PointRef>, t: Seq<PointRef>, q: PointRef)
    ensures
        occurrences(s + t, q) == occurrences(s, q) + occurrences(t, q),
    decreases t.len(),
{
    if t.len() == 0 {
        assert(s + t =~= s);
    } else {
        assert((s + t).drop_last() =~= s + t.drop_last());
        lemma_occurrences_concat(s, t.drop_last(), q);
    }
}

proof fn lemma_occurrences_prefix(s: Seq<PointRef>, p: Seq<PointRef>, q: PointRef)
    requires
        p.is_prefix_of(s),
    ensures
        occurrences(p, q) <= occurrences(s, q),
{
    let rest = s.subrange(p.len() as int, s.len() as int);
    assert(p + rest =~= s);
    lemma_occurrences_concat(p, rest, q);
}

impl<T> PointRefs for fns::Bool<T> {
    open spec fn spec_point_refs(&self) -> Seq<PointRef> {
        match *self {
            fns::Bool::Data(_) => Seq::empty(),
            fns::Bool::Not(_) => Seq::empty(),
            fns::Bool::And(_, _) => Seq::empty(),
            fns::Bool::Or(_, _) => Seq::empty(),
            fns::Bool::Xor(_, _) => Seq::empty(),
            fns::Bool::EqBool(_, _) => Seq::empty(),
            fns::Bool::Eq1(a, b) => seq![PointRef::P1(a.index()), PointRef::P1(b.index())],
            fns::Bool::Eq2(a, b) => seq![PointRef::P2(a.index()), PointRef::P2(b.index())],
            fns::Bool::Eq3(a, b) => seq![PointRef::P3(a.index()), PointRef::P3(b.index())],
            fns::Bool::Eq4(a, b) => seq![PointRef::P4(a.index()), PointRef::P4(b.index())],
            fns::Bool::Less(a, b) => seq![PointRef::P1(a.index()), PointRef::P1(b.index())],
            fns::Bool::GreaterOrEqual(a, b) => seq![PointRef::P1(a.index()), PointRef::P1(b.index())],
        }
    }

    fn point_refs(&self) -> (r: Vec<PointRef>) {
        match *self {
            fns::Bool::Data(_) => Vec::new(),
            fns::Bool::Not(_) => Vec::new(),
            fns::Bool::And(_, _) => Vec::new(),
            fns::Bool::Or(_, _) => Vec::new(),
            fns::Bool::Xor(_, _) => Vec::new(),
            fns::Bool::EqBool(_, _) => Vec::new(),
            fns::Bool::Eq1(a, b) => vec![PointRef::P1(a.0), PointRef::P1(b.0)],
            fns::Bool::Eq2(a, b) => vec![PointRef::P2(a.0), PointRef::P2(b.0)],
            fns::Bool::Eq3(a, b) => vec![PointRef::P3(a.0), PointRef::P3(b.0)],
            fns::Bool::Eq4(a, b) => vec![PointRef::P4(a.0), PointRef::P4(b.0)],
            fns::Bool::Less(a, b) => vec![PointRef::P1(a.0), PointRef::P1(b.0)],
            fns::Bool::GreaterOrEqual(a, b) => vec![PointRef::P1(a.0), PointRef::P1(b.0)],
        }
    }
}

impl<T> PointRefs for fns::Point1<T> {
    open spec fn spec_point_refs(&self) -> Seq<PointRef> {
        match *self {
            fns::Point1::Data(_) => Seq::empty(),
            fns::Point1::Time1(_, a) => seq![PointRef::P1(a.index())],
            fns::Point1::Time2(_, a) => seq![PointRef::P2(a.index())],
            fns::Point1::Sum(a, b) => seq![PointRef::P1(a.index()), PointRef::P1(b.index())],
            fns::Point1::Diff(a, b) => seq![PointRef::P1(a.index()), PointRef::P1(b.index())],
            fns::Point1::Prod(a, b) => seq![PointRef::P1(a.index()), PointRef::P1(b.index())],
            fns::Point1::Div(a, b) => seq![PointRef::P1(a.index()), PointRef::P1(b.index())],
            fns::Point1::Dot2(a, b) => seq![PointRef::P2(a.index()), PointRef::P2(b.index())],
            fns::Point1::Dot3(a, b) => seq![PointRef::P3(a.index()), PointRef::P3(b.index())],
            fns::Point1::Dot4(a, b) => seq![PointRef::P4(a.index()), PointRef::P4(b.index())],
            fns::Point1::Cross(a, b) => seq![PointRef::P2(a.index()), PointRef::P2(b.index())],
            fns::Point1::Abs(a) => seq![PointRef::P1(a.index())],
            fns::Point1::Len2(a) => seq![PointRef::P2(a.index())],
            fns::Point1::Len3(a) => seq![PointRef::P3(a.index())],
            fns::Point1::Len4(a) => seq![PointRef::P4(a.index())],
            fns::Point1::Neg(a) => seq![PointRef::P1(a.index())],
            fns::Point1::Sign(a) => seq![PointRef::P1(a.index())],
            fns::Point1::Sin(a) => seq![PointRef::P1(a.index())],
            fns::Point1::Cos(a) => seq![PointRef::P1(a.index())],
            fns::Point1::Tan(a) => seq![PointRef::P1(a.index())],
            fns::Point1::Asin(a) => seq![PointRef::P1(a.index())],
            fns::Point1::Acos(a) => seq![PointRef::P1(a.index())],
            fns::Point1::Atan(a) => seq![PointRef::P1(a.index())],
            fns::Point1::Atan2(a, b) => seq![PointRef::P1(a.index()), PointRef::P1(b.index())],
            fns::Point1::Sinh(a) => seq![PointRef::P1(a.index())],
            fns::Point1::Cosh(a) => seq![PointRef::P1(a.index())],
            fns::Point1::Tanh(a) => seq![PointRef::P1(a.index())],
            fns::Point1::Asinh(a) => seq![PointRef::P1(a.index())],
            fns::Point1::Acosh(a) => seq![PointRef::P1(a.index())],
            fns::Point1::Atanh(a) => seq![PointRef::P1(a.index())],
            fns::Point1::Sqrt(a) => seq![PointRef::P1(a.index())],
            fns::Point1::Max(a, b) => seq![PointRef::P1(a.index()), PointRef::P1(b.index())],
            fns::Point1::Min(a, b) => seq![PointRef::P1(a.index()), PointRef::P1(b.index())],
            fns::Point1::DegToRad(a) => seq![PointRef::P1(a.index())],
            fns::Point1::RadToDeg(a) => seq![PointRef::P1(a.index())],
            fns::Point1::Time => Seq::empty(),
            fns::Point1::DeltaTime => Seq::empty(),
        }
    }

    fn point_refs(&self) -> (r: Vec<PointRef>) {
        match *self {
            fns::Point1::Data(_) => Vec::new(),
            fns::Point1::Time1(_, a) => vec![PointRef::P1(a.0)],
            fns::Point1::Time2(_, a) => vec![PointRef::P2(a.0)],
            fns::Point1::Sum(a, b) => vec![PointRef::P1(a.0), PointRef::P1(b.0)],
            fns::Point1::Diff(a, b) => vec![PointRef::P1(a.0), PointRef::P1(b.0)],
            fns::Point1::Prod(a, b) => vec![PointRef::P1(a.0), PointRef::P1(b.0)],
            fns::Point1::Div(a, b) => vec![PointRef::P1(a.0), PointRef::P1(b.0)],
            fns::Point1::Dot2(a, b) => vec![PointRef::P2(a.0), PointRef::P2(b.0)],
            fns::Point1::Dot3(a, b) => vec![PointRef::P3(a.0), PointRef::P3(b.0)],
            fns::Point1::Dot4(a, b) => vec![PointRef::P4(a.0), PointRef::P4(b.0)],
            fns::Point1::Cross(a, b) => vec![PointRef::P2(a.0), PointRef::P2(b.0)],
            fns::Point1::Abs(a) => vec![PointRef::P1(a.0)],
            fns::Point1::Len2(a) => vec![PointRef::P2(a.0)],
            fns::Point1::Len3(a) => vec![PointRef::P3(a.0)],
            fns::Point1::Len4(a) => vec![PointRef::P4(a.0)],
            fns::Point1::Neg(a) => vec![PointRef::P1(a.0)],
            fns::Point1::Sign(a) => vec![PointRef::P1(a.0)],
            fns::Point1::Sin(a) => vec![PointRef::P1(a.0)],
            fns::Point1::Cos(a) => vec![PointRef::P1(a.0)],
            fns::Point1::Tan(a) => vec![PointRef::P1(a.0)],
            fns::Point1::Asin(a) => vec![PointRef::P1(a.0)],
            fns::Point1::Acos(a) => vec![PointRef::P1(a.0)],
            fns::Point1::Atan(a) => vec![PointRef::P1(a.0)],
            fns::Point1::Atan2(a, b) => vec![PointRef::P1(a.0), PointRef::P1(b.0)],
            fns::Point1::Sinh(a) => vec![PointRef::P1(a.0)],
            fns::Point1::Cosh(a) => vec![PointRef::P1(a.0)],
            fns::Point1::Tanh(a) => vec![PointRef::P1(a.0)],
            fns::Point1::Asinh(a) => vec![PointRef::P1(a.0)],
            fns::Point1::Acosh(a) => vec![PointRef::P1(a.0)],
            fns::Point1::Atanh(a) => vec![PointRef::P1(a.0)],
            fns::Point1::Sqrt(a) => vec![PointRef::P1(a.0)],
            fns::Point1::Max(a, b) => vec![PointRef::P1(a.0), PointRef::P1(b.0)],
            fns::Point1::Min(a, b) => vec![PointRef::P1(a.0), PointRef::P1(b.0)],
            fns::Point1::DegToRad(a) => vec![PointRef::P1(a.0)],
            fns::Point1::RadToDeg(a) => vec![PointRef::P1(a.0)],
            fns::Point1::Time => Vec::new(),
            fns::Point1::DeltaTime => Vec::new(),
        }
    }
}

impl<T> PointRefs for fns::Point2<T> {
    open spec fn spec_point_refs(&self) -> Seq<PointRef> {
        match *self {
            fns::Point2::Data(_) => Seq::empty(),
            fns::Point2::Time1(_, a) => seq![PointRef::P1(a.index())],
            fns::Point2::Time2(_, a) => seq![PointRef::P2(a.index())],
            fns::Point2::Sum(a, b) => seq![PointRef::P2(a.index()), PointRef::P2(b.index())],
            fns::Point2::Prod(a, b) => seq![PointRef::P2(a.index()), PointRef::P2(b.index())],
            fns::Point2::Diff(a, b) => seq![PointRef::P2(a.index()), PointRef::P2(b.index())],
            fns::Point2::Max(a, b) => seq![PointRef::P2(a.index()), PointRef::P2(b.index())],
            fns::Point2::Min(a, b) => seq![PointRef::P2(a.index()), PointRef::P2(b.index())],
        }
    }

    fn point_refs(&self) -> (r: Vec<PointRef>) {
        match *self {
            fns::Point2::Data(_) => Vec::new(),
            fns::Point2::Time1(_, a) => vec![PointRef::P1(a.0)],
            fns::Point2::Time2(_, a) => vec![PointRef::P2(a.0)],
            fns::Point2::Sum(a, b) => vec![PointRef::P2(a.0), PointRef::P2(b.0)],
            fns::Point2::Prod(a, b) => vec![PointRef::P2(a.0), PointRef::P2(b.0)],
            fns::Point2::Diff(a, b) => vec![PointRef::P2(a.0), PointRef::P2(b.0)],
            fns::Point2::Max(a, b) => vec![PointRef::P2(a.0), PointRef::P2(b.0)],
            fns::Point2::Min(a, b) => vec![PointRef::P2(a.0), PointRef::P2(b.0)],
        }
    }
}

impl<T> PointRefs for fns::Point3<T> {
    open spec fn spec_point_refs(&self) -> Seq<PointRef> {
        match *self {
            fns::Point3::Data(_) => Seq::empty(),
            fns::Point3::Time1(_, a) => seq![PointRef::P1(a.index())],
            fns::Point3::Time2(_, a) => seq![PointRef::P2(a.index())],
            fns::Point3::Sum(a, b) => seq![PointRef::P3(a.index()), PointRef::P3(b.index())],
            fns::Point3::Prod(a, b) => seq![PointRef::P3(a.index()), PointRef::P3(b.index())],
            fns::Point3::Diff(a, b) => seq![PointRef::P3(a.index()), PointRef::P3(b.index())],
            fns::Point3::Cross(a, b) => seq![PointRef::P3(a.index()), PointRef::P3(b.index())],
            fns::Point3::Max(a, b) => seq![PointRef::P3(a.index()), PointRef::P3(b.index())],
            fns::Point3::Min(a, b) => seq![PointRef::P3(a.index()), PointRef::P3(b.index())],
        }
    }

    fn point_refs(&self) -> (r: Vec<PointRef>) {
        match *self {
            fns::Point3::Data(_) => Vec::new(),
            fns::Point3::Time1(_, a) => vec![PointRef::P1(a.0)],
            fns::Point3::Time2(_, a) => vec![PointRef::P2(a.0)],
            fns::Point3::Sum(a, b) => vec![PointRef::P3(a.0), PointRef::P3(b.0)],
            fns::Point3::Prod(a, b) => vec![PointRef::P3(a.0), PointRef::P3(b.0)],
            fns::Point3::Diff(a, b) => vec![PointRef::P3(a.0), PointRef::P3(b.0)],
            fns::Point3::Cross(a, b) => vec![PointRef::P3(a.0), PointRef::P3(b.0)],
            fns::Point3::Max(a, b) => vec![PointRef::P3(a.0), PointRef::P3(b.0)],
            fns::Point3::Min(a, b) => vec![PointRef::P3(a.0), PointRef::P3(b.0)],
        }
    }
}

impl<T> PointRefs for fns::Point4<T> {
    open spec fn spec_point_refs(&self) -> Seq<PointRef> {
        match *self {
            fns::Point4::Data(_) => Seq::empty(),
            fns::Point4::Time1(_, a) => seq![PointRef::P1(a.index())],
            fns::Point4::Time2(_, a) => seq![PointRef::P2(a.index())],
            fns::Point4::Sum(a, b) => seq![PointRef::P4(a.index()), PointRef::P4(b.index())],
            fns::Point4::Prod(a, b) => seq![PointRef::P4(a.index()), PointRef::P4(b.index())],
            fns::Point4::Diff(a, b) => seq![PointRef::P4(a.index()), PointRef::P4(b.index())],
            fns::Point4::Max(a, b) => seq![PointRef::P4(a.index()), PointRef::P4(b.index())],
            fns::Point4::Min(a, b) => seq![PointRef::P4(a.index()), PointRef::P4(b.index())],
        }
    }

    fn point_refs(&self) -> (r: Vec<PointRef>) {
        match *self {
            fns::Point4::Data(_) => Vec::new(),
            fns::Point4::Time1(_, a) => vec![PointRef::P1(a.0)],
            fns::Point4::Time2(_, a) => vec![PointRef::P2(a.0)],
            fns::Point4::Sum(a, b) => vec![PointRef::P4(a.0), PointRef::P4(b.0)],
            fns::Point4::Prod(a, b) => vec![PointRef::P4(a.0), PointRef::P4(b.0)],
            fns::Point4::Diff(a, b) => vec![PointRef::P4(a.0), PointRef::P4(b.0)],
            fns::Point4::Max(a, b) => vec![PointRef::P4(a.0), PointRef::P4(b.0)],
            fns::Point4::Min(a, b) => vec![PointRef::P4(a.0), PointRef::P4(b.0)],
        }
    }
}

impl<T> PointRefs for Spline1<T> {
    open spec fn spec_point_refs(&self) -> Seq<PointRef> {
        match *self {
            fns::Spline::Line(a, b) => seq![PointRef::P1(a.index()), PointRef::P1(b.index())],
            fns::Spline::QuadraticBezier(a, b, c) => seq![PointRef::P1(a.index()), PointRef::P1(b.index()), PointRef::P1(c.index())],
            fns::Spline::CubicBezier(a, b, c, d) => seq![PointRef::P1(a.index()), PointRef::P1(b.index()), PointRef::P1(c.index()), PointRef::P1(d.index())],
            fns::Spline::Segment(_, a, b) => seq![PointRef::P1(a.index()), PointRef::P1(b.index())],
            fns::Spline::OnSurface(_, a, b) => seq![PointRef::P2(a.index()), PointRef::P2(b.index())],
            fns::Spline::Contour(_) => Seq::empty(),
        }
    }

    fn point_refs(&self) -> (r: Vec<PointRef>) {
        match *self {
            fns::Spline::Line(a, b) => vec![PointRef::P1(a.0), PointRef::P1(b.0)],
            fns::Spline::QuadraticBezier(a, b, c) => vec![PointRef::P1(a.0), PointRef::P1(b.0), PointRef::P1(c.0)],
            fns::Spline::CubicBezier(a, b, c, d) => vec![PointRef::P1(a.0), PointRef::P1(b.0), PointRef::P1(c.0), PointRef::P1(d.0)],
            fns::Spline::Segment(_, a, b) => vec![PointRef::P1(a.0), PointRef::P1(b.0)],
            fns::Spline::OnSurface(_, a, b) => vec![PointRef::P2(a.0), PointRef::P2(b.0)],
            fns::Spline::Contour(_) => Vec::new(),
        }
    }
}

impl<T> PointRefs for Spline2<T> {
    open spec fn spec_point_refs(&self) -> Seq<PointRef> {
        match *self {
            fns::Spline::Line(a, b) => seq![PointRef::P2(a.index()), PointRef::P2(b.index())],
            fns::Spline::QuadraticBezier(a, b, c) => seq![PointRef::P2(a.index()), PointRef::P2(b.index()), PointRef::P2(c.index())],
            fns::Spline::CubicBezier(a, b, c, d) => seq![PointRef::P2(a.index()), PointRef::P2(b.index()), PointRef::P2(c.index()), PointRef::P2(d.index())],
            fns::Spline::Segment(_, a, b) => seq![PointRef::P1(a.index()), PointRef::P1(b.index())],
            fns::Spline::OnSurface(_, a, b) => seq![PointRef::P2(a.index()), PointRef::P2(b.index())],
            fns::Spline::Contour(_) => Seq::empty(),
        }
    }

    fn point_refs(&self) -> (r: Vec<PointRef>) {
        match *self {
            fns::Spline::Line(a, b) => vec![PointRef::P2(a.0), PointRef::P2(b.0)],
            fns::Spline::QuadraticBezier(a, b, c) => vec![PointRef::P2(a.0), PointRef::P2(b.0), PointRef::P2(c.0)],
            fns::Spline::CubicBezier(a, b, c, d) => vec![PointRef::P2(a.0), PointRef::P2(b.0), PointRef::P2(c.0), PointRef::P2(d.0)],
            fns::Spline::Segment(_, a, b) => vec![PointRef::P1(a.0), PointRef::P1(b.0)],
            fns::Spline::OnSurface(_, a, b) => vec![PointRef::P2(a.0), PointRef::P2(b.0)],
            fns::Spline::Contour(_) => Vec::new(),
        }
    }
}

impl<T> PointRefs for Spline3<T> {
    open spec fn spec_point_refs(&self) -> Seq<PointRef> {
        match *self {
            fns::Spline::Line(a, b) => seq![PointRef::P3(a.index()), PointRef::P3(b.index())],
            fns::Spline::QuadraticBezier(a, b, c) => seq![PointRef::P3(a.index()), PointRef::P3(b.index()), PointRef::P3(c.index())],
            fns::Spline::CubicBezier(a, b, c, d) => seq![PointRef::P3(a.index()), PointRef::P3(b.index()), PointRef::P3(c.index()), PointRef::P3(d.index())],
            fns::Spline::Segment(_, a, b) => seq![PointRef::P1(a.index()), PointRef::P1(b.index())],
            fns::Spline::OnSurface(_, a, b) => seq![PointRef::P2(a.index()), PointRef::P2(b.index())],
            fns::Spline::Contour(_) => Seq::empty(),
        }
    }

    fn point_refs(&self) -> (r: Vec<PointRef>) {
        match *self {
            fns::Spline::Line(a, b) => vec![PointRef::P3(a.0), PointRef::P3(b.0)],
            fns::Spline::QuadraticBezier(a, b, c) => vec![PointRef::P3(a.0), PointRef::P3(b.0), PointRef::P3(c.0)],
            fns::Spline::CubicBezier(a, b, c, d) => vec![PointRef::P3(a.0), PointRef::P3(b.0), PointRef::P3(c.0), PointRef::P3(d.0)],
            fns::Spline::Segment(_, a, b) => vec![PointRef::P1(a.0), PointRef::P1(b.0)],
            fns::Spline::OnSurface(_, a, b) => vec![PointRef::P2(a.0), PointRef::P2(b.0)],
            fns::Spline::Contour(_) => Vec::new(),
        }
    }
}

impl<T> PointRefs for Spline4<T> {
    open spec fn spec_point_refs(&self) -> Seq<PointRef> {
        match *self {
            fns::Spline::Line(a, b) => seq![PointRef::P4(a.index()), PointRef::P4(b.index())],
            fns::Spline::QuadraticBezier(a, b, c) => seq![PointRef::P4(a.index()), PointRef::P4(b.index()), PointRef::P4(c.index())],
            fns::Spline::CubicBezier(a, b, c, d) => seq![PointRef::P4(a.index()), PointRef::P4(b.index()), PointRef::P4(c.index()), PointRef::P4(d.index())],
            fns::Spline::Segment(_, a, b) => seq![PointRef::P1(a.index()), PointRef::P1(b.index())],
            fns::Spline::OnSurface(_, a, b) => seq![PointRef::P2(a.index()), PointRef::P2(b.index())],
            fns::Spline::Contour(_) => Seq::empty(),
        }
    }

    fn point_refs(&self) -> (r: Vec<PointRef>) {
        match *self {
            fns::Spline::Line(a, b) => vec![PointRef::P4(a.0), PointRef::P4(b.0)],
            fns::Spline::QuadraticBezier(a, b, c) => vec![PointRef::P4(a.0), PointRef::P4(b.0), PointRef::P4(c.0)],
            fns::Spline::CubicBezier(a, b, c, d) => vec![PointRef::P4(a.0), PointRef::P4(b.0), PointRef::P4(c.0), PointRef::P4(d.0)],
            fns::Spline::Segment(_, a, b) => vec![PointRef::P1(a.0), PointRef::P1(b.0)],
            fns::Spline::OnSurface(_, a, b) => vec![PointRef::P2(a.0), PointRef::P2(b.0)],
            fns::Spline::Contour(_) => Vec::new(),
        }
    }
}

impl<T> PointRefs for Surface1<T> {
    open spec fn spec_point_refs(&self) -> Seq<PointRef> {
        match *self {
            fns::Surface::Rect(rect) => seq![PointRef::P1(rect[0].index()), PointRef::P1(rect[1].index()), PointRef::P1(rect[2].index()), PointRef::P1(rect[3].index())],
            fns::Surface::Lerp(_, _) => Seq::empty(),
            fns::Surface::CurvedQuad { smooth, .. } => seq![PointRef::P1(smooth.index())],
            fns::Surface::Circle(center, radius) => seq![PointRef::P1(center.index()), PointRef::P1(radius.index())],
        }
    }

    fn point_refs(&self) -> (r: Vec<PointRef>) {
        match *self {
            fns::Surface::Rect(rect) => vec![PointRef::P1(rect[0].0), PointRef::P1(rect[1].0), PointRef::P1(rect[2].0), PointRef::P1(rect[3].0)],
            fns::Surface::Lerp(_, _) => Vec::new(),
            fns::Surface::CurvedQuad { smooth, .. } => vec![PointRef::P1(smooth.0)],
            fns::Surface::Circle(center, radius) => vec![PointRef::P1(center.0), PointRef::P1(radius.0)],
        }
    }
}

impl<T> PointRefs for Surface2<T> {
    open spec fn spec_point_refs(&self) -> Seq<PointRef> {
        match *self {
            fns::Surface::Rect(rect) => seq![PointRef::P2(rect[0].index()), PointRef::P2(rect[1].index()), PointRef::P2(rect[2].index()), PointRef::P2(rect[3].index())],
            fns::Surface::Lerp(_, _) => Seq::empty(),
            fns::Surface::CurvedQuad { smooth, .. } => seq![PointRef::P1(smooth.index())],
            fns::Surface::Circle(center, radius) => seq![PointRef::P2(center.index()), PointRef::P1(radius.index())],
        }
    }

    fn point_refs(&self) -> (r: Vec<PointRef>) {
        match *self {
            fns::Surface::Rect(rect) => vec![PointRef::P2(rect[0].0), PointRef::P2(rect[1].0), PointRef::P2(rect[2].0), PointRef::P2(rect[3].0)],
            fns::Surface::Lerp(_, _) => Vec::new(),
            fns::Surface::CurvedQuad { smooth, .. } => vec![PointRef::P1(smooth.0)],
            fns::Surface::Circle(center, radius) => vec![PointRef::P2(center.0), PointRef::P1(radius.0)],
        }
    }
}

impl<T> PointRefs for Surface3<T> {
    open spec fn spec_point_refs(&self) -> Seq<PointRef> {
        match *self {
            fns::Surface::Rect(rect) => seq![PointRef::P3(rect[0].index()), PointRef::P3(rect[1].index()), PointRef::P3(rect[2].index()), PointRef::P3(rect[3].index())],
            fns::Surface::Lerp(_, _) => Seq::empty(),
            fns::Surface::CurvedQuad { smooth, .. } => seq![PointRef::P1(smooth.index())],
            fns::Surface::Circle(center, radius) => seq![PointRef::P3(center.index()), PointRef::P1(radius.index())],
        }
    }

    fn point_refs(&self) -> (r: Vec<PointRef>) {
        match *self {
            fns::Surface::Rect(rect) => vec![PointRef::P3(rect[0].0), PointRef::P3(rect[1].0), PointRef::P3(rect[2].0), PointRef::P3(rect[3].0)],
            fns::Surface::Lerp(_, _) => Vec::new(),
            fns::Surface::CurvedQuad { smooth, .. } => vec![PointRef::P1(smooth.0)],
            fns::Surface::Circle(center, radius) => vec![PointRef::P3(center.0), PointRef::P1(radius.0)],
        }
    }
}

impl<T> PointRefs for Surface4<T> {
    open spec fn spec_point_refs(&self) -> Seq<PointRef> {
        match *self {
            fns::Surface::Rect(rect) => seq![PointRef::P4(rect[0].index()), PointRef::P4(rect[1].index()), PointRef::P4(rect[2].index()), PointRef::P4(rect[3].index())],
            fns::Surface::Lerp(_, _) => Seq::empty(),
            fns::Surface::CurvedQuad { smooth, .. } => seq![PointRef::P1(smooth.index())],
            fns::Surface::Circle(center, radius) => seq![PointRef::P4(center.index()), PointRef::P1(radius.index())],
        }
    }

    fn point_refs(&self) -> (r: Vec<PointRef>) {
        match *self {
            fns::Surface::Rect(rect) => vec![PointRef::P4(rect[0].0), PointRef::P4(rect[1].0), PointRef::P4(rect[2].0), PointRef::P4(rect[3].0)],
            fns::Surface::Lerp(_, _) => Vec::new(),
            fns::Surface::CurvedQuad { smooth, .. } => vec![PointRef::P1(smooth.0)],
            fns::Surface::Circle(center, radius) => vec![PointRef::P4(center.0), PointRef::P1(radius.0)],
        }
    }
}

impl<T> PointRefs for fns::Color<T> {
    open spec fn spec_point_refs(&self) -> Seq<PointRef> {
        match *self {
            fns::Color::Data(_) => Seq::empty(),
            fns::Color::Time1(_, a) => seq![PointRef::P1(a.index())],
        }
    }

    fn point_refs(&self) -> (r: Vec<PointRef>) {
        match *self {
            fns::Color::Data(_) => Vec::new(),
            fns::Color::Time1(_, a) => vec![PointRef::P1(a.0)],
        }
    }
}


/// Counts references to point nodes, one counter per node.
pub struct RefCount {
    points1: Vec<u32>,
    points2: Vec<u32>,
    points3: Vec<u32>,
    points4: Vec<u32>,
}

impl View for RefCount {
    type V = (Seq<u32>, Seq<u32>, Seq<u32>, Seq<u32>);

    /// The counters for scalars, 2D, 3D and 4D points.
    closed spec fn view(&self) -> (Seq<u32>, Seq<u32>, Seq<u32>, Seq<u32>) {
        (self.points1@, self.points2@, self.points3@, self.points4@)
    }
}

impl RefCount {
    /// Whether there is a counter for the node that `q` names.
    spec fn has(&self, q: PointRef) -> bool {
        match q {
            PointRef::P1(i) => i < self.points1@.len(),
            PointRef::P2(i) => i < self.points2@.len(),
            PointRef::P3(i) => i < self.points3@.len(),
            PointRef::P4(i) => i < self.points4@.len(),
        }
    }

    /// The counter for the node that `q` names.
    spec fn count(&self, q: PointRef) -> int {
        match q {
            PointRef::P1(i) => self.points1@[i as int] as int,
            PointRef::P2(i) => self.points2@[i as int] as int,
            PointRef::P3(i) => self.points3@[i as int] as int,
            PointRef::P4(i) => self.points4@[i as int] as int,
        }
    }

    spec fn same_shape(&self, other: &RefCount) -> bool {
        &&& self.points1@.len() == other.points1@.len()
        &&& self.points2@.len() == other.points2@.len()
        &&& self.points3@.len() == other.points3@.len()
        &&& self.points4@.len() == other.points4@.len()
    }

    /// Every counter holds the number of times its node occurs in `s`.
    spec fn counts_match(&self, s: Seq<PointRef>) -> bool {
        forall|q: PointRef| self.has(q) ==> #[trigger] self.count(q) == occurrences(s, q)
    }

    fn inc(&mut self, q: PointRef)
        requires
            old(self).has(q),
            old(self).count(q) < u32::MAX,
        ensures
            final(self).same_shape(old(self)),
            final(self).count(q) == old(self).count(q) + 1,
            forall|p: PointRef| #[trigger]
                final(self).has(p) && p != q ==> final(self).count(p) == old(self).count(p),
    {
        match q {
            PointRef::P1(i) => {
                let v = self.points1[i] + 1;
                self.points1.set(i, v);
            },
            PointRef::P2(i) => {
                let v = self.points2[i] + 1;
                self.points2.set(i, v);
            },
            PointRef::P3(i) => {
                let v = self.points3[i] + 1;
                self.points3.set(i, v);
            },
            PointRef::P4(i) => {
                let v = self.points4[i] + 1;
                self.points4.set(i, v);
            },
        }
    }

    /// Counts how many times each point node is referenced in a document.
    pub fn new<T>(doc: &Reactor<T>) -> (r: RefCount) where T: Copy
        requires
            refs_in_doc(doc@),
            forall|q: PointRef| occurrences(doc_refs(doc@), q) <= u32::MAX,
        ensures
            r@.0.len() == doc@.points1.len(),
            r@.1.len() == doc@.points2.len(),
            r@.2.len() == doc@.points3.len(),
            r@.3.len() == doc@.points4.len(),
            forall|i: int| 0 <= i < r@.0.len() ==> #[trigger] r@.0[i] == occurrences(doc_refs(doc@), PointRef::P1(i as usize)),
            forall|i: int| 0 <= i < r@.1.len() ==> #[trigger] r@.1[i] == occurrences(doc_refs(doc@), PointRef::P2(i as usize)),
            forall|i: int| 0 <= i < r@.2.len() ==> #[trigger] r@.2[i] == occurrences(doc_refs(doc@), PointRef::P3(i as usize)),
            forall|i: int| 0 <= i < r@.3.len() ==> #[trigger] r@.3[i] == occurrences(doc_refs(doc@), PointRef::P4(i as usize)),
    {
        let mut rc = RefCount {
            points1: vec![0; doc.points1.len()],
            points2: vec![0; doc.points2.len()],
            points3: vec![0; doc.points3.len()],
            points4: vec![0; doc.points4.len()],
        };
        let ghost total = doc_refs(doc@);
        assert(rc.counts_match(Seq::empty()));
        assert forall|i: int| 0 <= i < total.len() implies rc.has(#[trigger] total[i]) by {
            assert(ref_in_doc(doc@, total[i]));
        }
        proof {
            lemma_doc_refs_upto_prefix(doc@, 1);
            assert(doc_refs_upto(doc@, 1) == doc_refs_upto(doc@, 0) + refs_of(doc@.bools));
        }
        count_all(&mut rc, &doc.bools, Ghost(doc_refs_upto(doc@, 0)), Ghost(total));
        proof {
            lemma_doc_refs_upto_prefix(doc@, 2);
            assert(doc_refs_upto(doc@, 2) == doc_refs_upto(doc@, 1) + refs_of(doc@.points1));
        }
        count_all(&mut rc, &doc.points1, Ghost(doc_refs_upto(doc@, 1)), Ghost(total));
        proof {
            lemma_doc_refs_upto_prefix(doc@, 3);
            assert(doc_refs_upto(doc@, 3) == doc_refs_upto(doc@, 2) + refs_of(doc@.points2));
        }
        count_all(&mut rc, &doc.points2, Ghost(doc_refs_upto(doc@, 2)), Ghost(total));
        proof {
            lemma_doc_refs_upto_prefix(doc@, 4);
            assert(doc_refs_upto(doc@, 4) == doc_refs_upto(doc@, 3) + refs_of(doc@.points3));
        }
        count_all(&mut rc, &doc.points3, Ghost(doc_refs_upto(doc@, 3)), Ghost(total));
        proof {
            lemma_doc_refs_upto_prefix(doc@, 5);
            assert(doc_refs_upto(doc@, 5) == doc_refs_upto(doc@, 4) + refs_of(doc@.points4));
        }
        count_all(&mut rc, &doc.points4, Ghost(doc_refs_upto(doc@, 4)), Ghost(total));
        proof {
            lemma_doc_refs_upto_prefix(doc@, 6);
            assert(doc_refs_upto(doc@, 6) == doc_refs_upto(doc@, 5) + refs_of(doc@.splines1));
        }
        count_all(&mut rc, &doc.splines1, Ghost(doc_refs_upto(doc@, 5)), Ghost(total));
        proof {
            lemma_doc_refs_upto_prefix(doc@, 7);
            assert(doc_refs_upto(doc@, 7) == doc_refs_upto(doc@, 6) + refs_of(doc@.splines2));
        }
        count_all(&mut rc, &doc.splines2, Ghost(doc_refs_upto(doc@, 6)), Ghost(total));
        proof {
            lemma_doc_refs_upto_prefix(doc@, 8);
            assert(doc_refs_upto(doc@, 8) == doc_refs_upto(doc@, 7) + refs_of(doc@.splines3));
        }
        count_all(&mut rc, &doc.splines3, Ghost(doc_refs_upto(doc@, 7)), Ghost(total));
        proof {
            lemma_doc_refs_upto_prefix(doc@, 9);
            assert(doc_refs_upto(doc@, 9) == doc_refs_upto(doc@, 8) + refs_of(doc@.splines4));
        }
        count_all(&mut rc, &doc.splines4, Ghost(doc_refs_upto(doc@, 8)), Ghost(total));
        proof {
            lemma_doc_refs_upto_prefix(doc@, 10);
            assert(doc_refs_upto(doc@, 10) == doc_refs_upto(doc@, 9) + refs_of(doc@.surfaces1));
        }
        count_all(&mut rc, &doc.surfaces1, Ghost(doc_refs_upto(doc@, 9)), Ghost(total));
        proof {
            lemma_doc_refs_upto_prefix(doc@, 11);
            assert(doc_refs_upto(doc@, 11) == doc_refs_upto(doc@, 10) + refs_of(doc@.surfaces2));
        }
        count_all(&mut rc, &doc.surfaces2, Ghost(doc_refs_upto(doc@, 10)), Ghost(total));
        proof {
            lemma_doc_refs_upto_prefix(doc@, 12);
            assert(doc_refs_upto(doc@, 12) == doc_refs_upto(doc@, 11) + refs_of(doc@.surfaces3));
        }
        count_all(&mut rc, &doc.surfaces3, Ghost(doc_refs_upto(doc@, 11)), Ghost(total));
        proof {
            lemma_doc_refs_upto_prefix(doc@, 13);
            assert(doc_refs_upto(doc@, 13) == doc_refs_upto(doc@, 12) + refs_of(doc@.surfaces4));
        }
        count_all(&mut rc, &doc.surfaces4, Ghost(doc_refs_upto(doc@, 12)), Ghost(total));
        proof {
            lemma_doc_refs_upto_prefix(doc@, 14);
            assert(doc_refs_upto(doc@, 14) == doc_refs_upto(doc@, 13) + refs_of(doc@.colors));
        }
        count_all(&mut rc, &doc.colors, Ghost(doc_refs_upto(doc@, 13)), Ghost(total));
        assert(doc_refs_upto(doc@, 14) == total);
        assert(rc.counts_match(total));
        assert forall|i: int| 0 <= i < rc@.0.len() implies #[trigger] rc@.0[i] == occurrences(total, PointRef::P1(i as usize)) by {
            assert(rc.has(PointRef::P1(i as usize)));
            assert(rc.count(PointRef::P1(i as usize)) == rc@.0[i]);
        }
        assert forall|i: int| 0 <= i < rc@.1.len() implies #[trigger] rc@.1[i] == occurrences(total, PointRef::P2(i as usize)) by {
            assert(rc.has(PointRef::P2(i as usize)));
            assert(rc.count(PointRef::P2(i as usize)) == rc@.1[i]);
        }
        assert forall|i: int| 0 <= i < rc@.2.len() implies #[trigger] rc@.2[i] == occurrences(total, PointRef::P3(i as usize)) by {
            assert(rc.has(PointRef::P3(i as usize)));
            assert(rc.count(PointRef::P3(i as usize)) == rc@.2[i]);
        }
        assert forall|i: int| 0 <= i < rc@.3.len() implies #[trigger] rc@.3[i] == occurrences(total, PointRef::P4(i as usize)) by {
            assert(rc.has(PointRef::P4(i as usize)));
            assert(rc.count(PointRef::P4(i as usize)) == rc@.3[i]);
        }
        rc
    }
}

/// Adds the point references of `nodes` to the counters.
fn count_all<N: PointRefs>(
    rc: &mut RefCount,
    nodes: &Vec<N>,
    Ghost(done): Ghost<Seq<PointRef>>,
    Ghost(total): Ghost<Seq<PointRef>>,
)
    requires
        old(rc).counts_match(done),
        (done + refs_of(nodes@)).is_prefix_of(total),
        forall|i: int| 0 <= i < total.len() ==> old(rc).has(#[trigger] total[i]),
        forall|q: PointRef| occurrences(total, q) <= u32::MAX,
    ensures
        final(rc).same_shape(old(rc)),
        final(rc).counts_match(done + refs_of(nodes@)),
{
    let n = nodes.len();
    let ghost rc0 = *rc;
    let mut j: usize = 0;
    assert(nodes@.take(0) =~= Seq::<N>::empty());
    assert(done + refs_of(nodes@.take(0)) =~= done);
    while j < n
        invariant
            n == nodes@.len(),
            0 <= j <= n,
            rc.same_shape(&rc0),
            rc.counts_match(done + refs_of(nodes@.take(j as int))),
            (done + refs_of(nodes@)).is_prefix_of(total),
            forall|i: int| 0 <= i < total.len() ==> rc0.has(#[trigger] total[i]),
            forall|q: PointRef| occurrences(total, q) <= u32::MAX,
        decreases n - j,
    {
        let refs = nodes[j].point_refs();
        let ghost base = done + refs_of(nodes@.take(j as int));
        proof {
            assert(nodes@.take(j + 1).drop_last() =~= nodes@.take(j as int));
            lemma_refs_of_prefix(nodes@, j + 1);
            lemma_prefix_append(done, refs_of(nodes@.take(j + 1)), refs_of(nodes@));
            assert(base + refs@ =~= done + refs_of(nodes@.take(j + 1)));
            lemma_prefix_trans(base + refs@, done + refs_of(nodes@), total);
        }
        let m = refs.len();
        let mut k: usize = 0;
        assert(base + refs@.take(0) =~= base);
        while k < m
            invariant
                m == refs@.len(),
                0 <= k <= m,
                rc.same_shape(&rc0),
                rc.counts_match(base + refs@.take(k as int)),
                (base + refs@).is_prefix_of(total),
                forall|i: int| 0 <= i < total.len() ==> rc0.has(#[trigger] total[i]),
                forall|q: PointRef| occurrences(total, q) <= u32::MAX,
            decreases m - k,
        {
            let q = refs[k];
            let ghost cur = base + refs@.take(k as int);
            let ghost next = base + refs@.take(k + 1);
            proof {
                assert(next =~= cur.push(q));
                assert(next.drop_last() =~= cur);
                assert(next.is_prefix_of(total)) by {
                    assert(next =~= (base + refs@).subrange(0, next.len() as int));
                }
                lemma_occurrences_prefix(total, next, q);
                assert(total[cur.len() as int] == q);
                assert(rc0.has(total[cur.len() as int]));
                assert(rc.has(q));
                assert(rc.count(q) == occurrences(cur, q));
            }
            let ghost before = *rc;
            rc.inc(q);
            proof {
                assert forall|p: PointRef| rc.has(p) implies #[trigger] rc.count(p) == occurrences(next, p) by {
                    assert(before.has(p));
                    assert(before.count(p) == occurrences(cur, p));
                    if p != q {
                        assert(rc.count(p) == before.count(p));
                    }
                }
            }
            k = k + 1;
        }
        assert(base + refs@.take(m as int) =~= done + refs_of(nodes@.take(j + 1)));
        j = j + 1;
    }
    assert(nodes@.take(n as int) =~= nodes@);
}

/// The references of a prefix of nodes form a prefix of all their references.
proof fn lemma_refs_of_prefix<N: PointRefs>(nodes: Seq<N>, j: int)
    requires
        0 <= j <= nodes.len(),
    ensures
        refs_of(nodes.take(j)).is_prefix_of(refs_of(nodes)),
    decreases nodes.len() - j,
{
    if j < nodes.len() {
        lemma_refs_of_prefix(nodes, j + 1);
        assert(nodes.take(j + 1).drop_last() =~= nodes.take(j));
        let a = refs_of(nodes.take(j));
        let b = refs_of(nodes.take(j + 1));
        assert(b =~= a + nodes[j].spec_point_refs());
    } else {
        assert(nodes.take(j) =~= nodes);
    }
}

/// Declares the FNV hasher to the verifier; values of it are opaque.
#[verifier::external_type_specification]
#[verifier::external_body]
pub struct ExFnvHasher(fnv::FnvHasher);

/// Declares the default hash builder to the verifier; values of it are opaque.
#[verifier::external_type_specification]
#[verifier::external_body]
#[verifier::reject_recursive_types(H)]
pub struct ExBuildHasherDefault<H>(std::hash::BuildHasherDefault<H>);

/// Calls `HashMap::insert` on a map with the FNV hash builder.
///
/// Claims that the map afterwards maps `k` to `v` and is unchanged otherwise,
/// which holds since the FNV hasher gives equal keys equal hashes. The value
/// that `insert` returns for a key that was present is dropped.
#[verifier::external_body]
fn fnv_insert<V>(m: &mut fnv::FnvHashMap<usize, V>, k: usize, v: V)
    ensures
        final(m)@ == old(m)@.insert(k, v),
{
    m.insert(k, v);
}

/// Calls `HashMap::keys` on a map with the FNV hash builder and collects the keys.
///
/// Claims that every key of the map is listed exactly once, in some order
/// that is left unsaid.
#[verifier::external_body]
fn fnv_keys<V>(m: &fnv::FnvHashMap<usize, V>) -> (r: Vec<usize>)
    ensures
        r@.no_duplicates(),
        r@.to_set() == m@.dom(),
{
    m.keys().copied().collect()
}

/// Sets every value of a map to `None`, keeping its keys.
fn reset_values<V>(m: &mut fnv::FnvHashMap<usize, Option<V>>)
    ensures
        final(m)@ == Map::new(|k: usize| old(m)@.dom().contains(k), |k: usize| None::<V>),
{
    let keys = fnv_keys(m);
    let ghost m0 = m@;
    let n = keys.len();
    let mut j: usize = 0;
    while j < n
        invariant
            n == keys@.len(),
            j <= n,
            keys@.to_set() == m0.dom(),
            m@.dom() == m0.dom(),
            forall|k: usize| keys@.take(j as int).contains(k) ==> #[trigger] m@[k] == None::<V>,
        decreases n - j,
    {
        let k = keys[j];
        proof {
            assert(keys@.contains(k));
            assert(keys@.to_set().contains(k));
        }
        fnv_insert(m, k, None);
        proof {
            assert forall|q: usize| keys@.take(j + 1).contains(q) implies #[trigger] m@[q] == None::<V> by {
                if q != k {
                    let t = choose|t: int| 0 <= t < j + 1 && #[trigger] keys@.take(j + 1)[t] == q;
                    assert(keys@.take(j as int)[t] == q);
                }
            }
            assert(m@.dom() =~= m0.dom());
        }
        j = j + 1;
    }
    proof {
        assert(keys@.take(n as int) =~= keys@);
        assert forall|k: usize| m@.dom().contains(k) implies #[trigger] m@[k] == None::<V> by {
            assert(keys@.to_set().contains(k));
        }
    }
    assert(m@ =~= Map::new(|k: usize| m0.dom().contains(k), |k: usize| None::<V>));
}

/// Whether the scalar at position `i` is computed by a function and referenced
/// more than once.
pub open spec fn shared1<T>(d: ReactorModel<T>, i: usize) -> bool {
    &&& i < d.points1.len()
    &&& occurrences(doc_refs(d), PointRef::P1(i)) > 1
    &&& !(d.points1[i as int] is Data)
}

/// Whether the 2D point at position `i` is computed by a function and referenced
/// more than once.
pub open spec fn shared2<T>(d: ReactorModel<T>, i: usize) -> bool {
    &&& i < d.points2.len()
    &&& occurrences(doc_refs(d), PointRef::P2(i)) > 1
    &&& !(d.points2[i as int] is Data)
}

/// Whether the 3D point at position `i` is computed by a function and referenced
/// more than once.
pub open spec fn shared3<T>(d: ReactorModel<T>, i: usize) -> bool {
    &&& i < d.points3.len()
    &&& occurrences(doc_refs(d), PointRef::P3(i)) > 1
    &&& !(d.points3[i as int] is Data)
}

/// Whether the 4D point at position `i` is computed by a function and referenced
/// more than once.
pub open spec fn shared4<T>(d: ReactorModel<T>, i: usize) -> bool {
    &&& i < d.points4.len()
    &&& occurrences(doc_refs(d), PointRef::P4(i)) > 1
    &&& !(d.points4[i as int] is Data)
}

/// Used to store temporary values of shared functions to speed up computation.
/// By default, all function outputs that are referenced more than once are cached.
/// To signal that some function output should be cached, `None` is stored in a hash map.
/// When performing the first computation of that output, `Some(value)` is stored in the cache.
pub struct Cache<T> {
    /// Stores temporary values of scalars.
    pub points1: fnv::FnvHashMap<usize, Option<T>>,
    /// Stores temporary values of 2D vectors.
    pub points2: fnv::FnvHashMap<usize, Option<[T; 2]>>,
    /// Stores temporary values of 3D vectors.
    pub points3: fnv::FnvHashMap<usize, Option<[T; 3]>>,
    /// Stores temporary values of 4D vectors.
    pub points4: fnv::FnvHashMap<usize, Option<[T; 4]>>,
}

impl<T> Cache<T> {
    /// Whether this cache is the one made for document `d`: each table marks, with
    /// `None`, the shared points of its own dimension, and nothing else.
    pub open spec fn made_for(&self, d: ReactorModel<T>) -> bool {
        &&& self.points1@ == Map::new(|k: usize| shared1(d, k), |k: usize| None::<T>)
        &&& self.points2@ == Map::new(|k: usize| shared2(d, k), |k: usize| None::<[T; 2]>)
        &&& self.points3@ == Map::new(|k: usize| shared3(d, k), |k: usize| None::<[T; 3]>)
        &&& self.points4@ == Map::new(|k: usize| shared4(d, k), |k: usize| None::<[T; 4]>)
    }

    /// Whether this cache has the keys of `before`, each with no value.
    pub open spec fn cleared_from(&self, before: Cache<T>) -> bool {
        &&& self.points1@ == Map::new(|k: usize| before.points1@.dom().contains(k), |k: usize| None::<T>)
        &&& self.points2@ == Map::new(|k: usize| before.points2@.dom().contains(k), |k: usize| None::<[T; 2]>)
        &&& self.points3@ == Map::new(|k: usize| before.points3@.dom().contains(k), |k: usize| None::<[T; 3]>)
        &&& self.points4@ == Map::new(|k: usize| before.points4@.dom().contains(k), |k: usize| None::<[T; 4]>)
    }

    /// Creates a new cache for a document.
    ///
    /// Analyzes the graph to find function outputs that are referenced more than once.
    ///
    /// If new data and functions are added after the cache is created,
    /// then these will not be automatically cached, but the behavior should be the same.
    pub fn new(doc: &Reactor<T>) -> (r: Cache<T>) where T: Copy
        requires
            refs_in_doc(doc@),
            forall|q: PointRef| occurrences(doc_refs(doc@), q) <= u32::MAX,
        ensures
            r.made_for(doc@),
    {
        let mut cache = Cache {
            points1: std::collections::HashMap::default(),
            points2: std::collections::HashMap::default(),
            points3: std::collections::HashMap::default(),
            points4: std::collections::HashMap::default(),
        };
        let ref_count = RefCount::new(doc);
        let ghost d = doc@;

        // Add all variables that are an output of a function and used more than once.
        let n1 = ref_count.points1.len();
        let mut i: usize = 0;
        assert(cache.points1@ =~= Map::new(|k: usize| k < 0 && shared1(d, k), |k: usize| None::<T>));
        while i < n1
            invariant
                d == doc@,
                n1 == d.points1.len(),
                ref_count.points1@.len() == n1,
                forall|j: int| 0 <= j < n1 ==> #[trigger] ref_count.points1@[j] == occurrences(doc_refs(d), PointRef::P1(j as usize)),
                i <= n1,
                cache.points1@ == Map::new(|k: usize| k < i && shared1(d, k), |k: usize| None::<T>),
                cache.points2@ == Map::<usize, Option<[T; 2]>>::empty(),
                cache.points3@ == Map::<usize, Option<[T; 3]>>::empty(),
                cache.points4@ == Map::<usize, Option<[T; 4]>>::empty(),
            decreases n1 - i,
        {
            let add = match doc.points1[i] {
                fns::Point1::Data(_) => false,
                _ => true,
            };
            if ref_count.points1[i] > 1 && add {
                fnv_insert(&mut cache.points1, i, None);
            }
            proof {
                assert(ref_count.points1@[i as int] == occurrences(doc_refs(d), PointRef::P1(i)));
            }
            assert(cache.points1@ =~= Map::new(|k: usize| k < i + 1 && shared1(d, k), |k: usize| None::<T>));
            i = i + 1;
        }
        assert(cache.points1@ =~= Map::new(|k: usize| shared1(d, k), |k: usize| None::<T>));
        let n2 = ref_count.points2.len();
        let mut i: usize = 0;
        assert(cache.points2@ =~= Map::new(|k: usize| k < 0 && shared2(d, k), |k: usize| None::<[T; 2]>));
        while i < n2
            invariant
                d == doc@,
                n2 == d.points2.len(),
                ref_count.points2@.len() == n2,
                forall|j: int| 0 <= j < n2 ==> #[trigger] ref_count.points2@[j] == occurrences(doc_refs(d), PointRef::P2(j as usize)),
                i <= n2,
                cache.points2@ == Map::new(|k: usize| k < i && shared2(d, k), |k: usize| None::<[T; 2]>),
                cache.points1@ == Map::new(|k: usize| shared1(d, k), |k: usize| None::<T>),
                cache.points3@ == Map::<usize, Option<[T; 3]>>::empty(),
                cache.points4@ == Map::<usize, Option<[T; 4]>>::empty(),
            decreases n2 - i,
        {
            let add = match doc.points2[i] {
                fns::Point2::Data(_) => false,
                _ => true,
            };
            if ref_count.points2[i] > 1 && add {
                fnv_insert(&mut cache.points2, i, None);
            }
            proof {
                assert(ref_count.points2@[i as int] == occurrences(doc_refs(d), PointRef::P2(i)));
            }
            assert(cache.points2@ =~= Map::new(|k: usize| k < i + 1 && shared2(d, k), |k: usize| None::<[T; 2]>));
            i = i + 1;
        }
        assert(cache.points2@ =~= Map::new(|k: usize| shared2(d, k), |k: usize| None::<[T; 2]>));
        let n3 = ref_count.points3.len();
        let mut i: usize = 0;
        assert(cache.points3@ =~= Map::new(|k: usize| k < 0 && shared3(d, k), |k: usize| None::<[T; 3]>));
        while i < n3
            invariant
                d == doc@,
                n3 == d.points3.len(),
                ref_count.points3@.len() == n3,
                forall|j: int| 0 <= j < n3 ==> #[trigger] ref_count.points3@[j] == occurrences(doc_refs(d), PointRef::P3(j as usize)),
                i <= n3,
                cache.points3@ == Map::new(|k: usize| k < i && shared3(d, k), |k: usize| None::<[T; 3]>),
                cache.points1@ == Map::new(|k: usize| shared1(d, k), |k: usize| None::<T>),
                cache.points2@ == Map::new(|k: usize| shared2(d, k), |k: usize| None::<[T; 2]>),
                cache.points4@ == Map::<usize, Option<[T; 4]>>::empty(),
            decreases n3 - i,
        {
            let add = match doc.points3[i] {
                fns::Point3::Data(_) => false,
                _ => true,
            };
            if ref_count.points3[i] > 1 && add {
                fnv_insert(&mut cache.points3, i, None);
            }
            proof {
                assert(ref_count.points3@[i as int] == occurrences(doc_refs(d), PointRef::P3(i)));
            }
            assert(cache.points3@ =~= Map::new(|k: usize| k < i + 1 && shared3(d, k), |k: usize| None::<[T; 3]>));
            i = i + 1;
        }
        assert(cache.points3@ =~= Map::new(|k: usize| shared3(d, k), |k: usize| None::<[T; 3]>));
        let n4 = ref_count.points4.len();
        let mut i: usize = 0;
        assert(cache.points4@ =~= Map::new(|k: usize| k < 0 && shared4(d, k), |k: usize| None::<[T; 4]>));
        while i < n4
            invariant
                d == doc@,
                n4 == d.points4.len(),
                ref_count.points4@.len() == n4,
                forall|j: int| 0 <= j < n4 ==> #[trigger] ref_count.points4@[j] == occurrences(doc_refs(d), PointRef::P4(j as usize)),
                i <= n4,
                cache.points4@ == Map::new(|k: usize| k < i && shared4(d, k), |k: usize| None::<[T; 4]>),
                cache.points1@ == Map::new(|k: usize| shared1(d, k), |k: usize| None::<T>),
                cache.points2@ == Map::new(|k: usize| shared2(d, k), |k: usize| None::<[T; 2]>),
                cache.points3@ == Map::new(|k: usize| shared3(d, k), |k: usize| None::<[T; 3]>),
            decreases n4 - i,
        {
            let add = match doc.points4[i] {
                fns::Point4::Data(_) => false,
                _ => true,
            };
            if ref_count.points4[i] > 1 && add {
                fnv_insert(&mut cache.points4, i, None);
            }
            proof {
                assert(ref_count.points4@[i as int] == occurrences(doc_refs(d), PointRef::P4(i)));
            }
            assert(cache.points4@ =~= Map::new(|k: usize| k < i + 1 && shared4(d, k), |k: usize| None::<[T; 4]>));
            i = i + 1;
        }
        assert(cache.points4@ =~= Map::new(|k: usize| shared4(d, k), |k: usize| None::<[T; 4]>));
        cache
    }

    /// Reset cache such that new temporary values can be calculated.
    pub fn clear(&mut self)
        ensures
            final(self).cleared_from(*old(self)),
    {
        reset_values(&mut self.points1);
        reset_values(&mut self.points2);
        reset_values(&mut self.points3);
        reset_values(&mut self.points4);
    }
}


/// A cache made for a document marks, in the table of its own dimension, every
/// point that a function computes and that is referenced more than once, with no
/// value yet.
pub proof fn lemma_cache_marks_shared<T>(c: Cache<T>, d: ReactorModel<T>, i: usize)
    requires
        c.made_for(d),
    ensures
        shared1(d, i) ==> c.points1@.contains_key(i) && c.points1@[i] is None,
        shared2(d, i) ==> c.points2@.contains_key(i) && c.points2@[i] is None,
        shared3(d, i) ==> c.points3@.contains_key(i) && c.points3@[i] is None,
        shared4(d, i) ==> c.points4@.contains_key(i) && c.points4@[i] is None,
{
}

/// A cache made for a document marks no point that holds data or that is
/// referenced at most once.
pub proof fn lemma_cache_skips_unshared<T>(c: Cache<T>, d: ReactorModel<T>, i: usize)
    requires
        c.made_for(d),
    ensures
        i < d.points1.len() && (occurrences(doc_refs(d), PointRef::P1(i)) <= 1
            || d.points1[i as int] is Data) ==> !c.points1@.contains_key(i),
        i < d.points2.len() && (occurrences(doc_refs(d), PointRef::P2(i)) <= 1
            || d.points2[i as int] is Data) ==> !c.points2@.contains_key(i),
        i < d.points3.len() && (occurrences(doc_refs(d), PointRef::P3(i)) <= 1
            || d.points3[i as int] is Data) ==> !c.points3@.contains_key(i),
        i < d.points4.len() && (occurrences(doc_refs(d), PointRef::P4(i)) <= 1
            || d.points4[i as int] is Data) ==> !c.points4@.contains_key(i),
{
}

/// Clearing a cache keeps its keys and forgets its values, so clearing a cache
/// that is as it was made for a document leaves it as it was made.
pub proof fn lemma_clear_keeps_fresh_cache<T>(before: Cache<T>, after: Cache<T>, d: ReactorModel<T>)
    requires
        before.made_for(d),
        after.cleared_from(before),
    ensures
        after.made_for(d),
{
    assert(after.points1@ =~= before.points1@);
    assert(after.points2@ =~= before.points2@);
    assert(after.points3@ =~= before.points3@);
    assert(after.points4@ =~= before.points4@);
}

/// Clearing a cache a second time changes nothing more.
pub proof fn lemma_clear_twice<T>(c0: Cache<T>, c1: Cache<T>, c2: Cache<T>)
    requires
        c1.cleared_from(c0),
        c2.cleared_from(c1),
    ensures
        c2.points1@ == c1.points1@,
        c2.points2@ == c1.points2@,
        c2.points3@ == c1.points3@,
        c2.points4@ == c1.points4@,
{
    assert(c2.points1@ =~= c1.points1@);
    assert(c2.points2@ =~= c1.points2@);
    assert(c2.points3@ =~= c1.points3@);
    assert(c2.points4@ =~= c1.points4@);
}

/// A `Bool` node counts one reference for each pointer to a point among its
/// arguments, in the order of its arguments, and none for any other argument.
pub proof fn lemma_bool_refs<T>(n: fns::Bool<T>)
    ensures
        match n {
            fns::Bool::Data(_) => n.spec_point_refs() == Seq::<PointRef>::empty(),
            fns::Bool::Not(_) => n.spec_point_refs() == Seq::<PointRef>::empty(),
            fns::Bool::And(_, _) => n.spec_point_refs() == Seq::<PointRef>::empty(),
            fns::Bool::Or(_, _) => n.spec_point_refs() == Seq::<PointRef>::empty(),
            fns::Bool::Xor(_, _) => n.spec_point_refs() == Seq::<PointRef>::empty(),
            fns::Bool::EqBool(_, _) => n.spec_point_refs() == Seq::<PointRef>::empty(),
            fns::Bool::Eq1(a, b) => n.spec_point_refs() == seq![PointRef::P1(a.index()), PointRef::P1(b.index())],
            fns::Bool::Eq2(a, b) => n.spec_point_refs() == seq![PointRef::P2(a.index()), PointRef::P2(b.index())],
            fns::Bool::Eq3(a, b) => n.spec_point_refs() == seq![PointRef::P3(a.index()), PointRef::P3(b.index())],
            fns::Bool::Eq4(a, b) => n.spec_point_refs() == seq![PointRef::P4(a.index()), PointRef::P4(b.index())],
            fns::Bool::Less(a, b) => n.spec_point_refs() == seq![PointRef::P1(a.index()), PointRef::P1(b.index())],
            fns::Bool::GreaterOrEqual(a, b) => n.spec_point_refs() == seq![PointRef::P1(a.index()), PointRef::P1(b.index())],
        },
{
}

/// A `Point1` node counts one reference for each pointer to a point among its
/// arguments, in the order of its arguments, and none for any other argument.
pub proof fn lemma_point1_refs<T>(n: fns::Point1<T>)
    ensures
        match n {
            fns::Point1::Data(_) => n.spec_point_refs() == Seq::<PointRef>::empty(),
            fns::Point1::Time1(_, a) => n.spec_point_refs() == seq![PointRef::P1(a.index())],
            fns::Point1::Time2(_, a) => n.spec_point_refs() == seq![PointRef::P2(a.index())],
            fns::Point1::Sum(a, b) => n.spec_point_refs() == seq![PointRef::P1(a.index()), PointRef::P1(b.index())],
            fns::Point1::Diff(a, b) => n.spec_point_refs() == seq![PointRef::P1(a.index()), PointRef::P1(b.index())],
            fns::Point1::Prod(a, b) => n.spec_point_refs() == seq![PointRef::P1(a.index()), PointRef::P1(b.index())],
            fns::Point1::Div(a, b) => n.spec_point_refs() == seq![PointRef::P1(a.index()), PointRef::P1(b.index())],
            fns::Point1::Dot2(a, b) => n.spec_point_refs() == seq![PointRef::P2(a.index()), PointRef::P2(b.index())],
            fns::Point1::Dot3(a, b) => n.spec_point_refs() == seq![PointRef::P3(a.index()), PointRef::P3(b.index())],
            fns::Point1::Dot4(a, b) => n.spec_point_refs() == seq![PointRef::P4(a.index()), PointRef::P4(b.index())],
            fns::Point1::Cross(a, b) => n.spec_point_refs() == seq![PointRef::P2(a.index()), PointRef::P2(b.index())],
            fns::Point1::Abs(a) => n.spec_point_refs() == seq![PointRef::P1(a.index())],
            fns::Point1::Len2(a) => n.spec_point_refs() == seq![PointRef::P2(a.index())],
            fns::Point1::Len3(a) => n.spec_point_refs() == seq![PointRef::P3(a.index())],
            fns::Point1::Len4(a) => n.spec_point_refs() == seq![PointRef::P4(a.index())],
            fns::Point1::Neg(a) => n.spec_point_refs() == seq![PointRef::P1(a.index())],
            fns::Point1::Sign(a) => n.spec_point_refs() == seq![PointRef::P1(a.index())],
            fns::Point1::Sin(a) => n.spec_point_refs() == seq![PointRef::P1(a.index())],
            fns::Point1::Cos(a) => n.spec_point_refs() == seq![PointRef::P1(a.index())],
            fns::Point1::Tan(a) => n.spec_point_refs() == seq![PointRef::P1(a.index())],
            fns::Point1::Asin(a) => n.spec_point_refs() == seq![PointRef::P1(a.index())],
            fns::Point1::Acos(a) => n.spec_point_refs() == seq![PointRef::P1(a.index())],
            fns::Point1::Atan(a) => n.spec_point_refs() == seq![PointRef::P1(a.index())],
            fns::Point1::Atan2(a, b) => n.spec_point_refs() == seq![PointRef::P1(a.index()), PointRef::P1(b.index())],
            fns::Point1::Sinh(a) => n.spec_point_refs() == seq![PointRef::P1(a.index())],
            fns::Point1::Cosh(a) => n.spec_point_refs() == seq![PointRef::P1(a.index())],
            fns::Point1::Tanh(a) => n.spec_point_refs() == seq![PointRef::P1(a.index())],
            fns::Point1::Asinh(a) => n.spec_point_refs() == seq![PointRef::P1(a.index())],
            fns::Point1::Acosh(a) => n.spec_point_refs() == seq![PointRef::P1(a.index())],
            fns::Point1::Atanh(a) => n.spec_point_refs() == seq![PointRef::P1(a.index())],
            fns::Point1::Sqrt(a) => n.spec_point_refs() == seq![PointRef::P1(a.index())],
            fns::Point1::Max(a, b) => n.spec_point_refs() == seq![PointRef::P1(a.index()), PointRef::P1(b.index())],
            fns::Point1::Min(a, b) => n.spec_point_refs() == seq![PointRef::P1(a.index()), PointRef::P1(b.index())],
            fns::Point1::DegToRad(a) => n.spec_point_refs() == seq![PointRef::P1(a.index())],
            fns::Point1::RadToDeg(a) => n.spec_point_refs() == seq![PointRef::P1(a.index())],
            fns::Point1::Time => n.spec_point_refs() == Seq::<PointRef>::empty(),
            fns::Point1::DeltaTime => n.spec_point_refs() == Seq::<PointRef>::empty(),
        },
{
}

/// A `Point2` node counts one reference for each pointer to a point among its
/// arguments, in the order of its arguments, and none for any other argument.
pub proof fn lemma_point2_refs<T>(n: fns::Point2<T>)
    ensures
        match n {
            fns::Point2::Data(_) => n.spec_point_refs() == Seq::<PointRef>::empty(),
            fns::Point2::Time1(_, a) => n.spec_point_refs() == seq![PointRef::P1(a.index())],
            fns::Point2::Time2(_, a) => n.spec_point_refs() == seq![PointRef::P2(a.index())],
            fns::Point2::Sum(a, b) => n.spec_point_refs() == seq![PointRef::P2(a.index()), PointRef::P2(b.index())],
            fns::Point2::Prod(a, b) => n.spec_point_refs() == seq![PointRef::P2(a.index()), PointRef::P2(b.index())],
            fns::Point2::Diff(a, b) => n.spec_point_refs() == seq![PointRef::P2(a.index()), PointRef::P2(b.index())],
            fns::Point2::Max(a, b) => n.spec_point_refs() == seq![PointRef::P2(a.index()), PointRef::P2(b.index())],
            fns::Point2::Min(a, b) => n.spec_point_refs() == seq![PointRef::P2(a.index()), PointRef::P2(b.index())],
        },
{
}

/// A `Point3` node counts one reference for each pointer to a point among its
/// arguments, in the order of its arguments, and none for any other argument.
pub proof fn lemma_point3_refs<T>(n: fns::Point3<T>)
    ensures
        match n {
            fns::Point3::Data(_) => n.spec_point_refs() == Seq::<PointRef>::empty(),
            fns::Point3::Time1(_, a) => n.spec_point_refs() == seq![PointRef::P1(a.index())],
            fns::Point3::Time2(_, a) => n.spec_point_refs() == seq![PointRef::P2(a.index())],
            fns::Point3::Sum(a, b) => n.spec_point_refs() == seq![PointRef::P3(a.index()), PointRef::P3(b.index())],
            fns::Point3::Prod(a, b) => n.spec_point_refs() == seq![PointRef::P3(a.index()), PointRef::P3(b.index())],
            fns::Point3::Diff(a, b) => n.spec_point_refs() == seq![PointRef::P3(a.index()), PointRef::P3(b.index())],
            fns::Point3::Cross(a, b) => n.spec_point_refs() == seq![PointRef::P3(a.index()), PointRef::P3(b.index())],
            fns::Point3::Max(a, b) => n.spec_point_refs() == seq![PointRef::P3(a.index()), PointRef::P3(b.index())],
            fns::Point3::Min(a, b) => n.spec_point_refs() == seq![PointRef::P3(a.index()), PointRef::P3(b.index())],
        },
{
}

/// A `Point4` node counts one reference for each pointer to a point among its
/// arguments, in the order of its arguments, and none for any other argument.
pub proof fn lemma_point4_refs<T>(n: fns::Point4<T>)
    ensures
        match n {
            fns::Point4::Data(_) => n.spec_point_refs() == Seq::<PointRef>::empty(),
            fns::Point4::Time1(_, a) => n.spec_point_refs() == seq![PointRef::P1(a.index())],
            fns::Point4::Time2(_, a) => n.spec_point_refs() == seq![PointRef::P2(a.index())],
            fns::Point4::Sum(a, b) => n.spec_point_refs() == seq![PointRef::P4(a.index()), PointRef::P4(b.index())],
            fns::Point4::Prod(a, b) => n.spec_point_refs() == seq![PointRef::P4(a.index()), PointRef::P4(b.index())],
            fns::Point4::Diff(a, b) => n.spec_point_refs() == seq![PointRef::P4(a.index()), PointRef::P4(b.index())],
            fns::Point4::Max(a, b) => n.spec_point_refs() == seq![PointRef::P4(a.index()), PointRef::P4(b.index())],
            fns::Point4::Min(a, b) => n.spec_point_refs() == seq![PointRef::P4(a.index()), PointRef::P4(b.index())],
        },
{
}

/// A `Spline1` node counts one reference for each pointer to a point among its
/// arguments, in the order of its arguments, and none for any other argument.
pub proof fn lemma_spline1_refs<T>(n: Spline1<T>)
    ensures
        match n {
            fns::Spline::Line(a, b) => n.spec_point_refs() == seq![PointRef::P1(a.index()), PointRef::P1(b.index())],
            fns::Spline::QuadraticBezier(a, b, c) => n.spec_point_refs() == seq![PointRef::P1(a.index()), PointRef::P1(b.index()), PointRef::P1(c.index())],
            fns::Spline::CubicBezier(a, b, c, d) => n.spec_point_refs() == seq![PointRef::P1(a.index()), PointRef::P1(b.index()), PointRef::P1(c.index()), PointRef::P1(d.index())],
            fns::Spline::Segment(_, a, b) => n.spec_point_refs() == seq![PointRef::P1(a.index()), PointRef::P1(b.index())],
            fns::Spline::OnSurface(_, a, b) => n.spec_point_refs() == seq![PointRef::P2(a.index()), PointRef::P2(b.index())],
            fns::Spline::Contour(_) => n.spec_point_refs() == Seq::<PointRef>::empty(),
        },
{
}

/// A `Spline2` node counts one reference for each pointer to a point among its
/// arguments, in the order of its arguments, and none for any other argument.
pub proof fn lemma_spline2_refs<T>(n: Spline2<T>)
    ensures
        match n {
            fns::Spline::Line(a, b) => n.spec_point_refs() == seq![PointRef::P2(a.index()), PointRef::P2(b.index())],
            fns::Spline::QuadraticBezier(a, b, c) => n.spec_point_refs() == seq![PointRef::P2(a.index()), PointRef::P2(b.index()), PointRef::P2(c.index())],
            fns::Spline::CubicBezier(a, b, c, d) => n.spec_point_refs() == seq![PointRef::P2(a.index()), PointRef::P2(b.index()), PointRef::P2(c.index()), PointRef::P2(d.index())],
            fns::Spline::Segment(_, a, b) => n.spec_point_refs() == seq![PointRef::P1(a.index()), PointRef::P1(b.index())],
            fns::Spline::OnSurface(_, a, b) => n.spec_point_refs() == seq![PointRef::P2(a.index()), PointRef::P2(b.index())],
            fns::Spline::Contour(_) => n.spec_point_refs() == Seq::<PointRef>::empty(),
        },
{
}

/// A `Spline3` node counts one reference for each pointer to a point among its
/// arguments, in the order of its arguments, and none for any other argument.
pub proof fn lemma_spline3_refs<T>(n: Spline3<T>)
    ensures
        match n {
            fns::Spline::Line(a, b) => n.spec_point_refs() == seq![PointRef::P3(a.index()), PointRef::P3(b.index())],
            fns::Spline::QuadraticBezier(a, b, c) => n.spec_point_refs() == seq![PointRef::P3(a.index()), PointRef::P3(b.index()), PointRef::P3(c.index())],
            fns::Spline::CubicBezier(a, b, c, d) => n.spec_point_refs() == seq![PointRef::P3(a.index()), PointRef::P3(b.index()), PointRef::P3(c.index()), PointRef::P3(d.index())],
            fns::Spline::Segment(_, a, b) => n.spec_point_refs() == seq![PointRef::P1(a.index()), PointRef::P1(b.index())],
            fns::Spline::OnSurface(_, a, b) => n.spec_point_refs() == seq![PointRef::P2(a.index()), PointRef::P2(b.index())],
            fns::Spline::Contour(_) => n.spec_point_refs() == Seq::<PointRef>::empty(),
        },
{
}

/// A `Spline4` node counts one reference for each pointer to a point among its
/// arguments, in the order of its arguments, and none for any other argument.
pub proof fn lemma_spline4_refs<T>(n: Spline4<T>)
    ensures
        match n {
            fns::Spline::Line(a, b) => n.spec_point_refs() == seq![PointRef::P4(a.index()), PointRef::P4(b.index())],
            fns::Spline::QuadraticBezier(a, b, c) => n.spec_point_refs() == seq![PointRef::P4(a.index()), PointRef::P4(b.index()), PointRef::P4(c.index())],
            fns::Spline::CubicBezier(a, b, c, d) => n.spec_point_refs() == seq![PointRef::P4(a.index()), PointRef::P4(b.index()), PointRef::P4(c.index()), PointRef::P4(d.index())],
            fns::Spline::Segment(_, a, b) => n.spec_point_refs() == seq![PointRef::P1(a.index()), PointRef::P1(b.index())],
            fns::Spline::OnSurface(_, a, b) => n.spec_point_refs() == seq![PointRef::P2(a.index()), PointRef::P2(b.index())],
            fns::Spline::Contour(_) => n.spec_point_refs() == Seq::<PointRef>::empty(),
        },
{
}

/// A `Surface1` node counts one reference for each pointer to a point among its
/// arguments, in the order of its arguments, and none for any other argument.
pub proof fn lemma_surface1_refs<T>(n: Surface1<T>)
    ensures
        match n {
            fns::Surface::Rect(rect) => n.spec_point_refs() == seq![PointRef::P1(rect[0].index()), PointRef::P1(rect[1].index()), PointRef::P1(rect[2].index()), PointRef::P1(rect[3].index())],
            fns::Surface::Lerp(_, _) => n.spec_point_refs() == Seq::<PointRef>::empty(),
            fns::Surface::CurvedQuad { smooth, .. } => n.spec_point_refs() == seq![PointRef::P1(smooth.index())],
            fns::Surface::Circle(center, radius) => n.spec_point_refs() == seq![PointRef::P1(center.index()), PointRef::P1(radius.index())],
        },
{
}

/// A `Surface2` node counts one reference for each pointer to a point among its
/// arguments, in the order of its arguments, and none for any other argument.
pub proof fn lemma_surface2_refs<T>(n: Surface2<T>)
    ensures
        match n {
            fns::Surface::Rect(rect) => n.spec_point_refs() == seq![PointRef::P2(rect[0].index()), PointRef::P2(rect[1].index()), PointRef::P2(rect[2].index()), PointRef::P2(rect[3].index())],
            fns::Surface::Lerp(_, _) => n.spec_point_refs() == Seq::<PointRef>::empty(),
            fns::Surface::CurvedQuad { smooth, .. } => n.spec_point_refs() == seq![PointRef::P1(smooth.index())],
            fns::Surface::Circle(center, radius) => n.spec_point_refs() == seq![PointRef::P2(center.index()), PointRef::P1(radius.index())],
        },
{
}

/// A `Surface3` node counts one reference for each pointer to a point among its
/// arguments, in the order of its arguments, and none for any other argument.
pub proof fn lemma_surface3_refs<T>(n: Surface3<T>)
    ensures
        match n {
            fns::Surface::Rect(rect) => n.spec_point_refs() == seq![PointRef::P3(rect[0].index()), PointRef::P3(rect[1].index()), PointRef::P3(rect[2].index()), PointRef::P3(rect[3].index())],
            fns::Surface::Lerp(_, _) => n.spec_point_refs() == Seq::<PointRef>::empty(),
            fns::Surface::CurvedQuad { smooth, .. } => n.spec_point_refs() == seq![PointRef::P1(smooth.index())],
            fns::Surface::Circle(center, radius) => n.spec_point_refs() == seq![PointRef::P3(center.index()), PointRef::P1(radius.index())],
        },
{
}

/// A `Surface4` node counts one reference for each pointer to a point among its
/// arguments, in the order of its arguments, and none for any other argument.
pub proof fn lemma_surface4_refs<T>(n: Surface4<T>)
    ensures
        match n {
            fns::Surface::Rect(rect) => n.spec_point_refs() == seq![PointRef::P4(rect[0].index()), PointRef::P4(rect[1].index()), PointRef::P4(rect[2].index()), PointRef::P4(rect[3].index())],
            fns::Surface::Lerp(_, _) => n.spec_point_refs() == Seq::<PointRef>::empty(),
            fns::Surface::CurvedQuad { smooth, .. } => n.spec_point_refs() == seq![PointRef::P1(smooth.index())],
            fns::Surface::Circle(center, radius) => n.spec_point_refs() == seq![PointRef::P4(center.index()), PointRef::P1(radius.index())],
        },
{
}

/// A `Color` node counts one reference for each pointer to a point among its
/// arguments, in the order of its arguments, and none for any other argument.
pub proof fn lemma_color_refs<T>(n: fns::Color<T>)
    ensures
        match n {
            fns::Color::Data(_) => n.spec_point_refs() == Seq::<PointRef>::empty(),
            fns::Color::Time1(_, a) => n.spec_point_refs() == seq![PointRef::P1(a.index())],
        },
{
}

proof fn lemma_occurrences_contains(s: Seq<PointRef>, q: PointRef)
    requires
        s.contains(q),
    ensures
        occurrences(s, q) >= 1,
    decreases s.len(),
{
    if s.last() != q {
        let i = choose|i: int| 0 <= i < s.len() && s[i] == q;
        assert(s.drop_last()[i] == q);
        lemma_occurrences_contains(s.drop_last(), q);
    }
}

/// Counting the references of a list of nodes with one more node adds exactly the
/// references of that node.
pub proof fn lemma_refs_of_push<N: PointRefs>(nodes: Seq<N>, n: N, q: PointRef)
    ensures
        occurrences(refs_of(nodes.push(n)), q) == occurrences(refs_of(nodes), q) + occurrences(
            n.spec_point_refs(),
            q,
        ),
{
    assert(nodes.push(n).drop_last() =~= nodes);
    lemma_occurrences_concat(refs_of(nodes), n.spec_point_refs(), q);
}

proof fn lemma_refs_of_take<N: PointRefs>(nodes: Seq<N>, i: int, j: int, q: PointRef)
    requires
        0 <= i < j <= nodes.len(),
    ensures
        occurrences(refs_of(nodes.take(j)), q) >= occurrences(refs_of(nodes.take(i)), q) + occurrences(
            nodes[i].spec_point_refs(),
            q,
        ),
    decreases j - i,
{
    assert(nodes.take(j - 1).push(nodes[j - 1]) =~= nodes.take(j));
    lemma_refs_of_push(nodes.take(j - 1), nodes[j - 1], q);
    if i < j - 1 {
        lemma_refs_of_take(nodes, i, j - 1, q);
    }
}

/// A scalar that a function computes and that two different scalar nodes take as an
/// argument is shared, so a cache made for the document marks it.
pub proof fn lemma_scalar_used_twice_is_shared<T>(d: ReactorModel<T>, c: usize, i: int, j: int)
    requires
        c < d.points1.len(),
        !(d.points1[c as int] is Data),
        0 <= i < j < d.points1.len(),
        d.points1[i].spec_point_refs().contains(PointRef::P1(c)),
        d.points1[j].spec_point_refs().contains(PointRef::P1(c)),
    ensures
        shared1(d, c),
{
    let q = PointRef::P1(c);
    let nodes = d.points1;
    lemma_occurrences_contains(nodes[i].spec_point_refs(), q);
    lemma_occurrences_contains(nodes[j].spec_point_refs(), q);
    lemma_refs_of_take(nodes, i, j, q);
    lemma_refs_of_take(nodes, j, nodes.len() as int, q);
    assert(nodes.take(nodes.len() as int) =~= nodes);
    assert(occurrences(refs_of(nodes), q) >= 2);
    let up1 = doc_refs_upto(d, 1);
    assert(doc_refs_upto(d, 2) == up1 + refs_of(nodes));
    lemma_occurrences_concat(up1, refs_of(nodes), q);
    lemma_doc_refs_upto_prefix(d, 2);
    lemma_occurrences_prefix(doc_refs(d), doc_refs_upto(d, 2), q);
}

} // verus!
