//! Reading nodes of a reactive document by pointer.

use core::ops::Index;
use vstd::prelude::*;

use crate::reactive::{
    fns, ptr, Bone1, Bone2, Bone3, Bone4, BoneRef1, BoneRef2, BoneRef3, BoneRef4, Reactor, Spline1,
    Spline2, Spline3, Spline4, SplineRef1, SplineRef2, SplineRef3, SplineRef4, Surface1, Surface2,
    Surface3, Surface4, SurfaceRef1, SurfaceRef2, SurfaceRef3, SurfaceRef4,
};

verus! {

impl<T> Index<ptr::Bool> for Reactor<T> {
    type Output = fns::Bool<T>;

    fn index(&self, id: ptr::Bool) -> (r: &fns::Bool<T>)
        ensures
            *r == self.bools@[id.index() as int],
    {
        &self.bools[id.0]
    }
}

impl<T> vstd::std_specs::core::IndexSpecImpl<ptr::Bool> for Reactor<T> {
    open spec fn index_req(&self, id: &ptr::Bool) -> bool {
        id.index() < self.bools@.len()
    }
}

impl<T> Index<ptr::Point1<T>> for Reactor<T> {
    type Output = fns::Point1<T>;

    fn index(&self, id: ptr::Point1<T>) -> (r: &fns::Point1<T>)
        ensures
            *r == self.points1@[id.index() as int],
    {
        &self.points1[id.0]
    }
}

impl<T> vstd::std_specs::core::IndexSpecImpl<ptr::Point1<T>> for Reactor<T> {
    open spec fn index_req(&self, id: &ptr::Point1<T>) -> bool {
        id.index() < self.points1@.len()
    }
}

impl<T> Index<ptr::Point2<T>> for Reactor<T> {
    type Output = fns::Point2<T>;

    fn index(&self, id: ptr::Point2<T>) -> (r: &fns::Point2<T>)
        ensures
            *r == self.points2@[id.index() as int],
    {
        &self.points2[id.0]
    }
}

impl<T> vstd::std_specs::core::IndexSpecImpl<ptr::Point2<T>> for Reactor<T> {
    open spec fn index_req(&self, id: &ptr::Point2<T>) -> bool {
        id.index() < self.points2@.len()
    }
}

impl<T> Index<ptr::Point3<T>> for Reactor<T> {
    type Output = fns::Point3<T>;

    fn index(&self, id: ptr::Point3<T>) -> (r: &fns::Point3<T>)
        ensures
            *r == self.points3@[id.index() as int],
    {
        &self.points3[id.0]
    }
}

impl<T> vstd::std_specs::core::IndexSpecImpl<ptr::Point3<T>> for Reactor<T> {
    open spec fn index_req(&self, id: &ptr::Point3<T>) -> bool {
        id.index() < self.points3@.len()
    }
}

impl<T> Index<ptr::Point4<T>> for Reactor<T> {
    type Output = fns::Point4<T>;

    fn index(&self, id: ptr::Point4<T>) -> (r: &fns::Point4<T>)
        ensures
            *r == self.points4@[id.index() as int],
    {
        &self.points4[id.0]
    }
}

impl<T> vstd::std_specs::core::IndexSpecImpl<ptr::Point4<T>> for Reactor<T> {
    open spec fn index_req(&self, id: &ptr::Point4<T>) -> bool {
        id.index() < self.points4@.len()
    }
}

impl<T> Index<SplineRef1<T>> for Reactor<T> {
    type Output = Spline1<T>;

    fn index(&self, id: SplineRef1<T>) -> (r: &Spline1<T>)
        ensures
            *r == self.splines1@[id.index() as int],
    {
        &self.splines1[id.0]
    }
}

impl<T> vstd::std_specs::core::IndexSpecImpl<SplineRef1<T>> for Reactor<T> {
    open spec fn index_req(&self, id: &SplineRef1<T>) -> bool {
        id.index() < self.splines1@.len()
    }
}

impl<T> Index<SplineRef2<T>> for Reactor<T> {
    type Output = Spline2<T>;

    fn index(&self, id: SplineRef2<T>) -> (r: &Spline2<T>)
        ensures
            *r == self.splines2@[id.index() as int],
    {
        &self.splines2[id.0]
    }
}

impl<T> vstd::std_specs::core::IndexSpecImpl<SplineRef2<T>> for Reactor<T> {
    open spec fn index_req(&self, id: &SplineRef2<T>) -> bool {
        id.index() < self.splines2@.len()
    }
}

impl<T> Index<SplineRef3<T>> for Reactor<T> {
    type Output = Spline3<T>;

    fn index(&self, id: SplineRef3<T>) -> (r: &Spline3<T>)
        ensures
            *r == self.splines3@[id.index() as int],
    {
        &self.splines3[id.0]
    }
}

impl<T> vstd::std_specs::core::IndexSpecImpl<SplineRef3<T>> for Reactor<T> {
    open spec fn index_req(&self, id: &SplineRef3<T>) -> bool {
        id.index() < self.splines3@.len()
    }
}

impl<T> Index<SplineRef4<T>> for Reactor<T> {
    type Output = Spline4<T>;

    fn index(&self, id: SplineRef4<T>) -> (r: &Spline4<T>)
        ensures
            *r == self.splines4@[id.index() as int],
    {
        &self.splines4[id.0]
    }
}

impl<T> vstd::std_specs::core::IndexSpecImpl<SplineRef4<T>> for Reactor<T> {
    open spec fn index_req(&self, id: &SplineRef4<T>) -> bool {
        id.index() < self.splines4@.len()
    }
}

impl<T> Index<SurfaceRef1<T>> for Reactor<T> {
    type Output = Surface1<T>;

    fn index(&self, id: SurfaceRef1<T>) -> (r: &Surface1<T>)
        ensures
            *r == self.surfaces1@[id.index() as int],
    {
        &self.surfaces1[id.0]
    }
}

impl<T> vstd::std_specs::core::IndexSpecImpl<SurfaceRef1<T>> for Reactor<T> {
    open spec fn index_req(&self, id: &SurfaceRef1<T>) -> bool {
        id.index() < self.surfaces1@.len()
    }
}

impl<T> Index<SurfaceRef2<T>> for Reactor<T> {
    type Output = Surface2<T>;

    fn index(&self, id: SurfaceRef2<T>) -> (r: &Surface2<T>)
        ensures
            *r == self.surfaces2@[id.index() as int],
    {
        &self.surfaces2[id.0]
    }
}

impl<T> vstd::std_specs::core::IndexSpecImpl<SurfaceRef2<T>> for Reactor<T> {
    open spec fn index_req(&self, id: &SurfaceRef2<T>) -> bool {
        id.index() < self.surfaces2@.len()
    }
}

impl<T> Index<SurfaceRef3<T>> for Reactor<T> {
    type Output = Surface3<T>;

    fn index(&self, id: SurfaceRef3<T>) -> (r: &Surface3<T>)
        ensures
            *r == self.surfaces3@[id.index() as int],
    {
        &self.surfaces3[id.0]
    }
}

impl<T> vstd::std_specs::core::IndexSpecImpl<SurfaceRef3<T>> for Reactor<T> {
    open spec fn index_req(&self, id: &SurfaceRef3<T>) -> bool {
        id.index() < self.surfaces3@.len()
    }
}

impl<T> Index<SurfaceRef4<T>> for Reactor<T> {
    type Output = Surface4<T>;

    fn index(&self, id: SurfaceRef4<T>) -> (r: &Surface4<T>)
        ensures
            *r == self.surfaces4@[id.index() as int],
    {
        &self.surfaces4[id.0]
    }
}

impl<T> vstd::std_specs::core::IndexSpecImpl<SurfaceRef4<T>> for Reactor<T> {
    open spec fn index_req(&self, id: &SurfaceRef4<T>) -> bool {
        id.index() < self.surfaces4@.len()
    }
}

impl<T> Index<ptr::Color> for Reactor<T> {
    type Output = fns::Color<T>;

    fn index(&self, id: ptr::Color) -> (r: &fns::Color<T>)
        ensures
            *r == self.colors@[id.index() as int],
    {
        &self.colors[id.0]
    }
}

impl<T> vstd::std_specs::core::IndexSpecImpl<ptr::Color> for Reactor<T> {
    open spec fn index_req(&self, id: &ptr::Color) -> bool {
        id.index() < self.colors@.len()
    }
}

impl<T> Index<ptr::ColorSpline> for Reactor<T> {
    type Output = fns::ColorSpline;

    fn index(&self, id: ptr::ColorSpline) -> (r: &fns::ColorSpline)
        ensures
            *r == self.color_splines@[id.index() as int],
    {
        &self.color_splines[id.0]
    }
}

impl<T> vstd::std_specs::core::IndexSpecImpl<ptr::ColorSpline> for Reactor<T> {
    open spec fn index_req(&self, id: &ptr::ColorSpline) -> bool {
        id.index() < self.color_splines@.len()
    }
}

impl<T> Index<BoneRef1<T>> for Reactor<T> {
    type Output = Bone1<T>;

    fn index(&self, id: BoneRef1<T>) -> (r: &Bone1<T>)
        ensures
            *r == self.bones1@[id.index() as int],
    {
        &self.bones1[id.0]
    }
}

impl<T> vstd::std_specs::core::IndexSpecImpl<BoneRef1<T>> for Reactor<T> {
    open spec fn index_req(&self, id: &BoneRef1<T>) -> bool {
        id.index() < self.bones1@.len()
    }
}

impl<T> Index<BoneRef2<T>> for Reactor<T> {
    type Output = Bone2<T>;

    fn index(&self, id: BoneRef2<T>) -> (r: &Bone2<T>)
        ensures
            *r == self.bones2@[id.index() as int],
    {
        &self.bones2[id.0]
    }
}

impl<T> vstd::std_specs::core::IndexSpecImpl<BoneRef2<T>> for Reactor<T> {
    open spec fn index_req(&self, id: &BoneRef2<T>) -> bool {
        id.index() < self.bones2@.len()
    }
}

impl<T> Index<BoneRef3<T>> for Reactor<T> {
    type Output = Bone3<T>;

    fn index(&self, id: BoneRef3<T>) -> (r: &Bone3<T>)
        ensures
            *r == self.bones3@[id.index() as int],
    {
        &self.bones3[id.0]
    }
}

impl<T> vstd::std_specs::core::IndexSpecImpl<BoneRef3<T>> for Reactor<T> {
    open spec fn index_req(&self, id: &BoneRef3<T>) -> bool {
        id.index() < self.bones3@.len()
    }
}

impl<T> Index<BoneRef4<T>> for Reactor<T> {
    type Output = Bone4<T>;

    fn index(&self, id: BoneRef4<T>) -> (r: &Bone4<T>)
        ensures
            *r == self.bones4@[id.index() as int],
    {
        &self.bones4[id.0]
    }
}

impl<T> vstd::std_specs::core::IndexSpecImpl<BoneRef4<T>> for Reactor<T> {
    open spec fn index_req(&self, id: &BoneRef4<T>) -> bool {
        id.index() < self.bones4@.len()
    }
}

} // verus!
