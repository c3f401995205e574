//! Adding nodes to a reactive document.
//!
//! Each `add_*` method appends one node to the collection of its kind and
//! returns a pointer to the position where the node now stands.

use core::marker::PhantomData;
use vstd::prelude::*;

use crate::reactive::{
    fns, ptr, BoneRef1, BoneRef2, BoneRef3, BoneRef4, Reactor, ReactorModel, SplineRef1,
    SplineRef2, SplineRef3, SplineRef4, SurfaceRef1, SurfaceRef2, SurfaceRef3, SurfaceRef4,
};

verus! {

impl<T> Reactor<T> {

    /// Adds new bool.
    pub fn add_bool(&mut self, val: bool) -> (r: ptr::Bool)
        ensures
            r.index() == old(self)@.bools.len(),
            final(self)@ == (ReactorModel { bools: old(self)@.bools.push(fns::Bool::Data(val)), ..old(self)@ }),
    {
        let n = self.bools.len();
        self.bools.push(fns::Bool::Data(val));
        ptr::Bool(n)
    }

    /// Adds new logical NOT.
    pub fn add_not(&mut self, id: ptr::Bool) -> (r: ptr::Bool)
        ensures
            r.index() == old(self)@.bools.len(),
            final(self)@ == (ReactorModel { bools: old(self)@.bools.push(fns::Bool::Not(id)), ..old(self)@ }),
    {
        let n = self.bools.len();
        self.bools.push(fns::Bool::Not(id));
        ptr::Bool(n)
    }

    /// Adds new logical AND.
    pub fn add_and(&mut self, a: ptr::Bool, b: ptr::Bool) -> (r: ptr::Bool)
        ensures
            r.index() == old(self)@.bools.len(),
            final(self)@ == (ReactorModel { bools: old(self)@.bools.push(fns::Bool::And(a, b)), ..old(self)@ }),
    {
        let n = self.bools.len();
        self.bools.push(fns::Bool::And(a, b));
        ptr::Bool(n)
    }

    /// Adds new logical OR.
    pub fn add_or(&mut self, a: ptr::Bool, b: ptr::Bool) -> (r: ptr::Bool)
        ensures
            r.index() == old(self)@.bools.len(),
            final(self)@ == (ReactorModel { bools: old(self)@.bools.push(fns::Bool::Or(a, b)), ..old(self)@ }),
    {
        let n = self.bools.len();
        self.bools.push(fns::Bool::Or(a, b));
        ptr::Bool(n)
    }

    /// Adds new logical XOR.
    pub fn add_xor(&mut self, a: ptr::Bool, b: ptr::Bool) -> (r: ptr::Bool)
        ensures
            r.index() == old(self)@.bools.len(),
            final(self)@ == (ReactorModel { bools: old(self)@.bools.push(fns::Bool::Xor(a, b)), ..old(self)@ }),
    {
        let n = self.bools.len();
        self.bools.push(fns::Bool::Xor(a, b));
        ptr::Bool(n)
    }

    /// Adds new logical EQ.
    pub fn add_eq_bool(&mut self, a: ptr::Bool, b: ptr::Bool) -> (r: ptr::Bool)
        ensures
            r.index() == old(self)@.bools.len(),
            final(self)@ == (ReactorModel { bools: old(self)@.bools.push(fns::Bool::EqBool(a, b)), ..old(self)@ }),
    {
        let n = self.bools.len();
        self.bools.push(fns::Bool::EqBool(a, b));
        ptr::Bool(n)
    }

    /// Adds new check number equality check.
    pub fn add_eq1(&mut self, a: ptr::Point1<T>, b: ptr::Point1<T>) -> (r: ptr::Bool)
        ensures
            r.index() == old(self)@.bools.len(),
            final(self)@ == (ReactorModel { bools: old(self)@.bools.push(fns::Bool::Eq1(a, b)), ..old(self)@ }),
    {
        let n = self.bools.len();
        self.bools.push(fns::Bool::Eq1(a, b));
        ptr::Bool(n)
    }

    /// Adds new 2D vector equality check.
    pub fn add_eq2(&mut self, a: ptr::Point2<T>, b: ptr::Point2<T>) -> (r: ptr::Bool)
        ensures
            r.index() == old(self)@.bools.len(),
            final(self)@ == (ReactorModel { bools: old(self)@.bools.push(fns::Bool::Eq2(a, b)), ..old(self)@ }),
    {
        let n = self.bools.len();
        self.bools.push(fns::Bool::Eq2(a, b));
        ptr::Bool(n)
    }

    /// Adds new 3D vector equality check.
    pub fn add_eq3(&mut self, a: ptr::Point3<T>, b: ptr::Point3<T>) -> (r: ptr::Bool)
        ensures
            r.index() == old(self)@.bools.len(),
            final(self)@ == (ReactorModel { bools: old(self)@.bools.push(fns::Bool::Eq3(a, b)), ..old(self)@ }),
    {
        let n = self.bools.len();
        self.bools.push(fns::Bool::Eq3(a, b));
        ptr::Bool(n)
    }

    /// Adds new 4D vector equality check.
    pub fn add_eq4(&mut self, a: ptr::Point4<T>, b: ptr::Point4<T>) -> (r: ptr::Bool)
        ensures
            r.index() == old(self)@.bools.len(),
            final(self)@ == (ReactorModel { bools: old(self)@.bools.push(fns::Bool::Eq4(a, b)), ..old(self)@ }),
    {
        let n = self.bools.len();
        self.bools.push(fns::Bool::Eq4(a, b));
        ptr::Bool(n)
    }

    /// Adds new less comparison.
    pub fn add_lt(&mut self, a: ptr::Point1<T>, b: ptr::Point1<T>) -> (r: ptr::Bool)
        ensures
            r.index() == old(self)@.bools.len(),
            final(self)@ == (ReactorModel { bools: old(self)@.bools.push(fns::Bool::Less(a, b)), ..old(self)@ }),
    {
        let n = self.bools.len();
        self.bools.push(fns::Bool::Less(a, b));
        ptr::Bool(n)
    }

    /// Adds new more comparison.
    /// Uses `less` by swapping arguments.
    pub fn add_gt(&mut self, a: ptr::Point1<T>, b: ptr::Point1<T>) -> (r: ptr::Bool)
        ensures
            r.index() == old(self)@.bools.len(),
            final(self)@ == (ReactorModel { bools: old(self)@.bools.push(fns::Bool::Less(b, a)), ..old(self)@ }),
    {
        let n = self.bools.len();
        self.bools.push(fns::Bool::Less(b, a));
        ptr::Bool(n)
    }

    /// Adds new greater or equal comparison.
    pub fn add_ge(&mut self, a: ptr::Point1<T>, b: ptr::Point1<T>) -> (r: ptr::Bool)
        ensures
            r.index() == old(self)@.bools.len(),
            final(self)@ == (ReactorModel { bools: old(self)@.bools.push(fns::Bool::GreaterOrEqual(a, b)), ..old(self)@ }),
    {
        let n = self.bools.len();
        self.bools.push(fns::Bool::GreaterOrEqual(a, b));
        ptr::Bool(n)
    }

    /// Adds new less or equal comparison.
    /// Uses `greater or equal` by swapping arguments.
    pub fn add_le(&mut self, a: ptr::Point1<T>, b: ptr::Point1<T>) -> (r: ptr::Bool)
        ensures
            r.index() == old(self)@.bools.len(),
            final(self)@ == (ReactorModel { bools: old(self)@.bools.push(fns::Bool::GreaterOrEqual(b, a)), ..old(self)@ }),
    {
        let n = self.bools.len();
        self.bools.push(fns::Bool::GreaterOrEqual(b, a));
        ptr::Bool(n)
    }

    /// Adds new scalar.
    pub fn add1(&mut self, scalar: T) -> (r: ptr::Point1<T>)
        ensures
            r.index() == old(self)@.points1.len(),
            final(self)@ == (ReactorModel { points1: old(self)@.points1.push(fns::Point1::Data(scalar)), ..old(self)@ }),
    {
        let n = self.points1.len();
        self.points1.push(fns::Point1::Data(scalar));
        ptr::Point1(n, PhantomData)
    }

    /// Adds new 2D point.
    pub fn add2(&mut self, pos: [T; 2]) -> (r: ptr::Point2<T>)
        ensures
            r.index() == old(self)@.points2.len(),
            final(self)@ == (ReactorModel { points2: old(self)@.points2.push(fns::Point2::Data(pos)), ..old(self)@ }),
    {
        let n = self.points2.len();
        self.points2.push(fns::Point2::Data(pos));
        ptr::Point2(n, PhantomData)
    }

    /// Adds new 3D point.
    pub fn add3(&mut self, pos: [T; 3]) -> (r: ptr::Point3<T>)
        ensures
            r.index() == old(self)@.points3.len(),
            final(self)@ == (ReactorModel { points3: old(self)@.points3.push(fns::Point3::Data(pos)), ..old(self)@ }),
    {
        let n = self.points3.len();
        self.points3.push(fns::Point3::Data(pos));
        ptr::Point3(n, PhantomData)
    }

    /// Adds new 4D point.
    pub fn add4(&mut self, pos: [T; 4]) -> (r: ptr::Point4<T>)
        ensures
            r.index() == old(self)@.points4.len(),
            final(self)@ == (ReactorModel { points4: old(self)@.points4.push(fns::Point4::Data(pos)), ..old(self)@ }),
    {
        let n = self.points4.len();
        self.points4.push(fns::Point4::Data(pos));
        ptr::Point4(n, PhantomData)
    }

    /// Adds new 1D point from a line.
    pub fn add_line_point1(&mut self, f: SplineRef1<T>, t: ptr::Point1<T>) -> (r: ptr::Point1<T>)
        ensures
            r.index() == old(self)@.points1.len(),
            final(self)@ == (ReactorModel { points1: old(self)@.points1.push(fns::Point1::Time1(f, t)), ..old(self)@ }),
    {
        let n = self.points1.len();
        self.points1.push(fns::Point1::Time1(f, t));
        ptr::Point1(n, PhantomData)
    }

    /// Adds new 2D point from a line.
    pub fn add_line_point2(&mut self, f: SplineRef2<T>, t: ptr::Point1<T>) -> (r: ptr::Point2<T>)
        ensures
            r.index() == old(self)@.points2.len(),
            final(self)@ == (ReactorModel { points2: old(self)@.points2.push(fns::Point2::Time1(f, t)), ..old(self)@ }),
    {
        let n = self.points2.len();
        self.points2.push(fns::Point2::Time1(f, t));
        ptr::Point2(n, PhantomData)
    }

    /// Adds new 3D point from a line.
    pub fn add_line_point3(&mut self, f: SplineRef3<T>, t: ptr::Point1<T>) -> (r: ptr::Point3<T>)
        ensures
            r.index() == old(self)@.points3.len(),
            final(self)@ == (ReactorModel { points3: old(self)@.points3.push(fns::Point3::Time1(f, t)), ..old(self)@ }),
    {
        let n = self.points3.len();
        self.points3.push(fns::Point3::Time1(f, t));
        ptr::Point3(n, PhantomData)
    }

    /// Adds new 4D point from a line.
    pub fn add_line_point4(&mut self, f: SplineRef4<T>, t: ptr::Point1<T>) -> (r: ptr::Point4<T>)
        ensures
            r.index() == old(self)@.points4.len(),
            final(self)@ == (ReactorModel { points4: old(self)@.points4.push(fns::Point4::Time1(f, t)), ..old(self)@ }),
    {
        let n = self.points4.len();
        self.points4.push(fns::Point4::Time1(f, t));
        ptr::Point4(n, PhantomData)
    }

    /// Adds new 1D point from a surface.
    pub fn add_surface_point1(&mut self, f: SurfaceRef1<T>, t: ptr::Point2<T>) -> (r: ptr::Point1<T>)
        ensures
            r.index() == old(self)@.points1.len(),
            final(self)@ == (ReactorModel { points1: old(self)@.points1.push(fns::Point1::Time2(f, t)), ..old(self)@ }),
    {
        let n = self.points1.len();
        self.points1.push(fns::Point1::Time2(f, t));
        ptr::Point1(n, PhantomData)
    }

    /// Adds new 2D point from a surface.
    pub fn add_surface_point2(&mut self, f: SurfaceRef2<T>, t: ptr::Point2<T>) -> (r: ptr::Point2<T>)
        ensures
            r.index() == old(self)@.points2.len(),
            final(self)@ == (ReactorModel { points2: old(self)@.points2.push(fns::Point2::Time2(f, t)), ..old(self)@ }),
    {
        let n = self.points2.len();
        self.points2.push(fns::Point2::Time2(f, t));
        ptr::Point2(n, PhantomData)
    }

    /// Adds new 3D point from a surface.
    pub fn add_surface_point3(&mut self, f: SurfaceRef3<T>, t: ptr::Point2<T>) -> (r: ptr::Point3<T>)
        ensures
            r.index() == old(self)@.points3.len(),
            final(self)@ == (ReactorModel { points3: old(self)@.points3.push(fns::Point3::Time2(f, t)), ..old(self)@ }),
    {
        let n = self.points3.len();
        self.points3.push(fns::Point3::Time2(f, t));
        ptr::Point3(n, PhantomData)
    }

    /// Adds new 4D point from a surface.
    pub fn add_surface_point4(&mut self, f: SurfaceRef4<T>, t: ptr::Point2<T>) -> (r: ptr::Point4<T>)
        ensures
            r.index() == old(self)@.points4.len(),
            final(self)@ == (ReactorModel { points4: old(self)@.points4.push(fns::Point4::Time2(f, t)), ..old(self)@ }),
    {
        let n = self.points4.len();
        self.points4.push(fns::Point4::Time2(f, t));
        ptr::Point4(n, PhantomData)
    }

    /// Adds sum of two numbers.
    pub fn add_sum1(&mut self, a: ptr::Point1<T>, b: ptr::Point1<T>) -> (r: ptr::Point1<T>)
        ensures
            r.index() == old(self)@.points1.len(),
            final(self)@ == (ReactorModel { points1: old(self)@.points1.push(fns::Point1::Sum(a, b)), ..old(self)@ }),
    {
        let n = self.points1.len();
        self.points1.push(fns::Point1::Sum(a, b));
        ptr::Point1(n, PhantomData)
    }

    /// Adds sum of two 2D vectors.
    pub fn add_sum2(&mut self, a: ptr::Point2<T>, b: ptr::Point2<T>) -> (r: ptr::Point2<T>)
        ensures
            r.index() == old(self)@.points2.len(),
            final(self)@ == (ReactorModel { points2: old(self)@.points2.push(fns::Point2::Sum(a, b)), ..old(self)@ }),
    {
        let n = self.points2.len();
        self.points2.push(fns::Point2::Sum(a, b));
        ptr::Point2(n, PhantomData)
    }

    /// Adds sum of two 3D vectors.
    pub fn add_sum3(&mut self, a: ptr::Point3<T>, b: ptr::Point3<T>) -> (r: ptr::Point3<T>)
        ensures
            r.index() == old(self)@.points3.len(),
            final(self)@ == (ReactorModel { points3: old(self)@.points3.push(fns::Point3::Sum(a, b)), ..old(self)@ }),
    {
        let n = self.points3.len();
        self.points3.push(fns::Point3::Sum(a, b));
        ptr::Point3(n, PhantomData)
    }

    /// Adds sum of two 4D vectors.
    pub fn add_sum4(&mut self, a: ptr::Point4<T>, b: ptr::Point4<T>) -> (r: ptr::Point4<T>)
        ensures
            r.index() == old(self)@.points4.len(),
            final(self)@ == (ReactorModel { points4: old(self)@.points4.push(fns::Point4::Sum(a, b)), ..old(self)@ }),
    {
        let n = self.points4.len();
        self.points4.push(fns::Point4::Sum(a, b));
        ptr::Point4(n, PhantomData)
    }

    /// Adds difference between two numbers.
    pub fn add_diff1(&mut self, a: ptr::Point1<T>, b: ptr::Point1<T>) -> (r: ptr::Point1<T>)
        ensures
            r.index() == old(self)@.points1.len(),
            final(self)@ == (ReactorModel { points1: old(self)@.points1.push(fns::Point1::Diff(a, b)), ..old(self)@ }),
    {
        let n = self.points1.len();
        self.points1.push(fns::Point1::Diff(a, b));
        ptr::Point1(n, PhantomData)
    }

    /// Adds difference between two 2D vectors.
    pub fn add_diff2(&mut self, a: ptr::Point2<T>, b: ptr::Point2<T>) -> (r: ptr::Point2<T>)
        ensures
            r.index() == old(self)@.points2.len(),
            final(self)@ == (ReactorModel { points2: old(self)@.points2.push(fns::Point2::Diff(a, b)), ..old(self)@ }),
    {
        let n = self.points2.len();
        self.points2.push(fns::Point2::Diff(a, b));
        ptr::Point2(n, PhantomData)
    }

    /// Adds difference between two 3D vectors.
    pub fn add_diff3(&mut self, a: ptr::Point3<T>, b: ptr::Point3<T>) -> (r: ptr::Point3<T>)
        ensures
            r.index() == old(self)@.points3.len(),
            final(self)@ == (ReactorModel { points3: old(self)@.points3.push(fns::Point3::Diff(a, b)), ..old(self)@ }),
    {
        let n = self.points3.len();
        self.points3.push(fns::Point3::Diff(a, b));
        ptr::Point3(n, PhantomData)
    }

    /// Adds difference between two 4D vectors.
    pub fn add_diff4(&mut self, a: ptr::Point4<T>, b: ptr::Point4<T>) -> (r: ptr::Point4<T>)
        ensures
            r.index() == old(self)@.points4.len(),
            final(self)@ == (ReactorModel { points4: old(self)@.points4.push(fns::Point4::Diff(a, b)), ..old(self)@ }),
    {
        let n = self.points4.len();
        self.points4.push(fns::Point4::Diff(a, b));
        ptr::Point4(n, PhantomData)
    }

    /// Adds product of two numbers.
    pub fn add_prod1(&mut self, a: ptr::Point1<T>, b: ptr::Point1<T>) -> (r: ptr::Point1<T>)
        ensures
            r.index() == old(self)@.points1.len(),
            final(self)@ == (ReactorModel { points1: old(self)@.points1.push(fns::Point1::Prod(a, b)), ..old(self)@ }),
    {
        let n = self.points1.len();
        self.points1.push(fns::Point1::Prod(a, b));
        ptr::Point1(n, PhantomData)
    }

    /// Adds division of two numbers.
    pub fn add_div(&mut self, a: ptr::Point1<T>, b: ptr::Point1<T>) -> (r: ptr::Point1<T>)
        ensures
            r.index() == old(self)@.points1.len(),
            final(self)@ == (ReactorModel { points1: old(self)@.points1.push(fns::Point1::Div(a, b)), ..old(self)@ }),
    {
        let n = self.points1.len();
        self.points1.push(fns::Point1::Div(a, b));
        ptr::Point1(n, PhantomData)
    }

    /// Adds product component wise of two 2D vectors.
    pub fn add_prod2(&mut self, a: ptr::Point2<T>, b: ptr::Point2<T>) -> (r: ptr::Point2<T>)
        ensures
            r.index() == old(self)@.points2.len(),
            final(self)@ == (ReactorModel { points2: old(self)@.points2.push(fns::Point2::Prod(a, b)), ..old(self)@ }),
    {
        let n = self.points2.len();
        self.points2.push(fns::Point2::Prod(a, b));
        ptr::Point2(n, PhantomData)
    }

    /// Adds product component wise of two 3D vectors.
    pub fn add_prod3(&mut self, a: ptr::Point3<T>, b: ptr::Point3<T>) -> (r: ptr::Point3<T>)
        ensures
            r.index() == old(self)@.points3.len(),
            final(self)@ == (ReactorModel { points3: old(self)@.points3.push(fns::Point3::Prod(a, b)), ..old(self)@ }),
    {
        let n = self.points3.len();
        self.points3.push(fns::Point3::Prod(a, b));
        ptr::Point3(n, PhantomData)
    }

    /// Adds product component wise of two 4D vectors.
    pub fn add_prod4(&mut self, a: ptr::Point4<T>, b: ptr::Point4<T>) -> (r: ptr::Point4<T>)
        ensures
            r.index() == old(self)@.points4.len(),
            final(self)@ == (ReactorModel { points4: old(self)@.points4.push(fns::Point4::Prod(a, b)), ..old(self)@ }),
    {
        let n = self.points4.len();
        self.points4.push(fns::Point4::Prod(a, b));
        ptr::Point4(n, PhantomData)
    }

    /// Dot product of two 2D vectors.
    pub fn add_dot2(&mut self, a: ptr::Point2<T>, b: ptr::Point2<T>) -> (r: ptr::Point1<T>)
        ensures
            r.index() == old(self)@.points1.len(),
            final(self)@ == (ReactorModel { points1: old(self)@.points1.push(fns::Point1::Dot2(a, b)), ..old(self)@ }),
    {
        let n = self.points1.len();
        self.points1.push(fns::Point1::Dot2(a, b));
        ptr::Point1(n, PhantomData)
    }

    /// Dot product of two 3D vectors.
    pub fn add_dot3(&mut self, a: ptr::Point3<T>, b: ptr::Point3<T>) -> (r: ptr::Point1<T>)
        ensures
            r.index() == old(self)@.points1.len(),
            final(self)@ == (ReactorModel { points1: old(self)@.points1.push(fns::Point1::Dot3(a, b)), ..old(self)@ }),
    {
        let n = self.points1.len();
        self.points1.push(fns::Point1::Dot3(a, b));
        ptr::Point1(n, PhantomData)
    }

    /// Dot product of two 4D vectors.
    pub fn add_dot4(&mut self, a: ptr::Point4<T>, b: ptr::Point4<T>) -> (r: ptr::Point1<T>)
        ensures
            r.index() == old(self)@.points1.len(),
            final(self)@ == (ReactorModel { points1: old(self)@.points1.push(fns::Point1::Dot4(a, b)), ..old(self)@ }),
    {
        let n = self.points1.len();
        self.points1.push(fns::Point1::Dot4(a, b));
        ptr::Point1(n, PhantomData)
    }

    /// Cross product of two 2D vectors.
    pub fn add_cross2(&mut self, a: ptr::Point2<T>, b: ptr::Point2<T>) -> (r: ptr::Point1<T>)
        ensures
            r.index() == old(self)@.points1.len(),
            final(self)@ == (ReactorModel { points1: old(self)@.points1.push(fns::Point1::Cross(a, b)), ..old(self)@ }),
    {
        let n = self.points1.len();
        self.points1.push(fns::Point1::Cross(a, b));
        ptr::Point1(n, PhantomData)
    }

    /// Cross product of two 3D vectors.
    pub fn add_cross3(&mut self, a: ptr::Point3<T>, b: ptr::Point3<T>) -> (r: ptr::Point3<T>)
        ensures
            r.index() == old(self)@.points3.len(),
            final(self)@ == (ReactorModel { points3: old(self)@.points3.push(fns::Point3::Cross(a, b)), ..old(self)@ }),
    {
        let n = self.points3.len();
        self.points3.push(fns::Point3::Cross(a, b));
        ptr::Point3(n, PhantomData)
    }

    /// Adds abolute value of number.
    pub fn add_abs(&mut self, a: ptr::Point1<T>) -> (r: ptr::Point1<T>)
        ensures
            r.index() == old(self)@.points1.len(),
            final(self)@ == (ReactorModel { points1: old(self)@.points1.push(fns::Point1::Abs(a)), ..old(self)@ }),
    {
        let n = self.points1.len();
        self.points1.push(fns::Point1::Abs(a));
        ptr::Point1(n, PhantomData)
    }

    /// Adds length of 2D vector.
    pub fn add_len2(&mut self, a: ptr::Point2<T>) -> (r: ptr::Point1<T>)
        ensures
            r.index() == old(self)@.points1.len(),
            final(self)@ == (ReactorModel { points1: old(self)@.points1.push(fns::Point1::Len2(a)), ..old(self)@ }),
    {
        let n = self.points1.len();
        self.points1.push(fns::Point1::Len2(a));
        ptr::Point1(n, PhantomData)
    }

    /// Adds length of 3D vector.
    pub fn add_len3(&mut self, a: ptr::Point3<T>) -> (r: ptr::Point1<T>)
        ensures
            r.index() == old(self)@.points1.len(),
            final(self)@ == (ReactorModel { points1: old(self)@.points1.push(fns::Point1::Len3(a)), ..old(self)@ }),
    {
        let n = self.points1.len();
        self.points1.push(fns::Point1::Len3(a));
        ptr::Point1(n, PhantomData)
    }

    /// Adds length of 4D vector.
    pub fn add_len4(&mut self, a: ptr::Point4<T>) -> (r: ptr::Point1<T>)
        ensures
            r.index() == old(self)@.points1.len(),
            final(self)@ == (ReactorModel { points1: old(self)@.points1.push(fns::Point1::Len4(a)), ..old(self)@ }),
    {
        let n = self.points1.len();
        self.points1.push(fns::Point1::Len4(a));
        ptr::Point1(n, PhantomData)
    }

    /// Adds negative of number.
    pub fn add_neg(&mut self, a: ptr::Point1<T>) -> (r: ptr::Point1<T>)
        ensures
            r.index() == old(self)@.points1.len(),
            final(self)@ == (ReactorModel { points1: old(self)@.points1.push(fns::Point1::Neg(a)), ..old(self)@ }),
    {
        let n = self.points1.len();
        self.points1.push(fns::Point1::Neg(a));
        ptr::Point1(n, PhantomData)
    }

    /// Adds sign of number.
    pub fn add_sign(&mut self, a: ptr::Point1<T>) -> (r: ptr::Point1<T>)
        ensures
            r.index() == old(self)@.points1.len(),
            final(self)@ == (ReactorModel { points1: old(self)@.points1.push(fns::Point1::Sign(a)), ..old(self)@ }),
    {
        let n = self.points1.len();
        self.points1.push(fns::Point1::Sign(a));
        ptr::Point1(n, PhantomData)
    }

    /// Adds sine of angle.
    pub fn add_sin(&mut self, a: ptr::Point1<T>) -> (r: ptr::Point1<T>)
        ensures
            r.index() == old(self)@.points1.len(),
            final(self)@ == (ReactorModel { points1: old(self)@.points1.push(fns::Point1::Sin(a)), ..old(self)@ }),
    {
        let n = self.points1.len();
        self.points1.push(fns::Point1::Sin(a));
        ptr::Point1(n, PhantomData)
    }

    /// Adds cosine of angle.
    pub fn add_cos(&mut self, a: ptr::Point1<T>) -> (r: ptr::Point1<T>)
        ensures
            r.index() == old(self)@.points1.len(),
            final(self)@ == (ReactorModel { points1: old(self)@.points1.push(fns::Point1::Cos(a)), ..old(self)@ }),
    {
        let n = self.points1.len();
        self.points1.push(fns::Point1::Cos(a));
        ptr::Point1(n, PhantomData)
    }

    /// Adds tangent of angle.
    pub fn add_tan(&mut self, a: ptr::Point1<T>) -> (r: ptr::Point1<T>)
        ensures
            r.index() == old(self)@.points1.len(),
            final(self)@ == (ReactorModel { points1: old(self)@.points1.push(fns::Point1::Tan(a)), ..old(self)@ }),
    {
        let n = self.points1.len();
        self.points1.push(fns::Point1::Tan(a));
        ptr::Point1(n, PhantomData)
    }

    /// Adds inverse sine of angle.
    pub fn add_asin(&mut self, a: ptr::Point1<T>) -> (r: ptr::Point1<T>)
        ensures
            r.index() == old(self)@.points1.len(),
            final(self)@ == (ReactorModel { points1: old(self)@.points1.push(fns::Point1::Asin(a)), ..old(self)@ }),
    {
        let n = self.points1.len();
        self.points1.push(fns::Point1::Asin(a));
        ptr::Point1(n, PhantomData)
    }

    /// Adds inverse cosine of angle.
    pub fn add_acos(&mut self, a: ptr::Point1<T>) -> (r: ptr::Point1<T>)
        ensures
            r.index() == old(self)@.points1.len(),
            final(self)@ == (ReactorModel { points1: old(self)@.points1.push(fns::Point1::Acos(a)), ..old(self)@ }),
    {
        let n = self.points1.len();
        self.points1.push(fns::Point1::Acos(a));
        ptr::Point1(n, PhantomData)
    }

    /// Adds inverse tangent of angle.
    pub fn add_atan(&mut self, a: ptr::Point1<T>) -> (r: ptr::Point1<T>)
        ensures
            r.index() == old(self)@.points1.len(),
            final(self)@ == (ReactorModel { points1: old(self)@.points1.push(fns::Point1::Atan(a)), ..old(self)@ }),
    {
        let n = self.points1.len();
        self.points1.push(fns::Point1::Atan(a));
        ptr::Point1(n, PhantomData)
    }

    /// Adds inverse tangent of `y, x`.
    pub fn add_atan2(&mut self, a: ptr::Point1<T>, b: ptr::Point1<T>) -> (r: ptr::Point1<T>)
        ensures
            r.index() == old(self)@.points1.len(),
            final(self)@ == (ReactorModel { points1: old(self)@.points1.push(fns::Point1::Atan2(a, b)), ..old(self)@ }),
    {
        let n = self.points1.len();
        self.points1.push(fns::Point1::Atan2(a, b));
        ptr::Point1(n, PhantomData)
    }

    /// Adds hyperbolic sine of angle.
    pub fn add_sinh(&mut self, a: ptr::Point1<T>) -> (r: ptr::Point1<T>)
        ensures
            r.index() == old(self)@.points1.len(),
            final(self)@ == (ReactorModel { points1: old(self)@.points1.push(fns::Point1::Sinh(a)), ..old(self)@ }),
    {
        let n = self.points1.len();
        self.points1.push(fns::Point1::Sinh(a));
        ptr::Point1(n, PhantomData)
    }

    /// Adds hyperbolic cosine of angle.
    pub fn add_cosh(&mut self, a: ptr::Point1<T>) -> (r: ptr::Point1<T>)
        ensures
            r.index() == old(self)@.points1.len(),
            final(self)@ == (ReactorModel { points1: old(self)@.points1.push(fns::Point1::Cosh(a)), ..old(self)@ }),
    {
        let n = self.points1.len();
        self.points1.push(fns::Point1::Cosh(a));
        ptr::Point1(n, PhantomData)
    }

    /// Adds hyperbolic tangent of angle.
    pub fn add_tanh(&mut self, a: ptr::Point1<T>) -> (r: ptr::Point1<T>)
        ensures
            r.index() == old(self)@.points1.len(),
            final(self)@ == (ReactorModel { points1: old(self)@.points1.push(fns::Point1::Tanh(a)), ..old(self)@ }),
    {
        let n = self.points1.len();
        self.points1.push(fns::Point1::Tanh(a));
        ptr::Point1(n, PhantomData)
    }

    /// Adds inverse hyperbolic sine of angle.
    pub fn add_asinh(&mut self, a: ptr::Point1<T>) -> (r: ptr::Point1<T>)
        ensures
            r.index() == old(self)@.points1.len(),
            final(self)@ == (ReactorModel { points1: old(self)@.points1.push(fns::Point1::Asinh(a)), ..old(self)@ }),
    {
        let n = self.points1.len();
        self.points1.push(fns::Point1::Asinh(a));
        ptr::Point1(n, PhantomData)
    }

    /// Adds inverse hyperbolic cosine of angle.
    pub fn add_acosh(&mut self, a: ptr::Point1<T>) -> (r: ptr::Point1<T>)
        ensures
            r.index() == old(self)@.points1.len(),
            final(self)@ == (ReactorModel { points1: old(self)@.points1.push(fns::Point1::Acosh(a)), ..old(self)@ }),
    {
        let n = self.points1.len();
        self.points1.push(fns::Point1::Acosh(a));
        ptr::Point1(n, PhantomData)
    }

    /// Adds inverse hyperbolic tangent of angle.
    pub fn add_atanh(&mut self, a: ptr::Point1<T>) -> (r: ptr::Point1<T>)
        ensures
            r.index() == old(self)@.points1.len(),
            final(self)@ == (ReactorModel { points1: old(self)@.points1.push(fns::Point1::Atanh(a)), ..old(self)@ }),
    {
        let n = self.points1.len();
        self.points1.push(fns::Point1::Atanh(a));
        ptr::Point1(n, PhantomData)
    }

    /// Adds maximum of two numbers.
    pub fn add_max1(&mut self, a: ptr::Point1<T>, b: ptr::Point1<T>) -> (r: ptr::Point1<T>)
        ensures
            r.index() == old(self)@.points1.len(),
            final(self)@ == (ReactorModel { points1: old(self)@.points1.push(fns::Point1::Max(a, b)), ..old(self)@ }),
    {
        let n = self.points1.len();
        self.points1.push(fns::Point1::Max(a, b));
        ptr::Point1(n, PhantomData)
    }

    /// Adds maximum of two 2D vectors.
    pub fn add_max2(&mut self, a: ptr::Point2<T>, b: ptr::Point2<T>) -> (r: ptr::Point2<T>)
        ensures
            r.index() == old(self)@.points2.len(),
            final(self)@ == (ReactorModel { points2: old(self)@.points2.push(fns::Point2::Max(a, b)), ..old(self)@ }),
    {
        let n = self.points2.len();
        self.points2.push(fns::Point2::Max(a, b));
        ptr::Point2(n, PhantomData)
    }

    /// Adds maximum of two 3D vectors.
    pub fn add_max3(&mut self, a: ptr::Point3<T>, b: ptr::Point3<T>) -> (r: ptr::Point3<T>)
        ensures
            r.index() == old(self)@.points3.len(),
            final(self)@ == (ReactorModel { points3: old(self)@.points3.push(fns::Point3::Max(a, b)), ..old(self)@ }),
    {
        let n = self.points3.len();
        self.points3.push(fns::Point3::Max(a, b));
        ptr::Point3(n, PhantomData)
    }

    /// Adds maximum of two 4D vectors.
    pub fn add_max4(&mut self, a: ptr::Point4<T>, b: ptr::Point4<T>) -> (r: ptr::Point4<T>)
        ensures
            r.index() == old(self)@.points4.len(),
            final(self)@ == (ReactorModel { points4: old(self)@.points4.push(fns::Point4::Max(a, b)), ..old(self)@ }),
    {
        let n = self.points4.len();
        self.points4.push(fns::Point4::Max(a, b));
        ptr::Point4(n, PhantomData)
    }

    /// Adds minimum of two numbers.
    pub fn add_min1(&mut self, a: ptr::Point1<T>, b: ptr::Point1<T>) -> (r: ptr::Point1<T>)
        ensures
            r.index() == old(self)@.points1.len(),
            final(self)@ == (ReactorModel { points1: old(self)@.points1.push(fns::Point1::Min(a, b)), ..old(self)@ }),
    {
        let n = self.points1.len();
        self.points1.push(fns::Point1::Min(a, b));
        ptr::Point1(n, PhantomData)
    }

    /// Adds minimum of two 2D vectors.
    pub fn add_min2(&mut self, a: ptr::Point2<T>, b: ptr::Point2<T>) -> (r: ptr::Point2<T>)
        ensures
            r.index() == old(self)@.points2.len(),
            final(self)@ == (ReactorModel { points2: old(self)@.points2.push(fns::Point2::Min(a, b)), ..old(self)@ }),
    {
        let n = self.points2.len();
        self.points2.push(fns::Point2::Min(a, b));
        ptr::Point2(n, PhantomData)
    }

    /// Adds minimum of two 3D vectors.
    pub fn add_min3(&mut self, a: ptr::Point3<T>, b: ptr::Point3<T>) -> (r: ptr::Point3<T>)
        ensures
            r.index() == old(self)@.points3.len(),
            final(self)@ == (ReactorModel { points3: old(self)@.points3.push(fns::Point3::Min(a, b)), ..old(self)@ }),
    {
        let n = self.points3.len();
        self.points3.push(fns::Point3::Min(a, b));
        ptr::Point3(n, PhantomData)
    }

    /// Adds minimum of two 4D vectors.
    pub fn add_min4(&mut self, a: ptr::Point4<T>, b: ptr::Point4<T>) -> (r: ptr::Point4<T>)
        ensures
            r.index() == old(self)@.points4.len(),
            final(self)@ == (ReactorModel { points4: old(self)@.points4.push(fns::Point4::Min(a, b)), ..old(self)@ }),
    {
        let n = self.points4.len();
        self.points4.push(fns::Point4::Min(a, b));
        ptr::Point4(n, PhantomData)
    }

    /// Adds square root of number.
    pub fn add_sqrt(&mut self, a: ptr::Point1<T>) -> (r: ptr::Point1<T>)
        ensures
            r.index() == old(self)@.points1.len(),
            final(self)@ == (ReactorModel { points1: old(self)@.points1.push(fns::Point1::Sqrt(a)), ..old(self)@ }),
    {
        let n = self.points1.len();
        self.points1.push(fns::Point1::Sqrt(a));
        ptr::Point1(n, PhantomData)
    }

    /// Adds conversion from degrees to radians.
    pub fn add_deg_to_rad(&mut self, a: ptr::Point1<T>) -> (r: ptr::Point1<T>)
        ensures
            r.index() == old(self)@.points1.len(),
            final(self)@ == (ReactorModel { points1: old(self)@.points1.push(fns::Point1::DegToRad(a)), ..old(self)@ }),
    {
        let n = self.points1.len();
        self.points1.push(fns::Point1::DegToRad(a));
        ptr::Point1(n, PhantomData)
    }

    /// Adds conversion from radians to degrees.
    pub fn add_rad_to_deg(&mut self, a: ptr::Point1<T>) -> (r: ptr::Point1<T>)
        ensures
            r.index() == old(self)@.points1.len(),
            final(self)@ == (ReactorModel { points1: old(self)@.points1.push(fns::Point1::RadToDeg(a)), ..old(self)@ }),
    {
        let n = self.points1.len();
        self.points1.push(fns::Point1::RadToDeg(a));
        ptr::Point1(n, PhantomData)
    }

    /// Adds new 1D line.
    pub fn add_line1(&mut self, a: ptr::Point1<T>, b: ptr::Point1<T>) -> (r: SplineRef1<T>)
        ensures
            r.index() == old(self)@.splines1.len(),
            final(self)@ == (ReactorModel { splines1: old(self)@.splines1.push(fns::Spline::Line(a, b)), ..old(self)@ }),
    {
        let n = self.splines1.len();
        self.splines1.push(fns::Spline::Line(a, b));
        ptr::Spline(n, PhantomData)
    }

    /// Adds new 2D line.
    pub fn add_line2(&mut self, a: ptr::Point2<T>, b: ptr::Point2<T>) -> (r: SplineRef2<T>)
        ensures
            r.index() == old(self)@.splines2.len(),
            final(self)@ == (ReactorModel { splines2: old(self)@.splines2.push(fns::Spline::Line(a, b)), ..old(self)@ }),
    {
        let n = self.splines2.len();
        self.splines2.push(fns::Spline::Line(a, b));
        ptr::Spline(n, PhantomData)
    }

    /// Adds new 3D line.
    pub fn add_line3(&mut self, a: ptr::Point3<T>, b: ptr::Point3<T>) -> (r: SplineRef3<T>)
        ensures
            r.index() == old(self)@.splines3.len(),
            final(self)@ == (ReactorModel { splines3: old(self)@.splines3.push(fns::Spline::Line(a, b)), ..old(self)@ }),
    {
        let n = self.splines3.len();
        self.splines3.push(fns::Spline::Line(a, b));
        ptr::Spline(n, PhantomData)
    }

    /// Adds new 4D line.
    pub fn add_line4(&mut self, a: ptr::Point4<T>, b: ptr::Point4<T>) -> (r: SplineRef4<T>)
        ensures
            r.index() == old(self)@.splines4.len(),
            final(self)@ == (ReactorModel { splines4: old(self)@.splines4.push(fns::Spline::Line(a, b)), ..old(self)@ }),
    {
        let n = self.splines4.len();
        self.splines4.push(fns::Spline::Line(a, b));
        ptr::Spline(n, PhantomData)
    }

    /// Adds new 1D quadratic bezier spline.
    pub fn add_qbez1(&mut self, a: ptr::Point1<T>, b: ptr::Point1<T>, c: ptr::Point1<T>) -> (r: SplineRef1<T>)
        ensures
            r.index() == old(self)@.splines1.len(),
            final(self)@ == (ReactorModel { splines1: old(self)@.splines1.push(fns::Spline::QuadraticBezier(a, b, c)), ..old(self)@ }),
    {
        let n = self.splines1.len();
        self.splines1.push(fns::Spline::QuadraticBezier(a, b, c));
        ptr::Spline(n, PhantomData)
    }

    /// Adds new 2D quadratic bezier spline.
    pub fn add_qbez2(&mut self, a: ptr::Point2<T>, b: ptr::Point2<T>, c: ptr::Point2<T>) -> (r: SplineRef2<T>)
        ensures
            r.index() == old(self)@.splines2.len(),
            final(self)@ == (ReactorModel { splines2: old(self)@.splines2.push(fns::Spline::QuadraticBezier(a, b, c)), ..old(self)@ }),
    {
        let n = self.splines2.len();
        self.splines2.push(fns::Spline::QuadraticBezier(a, b, c));
        ptr::Spline(n, PhantomData)
    }

    /// Adds new 3D quadratic bezier spline.
    pub fn add_qbez3(&mut self, a: ptr::Point3<T>, b: ptr::Point3<T>, c: ptr::Point3<T>) -> (r: SplineRef3<T>)
        ensures
            r.index() == old(self)@.splines3.len(),
            final(self)@ == (ReactorModel { splines3: old(self)@.splines3.push(fns::Spline::QuadraticBezier(a, b, c)), ..old(self)@ }),
    {
        let n = self.splines3.len();
        self.splines3.push(fns::Spline::QuadraticBezier(a, b, c));
        ptr::Spline(n, PhantomData)
    }

    /// Adds new 4D quadratic bezier spline.
    pub fn add_qbez4(&mut self, a: ptr::Point4<T>, b: ptr::Point4<T>, c: ptr::Point4<T>) -> (r: SplineRef4<T>)
        ensures
            r.index() == old(self)@.splines4.len(),
            final(self)@ == (ReactorModel { splines4: old(self)@.splines4.push(fns::Spline::QuadraticBezier(a, b, c)), ..old(self)@ }),
    {
        let n = self.splines4.len();
        self.splines4.push(fns::Spline::QuadraticBezier(a, b, c));
        ptr::Spline(n, PhantomData)
    }

    /// Adds new 1D cubic bezier spline.
    pub fn add_cbez1(&mut self, a: ptr::Point1<T>, b: ptr::Point1<T>, c: ptr::Point1<T>, d: ptr::Point1<T>) -> (r: SplineRef1<T>)
        ensures
            r.index() == old(self)@.splines1.len(),
            final(self)@ == (ReactorModel { splines1: old(self)@.splines1.push(fns::Spline::CubicBezier(a, b, c, d)), ..old(self)@ }),
    {
        let n = self.splines1.len();
        self.splines1.push(fns::Spline::CubicBezier(a, b, c, d));
        ptr::Spline(n, PhantomData)
    }

    /// Adds new 2D cubic bezier spline.
    pub fn add_cbez2(&mut self, a: ptr::Point2<T>, b: ptr::Point2<T>, c: ptr::Point2<T>, d: ptr::Point2<T>) -> (r: SplineRef2<T>)
        ensures
            r.index() == old(self)@.splines2.len(),
            final(self)@ == (ReactorModel { splines2: old(self)@.splines2.push(fns::Spline::CubicBezier(a, b, c, d)), ..old(self)@ }),
    {
        let n = self.splines2.len();
        self.splines2.push(fns::Spline::CubicBezier(a, b, c, d));
        ptr::Spline(n, PhantomData)
    }

    /// Adds new 3D cubic bezier spline.
    pub fn add_cbez3(&mut self, a: ptr::Point3<T>, b: ptr::Point3<T>, c: ptr::Point3<T>, d: ptr::Point3<T>) -> (r: SplineRef3<T>)
        ensures
            r.index() == old(self)@.splines3.len(),
            final(self)@ == (ReactorModel { splines3: old(self)@.splines3.push(fns::Spline::CubicBezier(a, b, c, d)), ..old(self)@ }),
    {
        let n = self.splines3.len();
        self.splines3.push(fns::Spline::CubicBezier(a, b, c, d));
        ptr::Spline(n, PhantomData)
    }

    /// Adds new 4D cubic bezier spline.
    pub fn add_cbez4(&mut self, a: ptr::Point4<T>, b: ptr::Point4<T>, c: ptr::Point4<T>, d: ptr::Point4<T>) -> (r: SplineRef4<T>)
        ensures
            r.index() == old(self)@.splines4.len(),
            final(self)@ == (ReactorModel { splines4: old(self)@.splines4.push(fns::Spline::CubicBezier(a, b, c, d)), ..old(self)@ }),
    {
        let n = self.splines4.len();
        self.splines4.push(fns::Spline::CubicBezier(a, b, c, d));
        ptr::Spline(n, PhantomData)
    }

    /// Adds new 1D segment from line.
    pub fn add_line_segment1(&mut self, f: SplineRef1<T>, start: ptr::Point1<T>, end: ptr::Point1<T>) -> (r: SplineRef1<T>)
        ensures
            r.index() == old(self)@.splines1.len(),
            final(self)@ == (ReactorModel { splines1: old(self)@.splines1.push(fns::Spline::Segment(f, start, end)), ..old(self)@ }),
    {
        let n = self.splines1.len();
        self.splines1.push(fns::Spline::Segment(f, start, end));
        ptr::Spline(n, PhantomData)
    }

    /// Adds new 2D segment from line.
    pub fn add_line_segment2(&mut self, f: SplineRef2<T>, start: ptr::Point1<T>, end: ptr::Point1<T>) -> (r: SplineRef2<T>)
        ensures
            r.index() == old(self)@.splines2.len(),
            final(self)@ == (ReactorModel { splines2: old(self)@.splines2.push(fns::Spline::Segment(f, start, end)), ..old(self)@ }),
    {
        let n = self.splines2.len();
        self.splines2.push(fns::Spline::Segment(f, start, end));
        ptr::Spline(n, PhantomData)
    }

    /// Adds new 3D segment from line.
    pub fn add_line_segment3(&mut self, f: SplineRef3<T>, start: ptr::Point1<T>, end: ptr::Point1<T>) -> (r: SplineRef3<T>)
        ensures
            r.index() == old(self)@.splines3.len(),
            final(self)@ == (ReactorModel { splines3: old(self)@.splines3.push(fns::Spline::Segment(f, start, end)), ..old(self)@ }),
    {
        let n = self.splines3.len();
        self.splines3.push(fns::Spline::Segment(f, start, end));
        ptr::Spline(n, PhantomData)
    }

    /// Adds new 4D segment from line.
    pub fn add_line_segment4(&mut self, f: SplineRef4<T>, start: ptr::Point1<T>, end: ptr::Point1<T>) -> (r: SplineRef4<T>)
        ensures
            r.index() == old(self)@.splines4.len(),
            final(self)@ == (ReactorModel { splines4: old(self)@.splines4.push(fns::Spline::Segment(f, start, end)), ..old(self)@ }),
    {
        let n = self.splines4.len();
        self.splines4.push(fns::Spline::Segment(f, start, end));
        ptr::Spline(n, PhantomData)
    }

    /// Adds new 1D line on surface.
    pub fn add_line_on_surface1(&mut self, f: SurfaceRef1<T>, start: ptr::Point2<T>, end: ptr::Point2<T>) -> (r: SplineRef1<T>)
        ensures
            r.index() == old(self)@.splines1.len(),
            final(self)@ == (ReactorModel { splines1: old(self)@.splines1.push(fns::Spline::OnSurface(f, start, end)), ..old(self)@ }),
    {
        let n = self.splines1.len();
        self.splines1.push(fns::Spline::OnSurface(f, start, end));
        ptr::Spline(n, PhantomData)
    }

    /// Adds new 2D line on surface.
    pub fn add_line_on_surface2(&mut self, f: SurfaceRef2<T>, start: ptr::Point2<T>, end: ptr::Point2<T>) -> (r: SplineRef2<T>)
        ensures
            r.index() == old(self)@.splines2.len(),
            final(self)@ == (ReactorModel { splines2: old(self)@.splines2.push(fns::Spline::OnSurface(f, start, end)), ..old(self)@ }),
    {
        let n = self.splines2.len();
        self.splines2.push(fns::Spline::OnSurface(f, start, end));
        ptr::Spline(n, PhantomData)
    }

    /// Adds new 3D line on surface.
    pub fn add_line_on_surface3(&mut self, f: SurfaceRef3<T>, start: ptr::Point2<T>, end: ptr::Point2<T>) -> (r: SplineRef3<T>)
        ensures
            r.index() == old(self)@.splines3.len(),
            final(self)@ == (ReactorModel { splines3: old(self)@.splines3.push(fns::Spline::OnSurface(f, start, end)), ..old(self)@ }),
    {
        let n = self.splines3.len();
        self.splines3.push(fns::Spline::OnSurface(f, start, end));
        ptr::Spline(n, PhantomData)
    }

    /// Adds new 4D line on surface.
    pub fn add_line_on_surface4(&mut self, f: SurfaceRef4<T>, start: ptr::Point2<T>, end: ptr::Point2<T>) -> (r: SplineRef4<T>)
        ensures
            r.index() == old(self)@.splines4.len(),
            final(self)@ == (ReactorModel { splines4: old(self)@.splines4.push(fns::Spline::OnSurface(f, start, end)), ..old(self)@ }),
    {
        let n = self.splines4.len();
        self.splines4.push(fns::Spline::OnSurface(f, start, end));
        ptr::Spline(n, PhantomData)
    }

    /// Adds new 1D contour of surface.
    pub fn add_contour1(&mut self, f: SurfaceRef1<T>) -> (r: SplineRef1<T>)
        ensures
            r.index() == old(self)@.splines1.len(),
            final(self)@ == (ReactorModel { splines1: old(self)@.splines1.push(fns::Spline::Contour(f)), ..old(self)@ }),
    {
        let n = self.splines1.len();
        self.splines1.push(fns::Spline::Contour(f));
        ptr::Spline(n, PhantomData)
    }

    /// Adds new 2D contour of surface.
    pub fn add_contour2(&mut self, f: SurfaceRef2<T>) -> (r: SplineRef2<T>)
        ensures
            r.index() == old(self)@.splines2.len(),
            final(self)@ == (ReactorModel { splines2: old(self)@.splines2.push(fns::Spline::Contour(f)), ..old(self)@ }),
    {
        let n = self.splines2.len();
        self.splines2.push(fns::Spline::Contour(f));
        ptr::Spline(n, PhantomData)
    }

    /// Adds new 3D contour of surface.
    pub fn add_contour3(&mut self, f: SurfaceRef3<T>) -> (r: SplineRef3<T>)
        ensures
            r.index() == old(self)@.splines3.len(),
            final(self)@ == (ReactorModel { splines3: old(self)@.splines3.push(fns::Spline::Contour(f)), ..old(self)@ }),
    {
        let n = self.splines3.len();
        self.splines3.push(fns::Spline::Contour(f));
        ptr::Spline(n, PhantomData)
    }

    /// Adds new 4D contour of surface.
    pub fn add_contour4(&mut self, f: SurfaceRef4<T>) -> (r: SplineRef4<T>)
        ensures
            r.index() == old(self)@.splines4.len(),
            final(self)@ == (ReactorModel { splines4: old(self)@.splines4.push(fns::Spline::Contour(f)), ..old(self)@ }),
    {
        let n = self.splines4.len();
        self.splines4.push(fns::Spline::Contour(f));
        ptr::Spline(n, PhantomData)
    }

    /// Adds new 1D rectangle.
    pub fn add_rect1(&mut self, val: [ptr::Point1<T>; 4]) -> (r: SurfaceRef1<T>)
        ensures
            r.index() == old(self)@.surfaces1.len(),
            final(self)@ == (ReactorModel { surfaces1: old(self)@.surfaces1.push(fns::Surface::Rect(val)), ..old(self)@ }),
    {
        let n = self.surfaces1.len();
        self.surfaces1.push(fns::Surface::Rect(val));
        ptr::Surface(n, PhantomData)
    }

    /// Adds new 2D rectangle.
    pub fn add_rect2(&mut self, val: [ptr::Point2<T>; 4]) -> (r: SurfaceRef2<T>)
        ensures
            r.index() == old(self)@.surfaces2.len(),
            final(self)@ == (ReactorModel { surfaces2: old(self)@.surfaces2.push(fns::Surface::Rect(val)), ..old(self)@ }),
    {
        let n = self.surfaces2.len();
        self.surfaces2.push(fns::Surface::Rect(val));
        ptr::Surface(n, PhantomData)
    }

    /// Adds new 3D rectangle.
    pub fn add_rect3(&mut self, val: [ptr::Point3<T>; 4]) -> (r: SurfaceRef3<T>)
        ensures
            r.index() == old(self)@.surfaces3.len(),
            final(self)@ == (ReactorModel { surfaces3: old(self)@.surfaces3.push(fns::Surface::Rect(val)), ..old(self)@ }),
    {
        let n = self.surfaces3.len();
        self.surfaces3.push(fns::Surface::Rect(val));
        ptr::Surface(n, PhantomData)
    }

    /// Adds new 4D rectangle.
    pub fn add_rect4(&mut self, val: [ptr::Point4<T>; 4]) -> (r: SurfaceRef4<T>)
        ensures
            r.index() == old(self)@.surfaces4.len(),
            final(self)@ == (ReactorModel { surfaces4: old(self)@.surfaces4.push(fns::Surface::Rect(val)), ..old(self)@ }),
    {
        let n = self.surfaces4.len();
        self.surfaces4.push(fns::Surface::Rect(val));
        ptr::Surface(n, PhantomData)
    }

    /// Adds new 1D surface lerp.
    pub fn add_lerp_surface1(&mut self, a: SplineRef1<T>, b: SplineRef1<T>) -> (r: SurfaceRef1<T>)
        ensures
            r.index() == old(self)@.surfaces1.len(),
            final(self)@ == (ReactorModel { surfaces1: old(self)@.surfaces1.push(fns::Surface::Lerp(a, b)), ..old(self)@ }),
    {
        let n = self.surfaces1.len();
        self.surfaces1.push(fns::Surface::Lerp(a, b));
        ptr::Surface(n, PhantomData)
    }

    /// Adds new 2D surface lerp.
    pub fn add_lerp_surface2(&mut self, a: SplineRef2<T>, b: SplineRef2<T>) -> (r: SurfaceRef2<T>)
        ensures
            r.index() == old(self)@.surfaces2.len(),
            final(self)@ == (ReactorModel { surfaces2: old(self)@.surfaces2.push(fns::Surface::Lerp(a, b)), ..old(self)@ }),
    {
        let n = self.surfaces2.len();
        self.surfaces2.push(fns::Surface::Lerp(a, b));
        ptr::Surface(n, PhantomData)
    }

    /// Adds new 3D surface lerp.
    pub fn add_lerp_surface3(&mut self, a: SplineRef3<T>, b: SplineRef3<T>) -> (r: SurfaceRef3<T>)
        ensures
            r.index() == old(self)@.surfaces3.len(),
            final(self)@ == (ReactorModel { surfaces3: old(self)@.surfaces3.push(fns::Surface::Lerp(a, b)), ..old(self)@ }),
    {
        let n = self.surfaces3.len();
        self.surfaces3.push(fns::Surface::Lerp(a, b));
        ptr::Surface(n, PhantomData)
    }

    /// Adds new 4D surface lerp.
    pub fn add_lerp_surface4(&mut self, a: SplineRef4<T>, b: SplineRef4<T>) -> (r: SurfaceRef4<T>)
        ensures
            r.index() == old(self)@.surfaces4.len(),
            final(self)@ == (ReactorModel { surfaces4: old(self)@.surfaces4.push(fns::Surface::Lerp(a, b)), ..old(self)@ }),
    {
        let n = self.surfaces4.len();
        self.surfaces4.push(fns::Surface::Lerp(a, b));
        ptr::Surface(n, PhantomData)
    }

    /// Adds new 1D curved quad.
    pub fn add_cquad1(&mut self, smooth: ptr::Point1<T>, ab: SplineRef1<T>, cd: SplineRef1<T>, ac: SplineRef1<T>, bd: SplineRef1<T>) -> (r: SurfaceRef1<T>)
        ensures
            r.index() == old(self)@.surfaces1.len(),
            final(self)@ == (ReactorModel { surfaces1: old(self)@.surfaces1.push(fns::Surface::CurvedQuad {smooth, ab, cd, ac, bd}), ..old(self)@ }),
    {
        let n = self.surfaces1.len();
        self.surfaces1.push(fns::Surface::CurvedQuad {smooth, ab, cd, ac, bd});
        ptr::Surface(n, PhantomData)
    }

    /// Adds new 2D curved quad.
    pub fn add_cquad2(&mut self, smooth: ptr::Point1<T>, ab: SplineRef2<T>, cd: SplineRef2<T>, ac: SplineRef2<T>, bd: SplineRef2<T>) -> (r: SurfaceRef2<T>)
        ensures
            r.index() == old(self)@.surfaces2.len(),
            final(self)@ == (ReactorModel { surfaces2: old(self)@.surfaces2.push(fns::Surface::CurvedQuad {smooth, ab, cd, ac, bd}), ..old(self)@ }),
    {
        let n = self.surfaces2.len();
        self.surfaces2.push(fns::Surface::CurvedQuad {smooth, ab, cd, ac, bd});
        ptr::Surface(n, PhantomData)
    }

    /// Adds new 3D curved quad.
    pub fn add_cquad3(&mut self, smooth: ptr::Point1<T>, ab: SplineRef3<T>, cd: SplineRef3<T>, ac: SplineRef3<T>, bd: SplineRef3<T>) -> (r: SurfaceRef3<T>)
        ensures
            r.index() == old(self)@.surfaces3.len(),
            final(self)@ == (ReactorModel { surfaces3: old(self)@.surfaces3.push(fns::Surface::CurvedQuad {smooth, ab, cd, ac, bd}), ..old(self)@ }),
    {
        let n = self.surfaces3.len();
        self.surfaces3.push(fns::Surface::CurvedQuad {smooth, ab, cd, ac, bd});
        ptr::Surface(n, PhantomData)
    }

    /// Adds new 4D curved quad.
    pub fn add_cquad4(&mut self, smooth: ptr::Point1<T>, ab: SplineRef4<T>, cd: SplineRef4<T>, ac: SplineRef4<T>, bd: SplineRef4<T>) -> (r: SurfaceRef4<T>)
        ensures
            r.index() == old(self)@.surfaces4.len(),
            final(self)@ == (ReactorModel { surfaces4: old(self)@.surfaces4.push(fns::Surface::CurvedQuad {smooth, ab, cd, ac, bd}), ..old(self)@ }),
    {
        let n = self.surfaces4.len();
        self.surfaces4.push(fns::Surface::CurvedQuad {smooth, ab, cd, ac, bd});
        ptr::Surface(n, PhantomData)
    }

    /// Adds new circle in 1D (sine wave).
    pub fn add_circle1(&mut self, center: ptr::Point1<T>, radius: ptr::Point1<T>) -> (r: SurfaceRef1<T>)
        ensures
            r.index() == old(self)@.surfaces1.len(),
            final(self)@ == (ReactorModel { surfaces1: old(self)@.surfaces1.push(fns::Surface::Circle(center, radius)), ..old(self)@ }),
    {
        let n = self.surfaces1.len();
        self.surfaces1.push(fns::Surface::Circle(center, radius));
        ptr::Surface(n, PhantomData)
    }

    /// Adds new 2D circle.
    pub fn add_circle2(&mut self, center: ptr::Point2<T>, radius: ptr::Point1<T>) -> (r: SurfaceRef2<T>)
        ensures
            r.index() == old(self)@.surfaces2.len(),
            final(self)@ == (ReactorModel { surfaces2: old(self)@.surfaces2.push(fns::Surface::Circle(center, radius)), ..old(self)@ }),
    {
        let n = self.surfaces2.len();
        self.surfaces2.push(fns::Surface::Circle(center, radius));
        ptr::Surface(n, PhantomData)
    }

    /// Adds new 3D circle.
    pub fn add_circle3(&mut self, center: ptr::Point3<T>, radius: ptr::Point1<T>) -> (r: SurfaceRef3<T>)
        ensures
            r.index() == old(self)@.surfaces3.len(),
            final(self)@ == (ReactorModel { surfaces3: old(self)@.surfaces3.push(fns::Surface::Circle(center, radius)), ..old(self)@ }),
    {
        let n = self.surfaces3.len();
        self.surfaces3.push(fns::Surface::Circle(center, radius));
        ptr::Surface(n, PhantomData)
    }

    /// Adds new 4D circle.
    pub fn add_circle4(&mut self, center: ptr::Point4<T>, radius: ptr::Point1<T>) -> (r: SurfaceRef4<T>)
        ensures
            r.index() == old(self)@.surfaces4.len(),
            final(self)@ == (ReactorModel { surfaces4: old(self)@.surfaces4.push(fns::Surface::Circle(center, radius)), ..old(self)@ }),
    {
        let n = self.surfaces4.len();
        self.surfaces4.push(fns::Surface::Circle(center, radius));
        ptr::Surface(n, PhantomData)
    }

    /// Adds new lerp color.
    pub fn add_lerp_color(&mut self, a: ptr::Color, b: ptr::Color) -> (r: ptr::ColorSpline)
        ensures
            r.index() == old(self)@.color_splines.len(),
            final(self)@ == (ReactorModel { color_splines: old(self)@.color_splines.push(fns::ColorSpline::Lerp(a, b)), ..old(self)@ }),
    {
        let n = self.color_splines.len();
        self.color_splines.push(fns::ColorSpline::Lerp(a, b));
        ptr::ColorSpline(n)
    }

    /// Adds new eq bone between scalars.
    pub fn add_eq_bone1(&mut self, a: ptr::Point1<T>, b: ptr::Point1<T>, dist: ptr::Point1<T>) -> (r: BoneRef1<T>)
        ensures
            r.index() == old(self)@.bones1.len(),
            final(self)@ == (ReactorModel { bones1: old(self)@.bones1.push(fns::Bone::Eq(a, b, dist)), ..old(self)@ }),
    {
        let n = self.bones1.len();
        self.bones1.push(fns::Bone::Eq(a, b, dist));
        ptr::Bone(n, PhantomData)
    }

    /// Adds new eq bone between 2D points.
    pub fn add_eq_bone2(&mut self, a: ptr::Point2<T>, b: ptr::Point2<T>, dist: ptr::Point1<T>) -> (r: BoneRef2<T>)
        ensures
            r.index() == old(self)@.bones2.len(),
            final(self)@ == (ReactorModel { bones2: old(self)@.bones2.push(fns::Bone::Eq(a, b, dist)), ..old(self)@ }),
    {
        let n = self.bones2.len();
        self.bones2.push(fns::Bone::Eq(a, b, dist));
        ptr::Bone(n, PhantomData)
    }

    /// Adds new eq bone between 3D points.
    pub fn add_eq_bone3(&mut self, a: ptr::Point3<T>, b: ptr::Point3<T>, dist: ptr::Point1<T>) -> (r: BoneRef3<T>)
        ensures
            r.index() == old(self)@.bones3.len(),
            final(self)@ == (ReactorModel { bones3: old(self)@.bones3.push(fns::Bone::Eq(a, b, dist)), ..old(self)@ }),
    {
        let n = self.bones3.len();
        self.bones3.push(fns::Bone::Eq(a, b, dist));
        ptr::Bone(n, PhantomData)
    }

    /// Adds new eq bone between 4D points.
    pub fn add_eq_bone4(&mut self, a: ptr::Point4<T>, b: ptr::Point4<T>, dist: ptr::Point1<T>) -> (r: BoneRef4<T>)
        ensures
            r.index() == old(self)@.bones4.len(),
            final(self)@ == (ReactorModel { bones4: old(self)@.bones4.push(fns::Bone::Eq(a, b, dist)), ..old(self)@ }),
    {
        let n = self.bones4.len();
        self.bones4.push(fns::Bone::Eq(a, b, dist));
        ptr::Bone(n, PhantomData)
    }

    /// Adds new less bone between scalars.
    pub fn add_less_bone1(&mut self, a: ptr::Point1<T>, b: ptr::Point1<T>, dist: ptr::Point1<T>) -> (r: BoneRef1<T>)
        ensures
            r.index() == old(self)@.bones1.len(),
            final(self)@ == (ReactorModel { bones1: old(self)@.bones1.push(fns::Bone::Less(a, b, dist)), ..old(self)@ }),
    {
        let n = self.bones1.len();
        self.bones1.push(fns::Bone::Less(a, b, dist));
        ptr::Bone(n, PhantomData)
    }

    /// Adds new less bone between 2D vectors.
    pub fn add_less_bone2(&mut self, a: ptr::Point2<T>, b: ptr::Point2<T>, dist: ptr::Point1<T>) -> (r: BoneRef2<T>)
        ensures
            r.index() == old(self)@.bones2.len(),
            final(self)@ == (ReactorModel { bones2: old(self)@.bones2.push(fns::Bone::Less(a, b, dist)), ..old(self)@ }),
    {
        let n = self.bones2.len();
        self.bones2.push(fns::Bone::Less(a, b, dist));
        ptr::Bone(n, PhantomData)
    }

    /// Adds new less bone between 3D vectors.
    pub fn add_less_bone3(&mut self, a: ptr::Point3<T>, b: ptr::Point3<T>, dist: ptr::Point1<T>) -> (r: BoneRef3<T>)
        ensures
            r.index() == old(self)@.bones3.len(),
            final(self)@ == (ReactorModel { bones3: old(self)@.bones3.push(fns::Bone::Less(a, b, dist)), ..old(self)@ }),
    {
        let n = self.bones3.len();
        self.bones3.push(fns::Bone::Less(a, b, dist));
        ptr::Bone(n, PhantomData)
    }

    /// Adds new less bone between 4D vectors.
    pub fn add_less_bone4(&mut self, a: ptr::Point4<T>, b: ptr::Point4<T>, dist: ptr::Point1<T>) -> (r: BoneRef4<T>)
        ensures
            r.index() == old(self)@.bones4.len(),
            final(self)@ == (ReactorModel { bones4: old(self)@.bones4.push(fns::Bone::Less(a, b, dist)), ..old(self)@ }),
    {
        let n = self.bones4.len();
        self.bones4.push(fns::Bone::Less(a, b, dist));
        ptr::Bone(n, PhantomData)
    }

    /// Adds new more bone between scalars.
    pub fn add_more_bone1(&mut self, a: ptr::Point1<T>, b: ptr::Point1<T>, dist: ptr::Point1<T>) -> (r: BoneRef1<T>)
        ensures
            r.index() == old(self)@.bones1.len(),
            final(self)@ == (ReactorModel { bones1: old(self)@.bones1.push(fns::Bone::More(a, b, dist)), ..old(self)@ }),
    {
        let n = self.bones1.len();
        self.bones1.push(fns::Bone::More(a, b, dist));
        ptr::Bone(n, PhantomData)
    }

    /// Adds new more bone between 2D vectors.
    pub fn add_more_bone2(&mut self, a: ptr::Point2<T>, b: ptr::Point2<T>, dist: ptr::Point1<T>) -> (r: BoneRef2<T>)
        ensures
            r.index() == old(self)@.bones2.len(),
            final(self)@ == (ReactorModel { bones2: old(self)@.bones2.push(fns::Bone::More(a, b, dist)), ..old(self)@ }),
    {
        let n = self.bones2.len();
        self.bones2.push(fns::Bone::More(a, b, dist));
        ptr::Bone(n, PhantomData)
    }

    /// Adds new more bone between 3D vectors.
    pub fn add_more_bone3(&mut self, a: ptr::Point3<T>, b: ptr::Point3<T>, dist: ptr::Point1<T>) -> (r: BoneRef3<T>)
        ensures
            r.index() == old(self)@.bones3.len(),
            final(self)@ == (ReactorModel { bones3: old(self)@.bones3.push(fns::Bone::More(a, b, dist)), ..old(self)@ }),
    {
        let n = self.bones3.len();
        self.bones3.push(fns::Bone::More(a, b, dist));
        ptr::Bone(n, PhantomData)
    }

    /// Adds new more bone between 4D vectors.
    pub fn add_more_bone4(&mut self, a: ptr::Point4<T>, b: ptr::Point4<T>, dist: ptr::Point1<T>) -> (r: BoneRef4<T>)
        ensures
            r.index() == old(self)@.bones4.len(),
            final(self)@ == (ReactorModel { bones4: old(self)@.bones4.push(fns::Bone::More(a, b, dist)), ..old(self)@ }),
    {
        let n = self.bones4.len();
        self.bones4.push(fns::Bone::More(a, b, dist));
        ptr::Bone(n, PhantomData)
    }

    /// Adds time.
    ///
    /// Time is added once; later calls return the first pointer.
    pub fn add_time(&mut self) -> (r: ptr::Point1<T>) where T: Copy
        ensures
            time_added(old(self)@, final(self)@, r),
    {
        if let Some(id) = self.time {
            id
        } else {
            let n = self.points1.len();
            self.points1.push(fns::Point1::Time);
            self.time = Some(ptr::Point1(n, PhantomData));
            ptr::Point1(n, PhantomData)
        }
    }

    /// Adds delta time.
    ///
    /// Delta time is added once; later calls return the first pointer.
    pub fn add_dt(&mut self) -> (r: ptr::Point1<T>) where T: Copy
        ensures
            dt_added(old(self)@, final(self)@, r),
    {
        if let Some(id) = self.dt {
            id
        } else {
            let n = self.points1.len();
            self.points1.push(fns::Point1::DeltaTime);
            self.dt = Some(ptr::Point1(n, PhantomData));
            ptr::Point1(n, PhantomData)
        }
    }
}


/// How adding time changes a document: the first call appends a time node to the
/// scalars and remembers its pointer; later calls hand that pointer out again and
/// change nothing.
pub open spec fn time_added<T>(before: ReactorModel<T>, after: ReactorModel<T>, r: ptr::Point1<T>) -> bool {
    &&& before.time.is_some() ==> r == before.time.unwrap() && after == before
    &&& before.time.is_none() ==> r.index() == before.points1.len() && after == (ReactorModel {
        points1: before.points1.push(fns::Point1::Time),
        time: Some(r),
        ..before
    })
}

/// How adding delta time changes a document: the first call appends a delta time
/// node to the scalars and remembers its pointer; later calls hand that pointer out
/// again and change nothing.
pub open spec fn dt_added<T>(before: ReactorModel<T>, after: ReactorModel<T>, r: ptr::Point1<T>) -> bool {
    &&& before.dt.is_some() ==> r == before.dt.unwrap() && after == before
    &&& before.dt.is_none() ==> r.index() == before.points1.len() && after == (ReactorModel {
        points1: before.points1.push(fns::Point1::DeltaTime),
        dt: Some(r),
        ..before
    })
}

/// Whether the remembered time and delta time pointers of a document point at
/// time and delta time nodes.
pub open spec fn clock_refs_valid<T>(d: ReactorModel<T>) -> bool {
    &&& d.time matches Some(t) ==> t.index() < d.points1.len() && d.points1[t.index() as int] == fns::Point1::<T>::Time
    &&& d.dt matches Some(t) ==> t.index() < d.points1.len() && d.points1[t.index() as int] == fns::Point1::<T>::DeltaTime
}

/// Appending a node to one collection of a document and reading at the position
/// that was handed out gives the node back, and every position handed out before
/// still reads the node it read before.
pub proof fn lemma_added_node_reads_back<A>(before: Seq<A>, node: A)
    ensures
        before.push(node).len() == before.len() + 1,
        before.push(node)[before.len() as int] == node,
        forall|i: int| 0 <= i < before.len() ==> #[trigger] before.push(node)[i] == before[i],
{
}

/// Adding time twice gives the same pointer both times, and the second call leaves
/// the document as the first call left it.
pub proof fn lemma_time_added_once<T>(
    d0: ReactorModel<T>,
    d1: ReactorModel<T>,
    d2: ReactorModel<T>,
    r1: ptr::Point1<T>,
    r2: ptr::Point1<T>,
)
    requires
        time_added(d0, d1, r1),
        time_added(d1, d2, r2),
    ensures
        r1 == r2,
        d2 == d1,
{
}

/// Adding delta time twice gives the same pointer both times, and the second call
/// leaves the document as the first call left it.
pub proof fn lemma_dt_added_once<T>(
    d0: ReactorModel<T>,
    d1: ReactorModel<T>,
    d2: ReactorModel<T>,
    r1: ptr::Point1<T>,
    r2: ptr::Point1<T>,
)
    requires
        dt_added(d0, d1, r1),
        dt_added(d1, d2, r2),
    ensures
        r1 == r2,
        d2 == d1,
{
}

/// Adding time or delta time keeps the remembered pointers pointing at their
/// nodes, so the pointer handed out always reads a time or delta time node.
pub proof fn lemma_clock_refs_kept<T>(d0: ReactorModel<T>, d1: ReactorModel<T>, r: ptr::Point1<T>)
    requires
        clock_refs_valid(d0),
        time_added(d0, d1, r) || dt_added(d0, d1, r),
    ensures
        clock_refs_valid(d1),
        time_added(d0, d1, r) ==> d1.points1[r.index() as int] == fns::Point1::<T>::Time,
        dt_added(d0, d1, r) ==> d1.points1[r.index() as int] == fns::Point1::<T>::DeltaTime,
{
}

} // verus!
