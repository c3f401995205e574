//! Pointers to higher order structures.
//!
//! A pointer is the position of a node in the collection of the reactor
//! that stores nodes of its kind.

use core::marker::PhantomData;
use vstd::prelude::*;
use vstd::std_specs::convert::FromSpecImpl;

verus! {

/// Points to bool.
#[derive(Copy, Clone, Debug, PartialEq, Eq)]
pub struct Bool(pub(crate) usize);

impl Bool {
    /// The position that the pointer holds.
    pub open(crate) spec fn index(self) -> usize {
        self.0
    }
}

impl From<usize> for Bool {
    fn from(val: usize) -> (r: Bool) {
        Bool(val)
    }
}

impl FromSpecImpl<usize> for Bool {
    open spec fn obeys_from_spec() -> bool {
        true
    }

    closed spec fn from_spec(v: usize) -> Bool {
        Bool(v)
    }
}

impl From<Bool> for usize {
    fn from(val: Bool) -> (r: usize) {
        val.0
    }
}

impl FromSpecImpl<Bool> for usize {
    open spec fn obeys_from_spec() -> bool {
        true
    }

    closed spec fn from_spec(v: Bool) -> usize {
        v.0
    }
}

/// Points to a color.
#[derive(Copy, Clone, Debug, PartialEq, Eq)]
pub struct Color(pub(crate) usize);

impl Color {
    /// The position that the pointer holds.
    pub open(crate) spec fn index(self) -> usize {
        self.0
    }
}

impl From<usize> for Color {
    fn from(val: usize) -> (r: Color) {
        Color(val)
    }
}

impl FromSpecImpl<usize> for Color {
    open spec fn obeys_from_spec() -> bool {
        true
    }

    closed spec fn from_spec(v: usize) -> Color {
        Color(v)
    }
}

impl From<Color> for usize {
    fn from(val: Color) -> (r: usize) {
        val.0
    }
}

impl FromSpecImpl<Color> for usize {
    open spec fn obeys_from_spec() -> bool {
        true
    }

    closed spec fn from_spec(v: Color) -> usize {
        v.0
    }
}

/// Points to a color spline.
#[derive(Copy, Clone, Debug, PartialEq, Eq)]
pub struct ColorSpline(pub(crate) usize);

impl ColorSpline {
    /// The position that the pointer holds.
    pub open(crate) spec fn index(self) -> usize {
        self.0
    }
}

impl From<usize> for ColorSpline {
    fn from(val: usize) -> (r: ColorSpline) {
        ColorSpline(val)
    }
}

impl FromSpecImpl<usize> for ColorSpline {
    open spec fn obeys_from_spec() -> bool {
        true
    }

    closed spec fn from_spec(v: usize) -> ColorSpline {
        ColorSpline(v)
    }
}

impl From<ColorSpline> for usize {
    fn from(val: ColorSpline) -> (r: usize) {
        val.0
    }
}

impl FromSpecImpl<ColorSpline> for usize {
    open spec fn obeys_from_spec() -> bool {
        true
    }

    closed spec fn from_spec(v: ColorSpline) -> usize {
        v.0
    }
}

/// Points to a scalar.
#[derive(Debug, PartialEq, Eq)]
pub struct Point1<T>(pub(crate) usize, pub(crate) PhantomData<T>);

impl<T> Clone for Point1<T> {
    fn clone(&self) -> (r: Self)
        ensures
            r == *self,
    {
        Point1(self.0, PhantomData)
    }
}

impl<T> Copy for Point1<T> {

}

impl<T> Point1<T> {
    /// The position that the pointer holds.
    pub open(crate) spec fn index(self) -> usize {
        self.0
    }
}

impl<T> From<usize> for Point1<T> {
    fn from(val: usize) -> (r: Point1<T>) {
        Point1(val, PhantomData)
    }
}

impl<T> FromSpecImpl<usize> for Point1<T> {
    open spec fn obeys_from_spec() -> bool {
        true
    }

    closed spec fn from_spec(v: usize) -> Point1<T> {
        Point1(v, PhantomData)
    }
}

impl<T> From<Point1<T>> for usize {
    fn from(val: Point1<T>) -> (r: usize) {
        val.0
    }
}

impl<T> FromSpecImpl<Point1<T>> for usize {
    open spec fn obeys_from_spec() -> bool {
        true
    }

    closed spec fn from_spec(v: Point1<T>) -> usize {
        v.0
    }
}

/// Points to a 2D point.
#[derive(Debug, PartialEq, Eq)]
pub struct Point2<T>(pub(crate) usize, pub(crate) PhantomData<T>);

impl<T> Clone for Point2<T> {
    fn clone(&self) -> (r: Self)
        ensures
            r == *self,
    {
        Point2(self.0, PhantomData)
    }
}

impl<T> Copy for Point2<T> {

}

impl<T> Point2<T> {
    /// The position that the pointer holds.
    pub open(crate) spec fn index(self) -> usize {
        self.0
    }
}

impl<T> From<usize> for Point2<T> {
    fn from(val: usize) -> (r: Point2<T>) {
        Point2(val, PhantomData)
    }
}

impl<T> FromSpecImpl<usize> for Point2<T> {
    open spec fn obeys_from_spec() -> bool {
        true
    }

    closed spec fn from_spec(v: usize) -> Point2<T> {
        Point2(v, PhantomData)
    }
}

impl<T> From<Point2<T>> for usize {
    fn from(val: Point2<T>) -> (r: usize) {
        val.0
    }
}

impl<T> FromSpecImpl<Point2<T>> for usize {
    open spec fn obeys_from_spec() -> bool {
        true
    }

    closed spec fn from_spec(v: Point2<T>) -> usize {
        v.0
    }
}

/// Points to a 3D point.
#[derive(Debug, PartialEq, Eq)]
pub struct Point3<T>(pub(crate) usize, pub(crate) PhantomData<T>);

impl<T> Clone for Point3<T> {
    fn clone(&self) -> (r: Self)
        ensures
            r == *self,
    {
        Point3(self.0, PhantomData)
    }
}

impl<T> Copy for Point3<T> {

}

impl<T> Point3<T> {
    /// The position that the pointer holds.
    pub open(crate) spec fn index(self) -> usize {
        self.0
    }
}

impl<T> From<usize> for Point3<T> {
    fn from(val: usize) -> (r: Point3<T>) {
        Point3(val, PhantomData)
    }
}

impl<T> FromSpecImpl<usize> for Point3<T> {
    open spec fn obeys_from_spec() -> bool {
        true
    }

    closed spec fn from_spec(v: usize) -> Point3<T> {
        Point3(v, PhantomData)
    }
}

impl<T> From<Point3<T>> for usize {
    fn from(val: Point3<T>) -> (r: usize) {
        val.0
    }
}

impl<T> FromSpecImpl<Point3<T>> for usize {
    open spec fn obeys_from_spec() -> bool {
        true
    }

    closed spec fn from_spec(v: Point3<T>) -> usize {
        v.0
    }
}

/// Points to a 4D point.
#[derive(Debug, PartialEq, Eq)]
pub struct Point4<T>(pub(crate) usize, pub(crate) PhantomData<T>);

impl<T> Clone for Point4<T> {
    fn clone(&self) -> (r: Self)
        ensures
            r == *self,
    {
        Point4(self.0, PhantomData)
    }
}

impl<T> Copy for Point4<T> {

}

impl<T> Point4<T> {
    /// The position that the pointer holds.
    pub open(crate) spec fn index(self) -> usize {
        self.0
    }
}

impl<T> From<usize> for Point4<T> {
    fn from(val: usize) -> (r: Point4<T>) {
        Point4(val, PhantomData)
    }
}

impl<T> FromSpecImpl<usize> for Point4<T> {
    open spec fn obeys_from_spec() -> bool {
        true
    }

    closed spec fn from_spec(v: usize) -> Point4<T> {
        Point4(v, PhantomData)
    }
}

impl<T> From<Point4<T>> for usize {
    fn from(val: Point4<T>) -> (r: usize) {
        val.0
    }
}

impl<T> FromSpecImpl<Point4<T>> for usize {
    open spec fn obeys_from_spec() -> bool {
        true
    }

    closed spec fn from_spec(v: Point4<T>) -> usize {
        v.0
    }
}

/// Points to a spline.
#[derive(Debug, PartialEq, Eq)]
pub struct Spline<T>(pub(crate) usize, pub(crate) PhantomData<T>);

impl<T> Clone for Spline<T> {
    fn clone(&self) -> (r: Self)
        ensures
            r == *self,
    {
        Spline(self.0, PhantomData)
    }
}

impl<T> Copy for Spline<T> {

}

impl<T> Spline<T> {
    /// The position that the pointer holds.
    pub open(crate) spec fn index(self) -> usize {
        self.0
    }
}

impl<T> From<usize> for Spline<T> {
    fn from(val: usize) -> (r: Spline<T>) {
        Spline(val, PhantomData)
    }
}

impl<T> FromSpecImpl<usize> for Spline<T> {
    open spec fn obeys_from_spec() -> bool {
        true
    }

    closed spec fn from_spec(v: usize) -> Spline<T> {
        Spline(v, PhantomData)
    }
}

impl<T> From<Spline<T>> for usize {
    fn from(val: Spline<T>) -> (r: usize) {
        val.0
    }
}

impl<T> FromSpecImpl<Spline<T>> for usize {
    open spec fn obeys_from_spec() -> bool {
        true
    }

    closed spec fn from_spec(v: Spline<T>) -> usize {
        v.0
    }
}

/// Points to a surface.
#[derive(Debug, PartialEq, Eq)]
pub struct Surface<T>(pub(crate) usize, pub(crate) PhantomData<T>);

impl<T> Clone for Surface<T> {
    fn clone(&self) -> (r: Self)
        ensures
            r == *self,
    {
        Surface(self.0, PhantomData)
    }
}

impl<T> Copy for Surface<T> {

}

impl<T> Surface<T> {
    /// The position that the pointer holds.
    pub open(crate) spec fn index(self) -> usize {
        self.0
    }
}

impl<T> From<usize> for Surface<T> {
    fn from(val: usize) -> (r: Surface<T>) {
        Surface(val, PhantomData)
    }
}

impl<T> FromSpecImpl<usize> for Surface<T> {
    open spec fn obeys_from_spec() -> bool {
        true
    }

    closed spec fn from_spec(v: usize) -> Surface<T> {
        Surface(v, PhantomData)
    }
}

impl<T> From<Surface<T>> for usize {
    fn from(val: Surface<T>) -> (r: usize) {
        val.0
    }
}

impl<T> FromSpecImpl<Surface<T>> for usize {
    open spec fn obeys_from_spec() -> bool {
        true
    }

    closed spec fn from_spec(v: Surface<T>) -> usize {
        v.0
    }
}

/// Points to a bone.
#[derive(Debug, PartialEq, Eq)]
pub struct Bone<T>(pub(crate) usize, pub(crate) PhantomData<T>);

impl<T> Clone for Bone<T> {
    fn clone(&self) -> (r: Self)
        ensures
            r == *self,
    {
        Bone(self.0, PhantomData)
    }
}

impl<T> Copy for Bone<T> {

}

impl<T> Bone<T> {
    /// The position that the pointer holds.
    pub open(crate) spec fn index(self) -> usize {
        self.0
    }
}

impl<T> From<usize> for Bone<T> {
    fn from(val: usize) -> (r: Bone<T>) {
        Bone(val, PhantomData)
    }
}

impl<T> FromSpecImpl<usize> for Bone<T> {
    open spec fn obeys_from_spec() -> bool {
        true
    }

    closed spec fn from_spec(v: usize) -> Bone<T> {
        Bone(v, PhantomData)
    }
}

impl<T> From<Bone<T>> for usize {
    fn from(val: Bone<T>) -> (r: usize) {
        val.0
    }
}

impl<T> FromSpecImpl<Bone<T>> for usize {
    open spec fn obeys_from_spec() -> bool {
        true
    }

    closed spec fn from_spec(v: Bone<T>) -> usize {
        v.0
    }
}

} // verus!
