//! A type safe, dynamic, functional reactive document for geometry.
//!
//! All data is stored in memory by their function type.
//! This means one function can reference another function using an index,
//! while keeping type safety at compile time.
//!
//! Objects are created by combining functions.

pub mod ptr;
pub mod fns;
pub mod add;
pub mod index;
pub mod selection;
pub mod cache;
pub mod physics;

use vstd::prelude::*;

verus! {

/// Spline for scalars.
pub type Spline1<T> = fns::Spline<ptr::Point1<T>, T>;
/// Spline for 2D.
pub type Spline2<T> = fns::Spline<ptr::Point2<T>, T>;
/// Spline for 3D.
pub type Spline3<T> = fns::Spline<ptr::Point3<T>, T>;
/// Spline for 4D.
pub type Spline4<T> = fns::Spline<ptr::Point4<T>, T>;

/// Spline reference for scalar.
pub type SplineRef1<T> = ptr::Spline<ptr::Point1<T>>;
/// Spline reference for 2D.
pub type SplineRef2<T> = ptr::Spline<ptr::Point2<T>>;
/// Spline reference for 3D.
pub type SplineRef3<T> = ptr::Spline<ptr::Point3<T>>;
/// Spline reference for 4D.
pub type SplineRef4<T> = ptr::Spline<ptr::Point4<T>>;

/// Surface for 1D.
pub type Surface1<T> = fns::Surface<ptr::Point1<T>, T>;
/// Surface for 2D.
pub type Surface2<T> = fns::Surface<ptr::Point2<T>, T>;
/// Surface for 3D.
pub type Surface3<T> = fns::Surface<ptr::Point3<T>, T>;
/// Surface for 4D.
pub type Surface4<T> = fns::Surface<ptr::Point4<T>, T>;

/// Surface reference for scalar.
pub type SurfaceRef1<T> = ptr::Surface<ptr::Point1<T>>;
/// Surface reference for 2D.
pub type SurfaceRef2<T> = ptr::Surface<ptr::Point2<T>>;
/// Surface reference for 3D.
pub type SurfaceRef3<T> = ptr::Surface<ptr::Point3<T>>;
/// Surface reference for 4D.
pub type SurfaceRef4<T> = ptr::Surface<ptr::Point4<T>>;

/// Bone for 1D.
pub type Bone1<T> = fns::Bone<ptr::Point1<T>, T>;
/// Bone for 2D.
pub type Bone2<T> = fns::Bone<ptr::Point2<T>, T>;
/// Bone for 3D.
pub type Bone3<T> = fns::Bone<ptr::Point3<T>, T>;
/// Bone for 4D.
pub type Bone4<T> = fns::Bone<ptr::Point4<T>, T>;

/// Bone reference for 1D.
pub type BoneRef1<T> = ptr::Bone<ptr::Point1<T>>;
/// Bone reference for 2D.
pub type BoneRef2<T> = ptr::Bone<ptr::Point2<T>>;
/// Bone reference for 3D.
pub type BoneRef3<T> = ptr::Bone<ptr::Point3<T>>;
/// Bone reference for 4D.
pub type BoneRef4<T> = ptr::Bone<ptr::Point4<T>>;

/// Stores data for an reactive document.
pub struct Reactor<T> {
    /// Stores bools.
    pub bools: Vec<fns::Bool<T>>,
    /// Stores scalars.
    pub points1: Vec<fns::Point1<T>>,
    /// Stores 2D points.
    pub points2: Vec<fns::Point2<T>>,
    /// Stores 3D points.
    pub points3: Vec<fns::Point3<T>>,
    /// Stores 4D points.
    pub points4: Vec<fns::Point4<T>>,
    /// Stores splines for scalars.
    pub splines1: Vec<Spline1<T>>,
    /// Stores splines for 2D points.
    pub splines2: Vec<Spline2<T>>,
    /// Stores splines for 3D points.
    pub splines3: Vec<Spline3<T>>,
    /// Stores splines for 4D points.
    pub splines4: Vec<Spline4<T>>,
    /// Stores surface for 1D.
    pub surfaces1: Vec<Surface1<T>>,
    /// Stores surfaces for 2D.
    pub surfaces2: Vec<Surface2<T>>,
    /// Stores surfaces for 3D.
    pub surfaces3: Vec<Surface3<T>>,
    /// Stores surface for 4D.
    pub surfaces4: Vec<Surface4<T>>,
    /// Stores colors.
    pub colors: Vec<fns::Color<T>>,
    /// Stores color splines.
    pub color_splines: Vec<fns::ColorSpline>,
    /// Stores bones between scalars.
    pub bones1: Vec<Bone1<T>>,
    /// Stores bones between 2D points.
    pub bones2: Vec<Bone2<T>>,
    /// Stores bones between 3D points.
    pub bones3: Vec<Bone3<T>>,
    /// Stores bones between 4D points.
    pub bones4: Vec<Bone4<T>>,
    /// Refers to time for reuse.
    /// This is also used to detect whether document is animated.
    pub time: Option<ptr::Point1<T>>,
    /// Refers to delta time.
    /// This is also used to detect whether document is moving.
    pub dt: Option<ptr::Point1<T>>,
}

/// The contents of a reactive document: one sequence of nodes per kind.
pub struct ReactorModel<T> {
    /// Stores bools.
    pub bools: Seq<fns::Bool<T>>,
    /// Stores scalars.
    pub points1: Seq<fns::Point1<T>>,
    /// Stores 2D points.
    pub points2: Seq<fns::Point2<T>>,
    /// Stores 3D points.
    pub points3: Seq<fns::Point3<T>>,
    /// Stores 4D points.
    pub points4: Seq<fns::Point4<T>>,
    /// Stores splines for scalars.
    pub splines1: Seq<Spline1<T>>,
    /// Stores splines for 2D points.
    pub splines2: Seq<Spline2<T>>,
    /// Stores splines for 3D points.
    pub splines3: Seq<Spline3<T>>,
    /// Stores splines for 4D points.
    pub splines4: Seq<Spline4<T>>,
    /// Stores surface for 1D.
    pub surfaces1: Seq<Surface1<T>>,
    /// Stores surfaces for 2D.
    pub surfaces2: Seq<Surface2<T>>,
    /// Stores surfaces for 3D.
    pub surfaces3: Seq<Surface3<T>>,
    /// Stores surface for 4D.
    pub surfaces4: Seq<Surface4<T>>,
    /// Stores colors.
    pub colors: Seq<fns::Color<T>>,
    /// Stores color splines.
    pub color_splines: Seq<fns::ColorSpline>,
    /// Stores bones between scalars.
    pub bones1: Seq<Bone1<T>>,
    /// Stores bones between 2D points.
    pub bones2: Seq<Bone2<T>>,
    /// Stores bones between 3D points.
    pub bones3: Seq<Bone3<T>>,
    /// Stores bones between 4D points.
    pub bones4: Seq<Bone4<T>>,
    /// Refers to time for reuse.
    pub time: Option<ptr::Point1<T>>,
    /// Refers to delta time.
    pub dt: Option<ptr::Point1<T>>,
}

impl<T> View for Reactor<T> {
    type V = ReactorModel<T>;

    open spec fn view(&self) -> ReactorModel<T> {
        ReactorModel {
            bools: self.bools@,
            points1: self.points1@,
            points2: self.points2@,
            points3: self.points3@,
            points4: self.points4@,
            splines1: self.splines1@,
            splines2: self.splines2@,
            splines3: self.splines3@,
            splines4: self.splines4@,
            surfaces1: self.surfaces1@,
            surfaces2: self.surfaces2@,
            surfaces3: self.surfaces3@,
            surfaces4: self.surfaces4@,
            colors: self.colors@,
            color_splines: self.color_splines@,
            bones1: self.bones1@,
            bones2: self.bones2@,
            bones3: self.bones3@,
            bones4: self.bones4@,
            time: self.time,
            dt: self.dt,
        }
    }
}

impl<T> Reactor<T> {
    /// Creates a new `Reactor`.
    pub fn new() -> (r: Reactor<T>)
        ensures
            r@.bools.len() == 0,
            r@.points1.len() == 0,
            r@.points2.len() == 0,
            r@.points3.len() == 0,
            r@.points4.len() == 0,
            r@.splines1.len() == 0,
            r@.splines2.len() == 0,
            r@.splines3.len() == 0,
            r@.splines4.len() == 0,
            r@.surfaces1.len() == 0,
            r@.surfaces2.len() == 0,
            r@.surfaces3.len() == 0,
            r@.surfaces4.len() == 0,
            r@.colors.len() == 0,
            r@.color_splines.len() == 0,
            r@.bones1.len() == 0,
            r@.bones2.len() == 0,
            r@.bones3.len() == 0,
            r@.bones4.len() == 0,
            r@.time.is_none(),
            r@.dt.is_none(),
    {
        Reactor {
            bools: Vec::new(),
            points1: Vec::new(),
            points2: Vec::new(),
            points3: Vec::new(),
            points4: Vec::new(),
            splines1: Vec::new(),
            splines2: Vec::new(),
            splines3: Vec::new(),
            splines4: Vec::new(),
            surfaces1: Vec::new(),
            surfaces2: Vec::new(),
            surfaces3: Vec::new(),
            surfaces4: Vec::new(),
            colors: Vec::new(),
            color_splines: Vec::new(),
            bones1: Vec::new(),
            bones2: Vec::new(),
            bones3: Vec::new(),
            bones4: Vec::new(),
            time: None,
            dt: None,
        }
    }
}

} // verus!
