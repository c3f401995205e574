//! Selection and locking of control points.

use vstd::prelude::*;

use crate::reactive::ptr;

verus! {

/// Stores selection state.
pub struct Selection<T> {
    /// Selected scalars.
    pub selected1: Vec<ptr::Point1<T>>,
    /// Selected 2D vectors.
    pub selected2: Vec<ptr::Point2<T>>,
    /// Selected 3D vectors.
    pub selected3: Vec<ptr::Point3<T>>,
    /// Selected 4D vectors.
    pub selected4: Vec<ptr::Point3<T>>,
    /// Locked scalars.
    pub locked1: Vec<ptr::Point1<T>>,
    /// Locked 2D vectors.
    pub locked2: Vec<ptr::Point2<T>>,
    /// Locked 3D vectors.
    pub locked3: Vec<ptr::Point3<T>>,
    /// Locked 4D vectors.
    pub locked4: Vec<ptr::Point4<T>>,
}

impl<T> Selection<T> {
    /// Creates a new empty selection.
    pub fn new() -> (r: Selection<T>)
        ensures
            r.selected1@.len() == 0,
            r.selected2@.len() == 0,
            r.selected3@.len() == 0,
            r.selected4@.len() == 0,
            r.locked1@.len() == 0,
            r.locked2@.len() == 0,
            r.locked3@.len() == 0,
            r.locked4@.len() == 0,
    {
        Selection {
            selected1: Vec::new(),
            selected2: Vec::new(),
            selected3: Vec::new(),
            selected4: Vec::new(),
            locked1: Vec::new(),
            locked2: Vec::new(),
            locked3: Vec::new(),
            locked4: Vec::new(),
        }
    }
}

} // verus!
