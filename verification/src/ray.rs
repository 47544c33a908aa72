//! A ray: an origin point and a direction vector, immutable once
//! built. Directions are not normalized; their magnitude carries
//! through to the intersection math downstream.

use vstd::prelude::*;

use crate::vec3::Vec3;

verus! {

/// A half-line cast into the scene.
#[derive(Clone, Copy, Debug, PartialEq, Eq, Structural)]
pub struct Ray {
    pub origin: Vec3,
    pub direction: Vec3,
}

impl Ray {
    /// A ray from its origin and (unnormalized) direction.
    pub fn new(origin: Vec3, direction: Vec3) -> (r: Ray)
        ensures
            r.origin == origin,
            r.direction == direction,
    {
        Ray { origin, direction }
    }

    /// The point the ray starts from.
    pub fn origin(&self) -> (r: Vec3)
        ensures
            r == self.origin,
    {
        self.origin
    }

    /// The direction the ray points in.
    pub fn direction(&self) -> (r: Vec3)
        ensures
            r == self.direction,
    {
        self.direction
    }
}

} // verus!
