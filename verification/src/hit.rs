//! The record a scene intersector hands back for a successful
//! ray-surface intersection. The scattering core only reads it.

use vstd::prelude::*;

use crate::vec3::Vec3;

verus! {

/// Where a ray met a surface, and the surface normal there.
#[derive(Clone, Copy, Debug, PartialEq, Eq, Structural)]
pub struct HitRecord {
    pub position: Vec3,
    pub normal: Vec3,
}

impl HitRecord {
    /// A hit record from its position and normal.
    pub fn new(position: Vec3, normal: Vec3) -> (r: HitRecord)
        ensures
            r.position == position,
            r.normal == normal,
    {
        HitRecord { position, normal }
    }
}

} // verus!
