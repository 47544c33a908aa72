//! Core of a path-tracing renderer: a camera that turns normalized
//! image-plane coordinates into world-space rays, and materials that
//! scatter rays off surfaces with a color attenuation.
//!
//! All geometry and colors are carried in exact fixed-point arithmetic
//! (`i64` components, [`fixed::SCALE`] subunits per world unit), so every
//! formula in the core is stated and proved exactly.

pub mod camera;
mod entropy;
pub mod fixed;
pub mod hit;
pub mod material;
pub mod ray;
pub mod vec3;
