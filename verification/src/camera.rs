//! The camera: turns normalized 2D image-plane coordinates into
//! world-space rays from a fixed eye position.
//!
//! The image plane sits one world unit in front of the eye along the
//! depth axis, two world units tall; only its width adapts to the
//! aspect ratio (an intentional simplification). The focal point's x
//! and y components are validated and stored but take no part in ray
//! generation.

use vstd::prelude::*;

use crate::fixed::{fp_mul, in_i64, mul_fp_wide, SCALE};
use crate::ray::Ray;
use crate::vec3::{v_add, v_scale_fp, v_sub, v_zero, Vec3, Vec3i};

verus! {

/// Largest representable aspect-corrected half-width of the image
/// plane: the width of a plane `u32::MAX` pixels wide and one tall.
pub const MAX_WIDTH: i64 = 0xffff_ffff * 1_000_000;

/// The mathematical model of a camera: the eye position, the stored
/// focal-point descriptor, and the precomputed image-plane rectangle.
pub ghost struct CameraV {
    pub position: Vec3i,
    pub focal_point: Vec3i,
    pub lower_left_corner: Vec3i,
    pub horizontal_scale: Vec3i,
    pub vertical_scale: Vec3i,
}

/// Creates rays oriented from the eye toward points of the image
/// plane. Immutable once constructed.
pub struct Camera {
    position: Vec3,
    focal_point: Vec3,
    lower_left_corner: Vec3,
    horizontal_scale: Vec3,
    vertical_scale: Vec3,
}

impl View for Camera {
    type V = CameraV;

    closed spec fn view(&self) -> CameraV {
        CameraV {
            position: self.position@,
            focal_point: self.focal_point@,
            lower_left_corner: self.lower_left_corner@,
            horizontal_scale: self.horizontal_scale@,
            vertical_scale: self.vertical_scale@,
        }
    }
}

/// The aspect-corrected half-width of the image plane: the resolution
/// ratio in fixed point, rounded down.
pub open spec fn aspect_width(res_x: int, res_y: int) -> int
    recommends
        res_y >= 1,
{
    (res_x * (SCALE as int)) / res_y
}

/// A focal point is acceptable when its depth (z) is strictly positive
/// and its normalized x and y offsets lie strictly inside (-1, 1).
pub open spec fn focal_point_valid(f: Vec3i) -> bool {
    &&& f.z > 0
    &&& -(SCALE as int) < f.x < SCALE as int
    &&& -(SCALE as int) < f.y < SCALE as int
}

/// The camera a construction with the given inputs must produce: eye
/// at the origin, plane two units tall, width set by the aspect ratio.
pub open spec fn camera_model(res_x: int, res_y: int, f: Vec3i) -> CameraV {
    CameraV {
        position: v_zero(),
        focal_point: f,
        lower_left_corner: Vec3i {
            x: -aspect_width(res_x, res_y),
            y: -(SCALE as int),
            z: -(SCALE as int),
        },
        horizontal_scale: Vec3i { x: 2 * aspect_width(res_x, res_y), y: 0, z: 0 },
        vertical_scale: Vec3i { x: 0, y: 2 * (SCALE as int), z: 0 },
    }
}

/// The structural facts every constructed camera satisfies.
pub open spec fn camera_wf(c: CameraV) -> bool {
    &&& c.position == v_zero()
    &&& c.vertical_scale == (Vec3i { x: 0, y: 2 * (SCALE as int), z: 0 })
    &&& c.horizontal_scale.y == 0
    &&& c.horizontal_scale.z == 0
    &&& 0 <= c.horizontal_scale.x <= 2 * (MAX_WIDTH as int)
    &&& 2 * c.lower_left_corner.x == -c.horizontal_scale.x
    &&& c.lower_left_corner.y == -(SCALE as int)
    &&& c.lower_left_corner.z == -(SCALE as int)
    &&& focal_point_valid(c.focal_point)
}

/// The point of the image plane addressed by plane coordinates
/// `(u, v)`: the lower-left corner plus the scaled extent vectors.
pub open spec fn ray_target(c: CameraV, u: int, v: int) -> Vec3i {
    v_add(
        v_add(c.lower_left_corner, v_scale_fp(u, c.horizontal_scale)),
        v_scale_fp(v, c.vertical_scale),
    )
}

/// Representability of one component of the ray computation: the
/// scaled extents and every partial sum stay inside `i64`.
pub open spec fn coord_fits(ll: int, h: int, vv: int, pos: int, u: int, v: int) -> bool {
    &&& in_i64(fp_mul(u, h))
    &&& in_i64(fp_mul(v, vv))
    &&& in_i64(ll + fp_mul(u, h))
    &&& in_i64(ll + fp_mul(u, h) + fp_mul(v, vv))
    &&& in_i64(ll + fp_mul(u, h) + fp_mul(v, vv) - pos)
}

/// Representability of the whole ray computation at `(u, v)`.
pub open spec fn ray_coords_fit(c: CameraV, u: int, v: int) -> bool {
    &&& coord_fits(
        c.lower_left_corner.x,
        c.horizontal_scale.x,
        c.vertical_scale.x,
        c.position.x,
        u,
        v,
    )
    &&& coord_fits(
        c.lower_left_corner.y,
        c.horizontal_scale.y,
        c.vertical_scale.y,
        c.position.y,
        u,
        v,
    )
    &&& coord_fits(
        c.lower_left_corner.z,
        c.horizontal_scale.z,
        c.vertical_scale.z,
        c.position.z,
        u,
        v,
    )
}

impl Camera {
    /// A camera for a `res_x` by `res_y` pixel plane and the given
    /// focal-point descriptor. Callers must validate the focal point
    /// (strictly positive depth, offsets strictly inside (-1, 1)) and
    /// the resolutions before construction; `try_new` does so itself.
    pub fn new(res_x: u32, res_y: u32, focal_point: Vec3) -> (c: Camera)
        requires
            res_x >= 1,
            res_y >= 1,
            focal_point_valid(focal_point@),
        ensures
            c@ == camera_model(res_x as int, res_y as int, focal_point@),
            camera_wf(c@),
    {
        proof {
            assert((res_x as int) * (SCALE as int) <= 0xffff_ffff * 1_000_000)
                by (nonlinear_arith)
                requires
                    0 <= res_x <= 0xffff_ffffu32,
                    SCALE == 1_000_000,
            ;
            assert(0 <= (res_x as int) * (SCALE as int)) by (nonlinear_arith)
                requires
                    res_x >= 0,
                    SCALE == 1_000_000,
            ;
        }
        let w: u64 = (res_x as u64) * (SCALE as u64) / (res_y as u64);
        proof {
            vstd::arithmetic::div_mod::lemma_div_nonincreasing(
                (res_x as int) * (SCALE as int),
                res_y as int,
            );
            vstd::arithmetic::div_mod::lemma_div_pos_is_pos(
                (res_x as int) * (SCALE as int),
                res_y as int,
            );
            assert(0 <= w <= MAX_WIDTH);
        }
        let width: i64 = w as i64;
        Camera {
            position: Vec3::zero(),
            focal_point,
            lower_left_corner: Vec3::new(-width, -SCALE, -SCALE),
            horizontal_scale: Vec3::new(2 * width, 0, 0),
            vertical_scale: Vec3::new(0, 2 * SCALE, 0),
        }
    }

    /// The checked constructor: `Some` exactly when the resolutions
    /// are positive and the focal point is acceptable.
    pub fn try_new(res_x: u32, res_y: u32, focal_point: Vec3) -> (r: Option<Camera>)
        ensures
            r is Some <==> res_x >= 1 && res_y >= 1 && focal_point_valid(focal_point@),
            r matches Some(c) ==> c@ == camera_model(res_x as int, res_y as int, focal_point@)
                && camera_wf(c@),
    {
        if res_x >= 1 && res_y >= 1 && focal_point.z > 0 && -SCALE < focal_point.x
            && focal_point.x < SCALE && -SCALE < focal_point.y && focal_point.y < SCALE {
            Some(Self::new(res_x, res_y, focal_point))
        } else {
            None
        }
    }

    /// The ray from the eye toward the plane point at `(u, v)`: 0 is
    /// the left/bottom edge and `SCALE` (one) the right/top edge, and
    /// values outside [0, 1] extrapolate. The direction is the target
    /// point minus the eye, not normalized.
    pub fn get_ray_at_coords(&self, horizontal_offset: i64, vertical_offset: i64) -> (r: Ray)
        requires
            ray_coords_fit(self@, horizontal_offset as int, vertical_offset as int),
        ensures
            r.origin@ == self@.position,
            r.direction@ == v_sub(
                ray_target(self@, horizontal_offset as int, vertical_offset as int),
                self@.position,
            ),
    {
        let destination = self
            .lower_left_corner
            .plus(self.horizontal_scale.scaled_fp(horizontal_offset))
            .plus(self.vertical_scale.scaled_fp(vertical_offset))
            .minus(self.position);
        Ray::new(self.position, destination)
    }

    /// The checked ray: `Some` exactly when the computation at
    /// `(u, v)` is representable.
    pub fn get_ray_at_coords_checked(&self, horizontal_offset: i64, vertical_offset: i64) -> (r:
        Option<Ray>)
        ensures
            r is Some <==> ray_coords_fit(
                self@,
                horizontal_offset as int,
                vertical_offset as int,
            ),
            r matches Some(ray) ==> ray.origin@ == self@.position && ray.direction@ == v_sub(
                ray_target(self@, horizontal_offset as int, vertical_offset as int),
                self@.position,
            ),
    {
        let fits_x = coord_fits_exec(
            self.lower_left_corner.x,
            self.horizontal_scale.x,
            self.vertical_scale.x,
            self.position.x,
            horizontal_offset,
            vertical_offset,
        );
        let fits_y = coord_fits_exec(
            self.lower_left_corner.y,
            self.horizontal_scale.y,
            self.vertical_scale.y,
            self.position.y,
            horizontal_offset,
            vertical_offset,
        );
        let fits_z = coord_fits_exec(
            self.lower_left_corner.z,
            self.horizontal_scale.z,
            self.vertical_scale.z,
            self.position.z,
            horizontal_offset,
            vertical_offset,
        );
        if fits_x && fits_y && fits_z {
            Some(self.get_ray_at_coords(horizontal_offset, vertical_offset))
        } else {
            None
        }
    }

    /// The eye position.
    pub fn position(&self) -> (r: Vec3)
        ensures
            r@ == self@.position,
    {
        self.position
    }

    /// The stored focal-point descriptor.
    pub fn focal_point(&self) -> (r: Vec3)
        ensures
            r@ == self@.focal_point,
    {
        self.focal_point
    }

    /// The lower-left corner of the image plane.
    pub fn lower_left_corner(&self) -> (r: Vec3)
        ensures
            r@ == self@.lower_left_corner,
    {
        self.lower_left_corner
    }

    /// The horizontal extent vector of the image plane.
    pub fn horizontal_scale(&self) -> (r: Vec3)
        ensures
            r@ == self@.horizontal_scale,
    {
        self.horizontal_scale
    }

    /// The vertical extent vector of the image plane.
    pub fn vertical_scale(&self) -> (r: Vec3)
        ensures
            r@ == self@.vertical_scale,
    {
        self.vertical_scale
    }
}

/// Decides `coord_fits` for one component, computing in `i128` where
/// the `i64` computation could wrap.
fn coord_fits_exec(ll: i64, h: i64, vv: i64, pos: i64, u: i64, v: i64) -> (b: bool)
    ensures
        b == coord_fits(ll as int, h as int, vv as int, pos as int, u as int, v as int),
{
    proof {
        crate::fixed::lemma_fp_mul_wide_bound(u as int, h as int);
        crate::fixed::lemma_fp_mul_wide_bound(v as int, vv as int);
    }
    let t1: i128 = mul_fp_wide(u, h);
    let t2: i128 = mul_fp_wide(v, vv);
    let s1: i128 = (ll as i128) + t1;
    let s2: i128 = s1 + t2;
    let s3: i128 = s2 - (pos as i128);
    let lo: i128 = i64::MIN as i128;
    let hi: i128 = i64::MAX as i128;
    lo <= t1 && t1 <= hi && lo <= t2 && t2 <= hi && lo <= s1 && s1 <= hi && lo <= s2 && s2
        <= hi && lo <= s3 && s3 <= hi
}

/// A camera's rays pass through the image plane's corners: the target
/// at offsets (0, 0) is the lower-left corner, and at (1, 1) — fixed
/// point: (`SCALE`, `SCALE`) — it is the lower-left corner plus the
/// horizontal and vertical extents. Combined with the contract of
/// `get_ray_at_coords` (direction = target - eye), the corner rays
/// reach those corners exactly at parameter one.
pub proof fn lemma_corner_rays_hit_corners(c: CameraV, r00: Ray, r11: Ray)
    requires
        r00.origin@ == c.position,
        r00.direction@ == v_sub(ray_target(c, 0, 0), c.position),
        r11.origin@ == c.position,
        r11.direction@ == v_sub(ray_target(c, SCALE as int, SCALE as int), c.position),
    ensures
        v_add(r00.origin@, r00.direction@) == c.lower_left_corner,
        v_add(r11.origin@, r11.direction@) == v_add(
            v_add(c.lower_left_corner, c.horizontal_scale),
            c.vertical_scale,
        ),
{
    lemma_corner_rays(c);
}

/// The targets behind the corner rays: the plane point addressed by
/// (0, 0) is the lower-left corner itself, and the one addressed by
/// (1, 1) is the corner plus both extents.
pub proof fn lemma_corner_rays(c: CameraV)
    ensures
        ray_target(c, 0, 0) == c.lower_left_corner,
        ray_target(c, SCALE as int, SCALE as int) == v_add(
            v_add(c.lower_left_corner, c.horizontal_scale),
            c.vertical_scale,
        ),
{
    crate::fixed::lemma_fp_mul_zero(c.horizontal_scale.x);
    crate::fixed::lemma_fp_mul_zero(c.horizontal_scale.y);
    crate::fixed::lemma_fp_mul_zero(c.horizontal_scale.z);
    crate::fixed::lemma_fp_mul_zero(c.vertical_scale.x);
    crate::fixed::lemma_fp_mul_zero(c.vertical_scale.y);
    crate::fixed::lemma_fp_mul_zero(c.vertical_scale.z);
    crate::fixed::lemma_fp_mul_one(c.horizontal_scale.x);
    crate::fixed::lemma_fp_mul_one(c.horizontal_scale.y);
    crate::fixed::lemma_fp_mul_one(c.horizontal_scale.z);
    crate::fixed::lemma_fp_mul_one(c.vertical_scale.x);
    crate::fixed::lemma_fp_mul_one(c.vertical_scale.y);
    crate::fixed::lemma_fp_mul_one(c.vertical_scale.z);
}

} // verus!

