//! Three-component vectors over fixed-point scalars, used for
//! positions, directions and RGB colors alike. The mathematical model
//! of a vector is [`Vec3i`], a triple of unbounded integers.

use vstd::prelude::*;

use crate::fixed::{div_trunc, fp_mul, in_i64, mul_fp, SCALE};

verus! {

/// Largest component magnitude the scattering arithmetic supports,
/// in fixed-point subunits (ten thousand world units).
pub const MAX_ABS: i64 = 10_000_000_000;

/// A vector of three fixed-point components.
#[derive(Clone, Copy, Debug, PartialEq, Eq, Structural)]
pub struct Vec3 {
    pub x: i64,
    pub y: i64,
    pub z: i64,
}

/// The mathematical model of a [`Vec3`]: unbounded integer components,
/// still in fixed-point scale.
pub ghost struct Vec3i {
    pub x: int,
    pub y: int,
    pub z: int,
}

impl View for Vec3 {
    type V = Vec3i;

    open spec fn view(&self) -> Vec3i {
        Vec3i { x: self.x as int, y: self.y as int, z: self.z as int }
    }
}

/// Componentwise sum.
pub open spec fn v_add(a: Vec3i, b: Vec3i) -> Vec3i {
    Vec3i { x: a.x + b.x, y: a.y + b.y, z: a.z + b.z }
}

/// Componentwise difference.
pub open spec fn v_sub(a: Vec3i, b: Vec3i) -> Vec3i {
    Vec3i { x: a.x - b.x, y: a.y - b.y, z: a.z - b.z }
}

/// The vector scaled by a fixed-point factor `s`, componentwise.
pub open spec fn v_scale_fp(s: int, a: Vec3i) -> Vec3i {
    Vec3i { x: fp_mul(s, a.x), y: fp_mul(s, a.y), z: fp_mul(s, a.z) }
}

/// Exact (unscaled) dot product: the sum of the componentwise products.
pub open spec fn dot_i(a: Vec3i, b: Vec3i) -> int {
    a.x * b.x + a.y * b.y + a.z * b.z
}

/// Exact squared length, at scale `SCALE * SCALE`.
pub open spec fn norm2_i(a: Vec3i) -> int {
    dot_i(a, a)
}

/// Fixed-point dot product: exact sum of products, scaled back down
/// once with truncation toward zero.
pub open spec fn dot_fp(a: Vec3i, b: Vec3i) -> int {
    div_trunc(dot_i(a, b), SCALE as int)
}

/// The vector scaled by an exact integer factor, componentwise.
pub open spec fn v_scale_i(s: int, a: Vec3i) -> Vec3i {
    Vec3i { x: s * a.x, y: s * a.y, z: s * a.z }
}

/// The zero vector model.
pub open spec fn v_zero() -> Vec3i {
    Vec3i { x: 0, y: 0, z: 0 }
}

/// Whether every component lies within the supported coordinate range.
pub open spec fn in_coord_range(a: Vec3i) -> bool {
    &&& -(MAX_ABS as int) <= a.x <= MAX_ABS as int
    &&& -(MAX_ABS as int) <= a.y <= MAX_ABS as int
    &&& -(MAX_ABS as int) <= a.z <= MAX_ABS as int
}

impl Vec3 {
    /// A vector from its three fixed-point components.
    pub fn new(x: i64, y: i64, z: i64) -> (r: Vec3)
        ensures
            r@ == (Vec3i { x: x as int, y: y as int, z: z as int }),
    {
        Vec3 { x, y, z }
    }

    /// The origin / black color.
    pub fn zero() -> (r: Vec3)
        ensures
            r@ == v_zero(),
    {
        Vec3 { x: 0, y: 0, z: 0 }
    }

    /// Componentwise sum; the exact result must be representable.
    pub fn plus(self, o: Vec3) -> (r: Vec3)
        requires
            in_i64(self@.x + o@.x),
            in_i64(self@.y + o@.y),
            in_i64(self@.z + o@.z),
        ensures
            r@ == v_add(self@, o@),
    {
        Vec3 { x: self.x + o.x, y: self.y + o.y, z: self.z + o.z }
    }

    /// Componentwise difference; the exact result must be representable.
    pub fn minus(self, o: Vec3) -> (r: Vec3)
        requires
            in_i64(self@.x - o@.x),
            in_i64(self@.y - o@.y),
            in_i64(self@.z - o@.z),
        ensures
            r@ == v_sub(self@, o@),
    {
        Vec3 { x: self.x - o.x, y: self.y - o.y, z: self.z - o.z }
    }

    /// The vector scaled by the fixed-point factor `s`.
    pub fn scaled_fp(self, s: i64) -> (r: Vec3)
        requires
            in_i64(fp_mul(s as int, self@.x)),
            in_i64(fp_mul(s as int, self@.y)),
            in_i64(fp_mul(s as int, self@.z)),
        ensures
            r@ == v_scale_fp(s as int, self@),
    {
        Vec3 { x: mul_fp(s, self.x), y: mul_fp(s, self.y), z: mul_fp(s, self.z) }
    }

    /// Fixed-point dot product of two vectors within the supported
    /// coordinate range.
    pub fn dot(self, o: Vec3) -> (r: i64)
        requires
            in_coord_range(self@),
            in_coord_range(o@),
        ensures
            r as int == dot_fp(self@, o@),
    {
        proof {
            lemma_dot_products_bounded(self@, o@);
        }
        let px: i128 = (self.x as i128) * (o.x as i128);
        let py: i128 = (self.y as i128) * (o.y as i128);
        let pz: i128 = (self.z as i128) * (o.z as i128);
        let sum: i128 = px + py + pz;
        proof {
            crate::fixed::lemma_div_trunc_in_bound(
                sum as int,
                SCALE as int,
                300_000_000_000_000int,
            );
        }
        let q: i128 = match sum.checked_div(SCALE as i128) {
            Some(q) => q,
            None => 0,
        };
        q as i64
    }
}

/// The fixed-point dot product of vectors in the supported coordinate
/// range is itself bounded, well inside `i64`.
pub proof fn lemma_dot_fp_bounded(a: Vec3i, b: Vec3i)
    requires
        in_coord_range(a),
        in_coord_range(b),
    ensures
        -300_000_000_000_000 <= dot_fp(a, b) <= 300_000_000_000_000,
{
    lemma_dot_products_bounded(a, b);
    crate::fixed::lemma_div_trunc_in_bound(dot_i(a, b), SCALE as int, 300_000_000_000_000int);
}

/// Componentwise products of in-range vectors stay far inside `i128`,
/// and their sum divided by `SCALE` fits comfortably in `i64`.
proof fn lemma_dot_products_bounded(a: Vec3i, b: Vec3i)
    requires
        in_coord_range(a),
        in_coord_range(b),
    ensures
        -(100_000_000_000_000int * (SCALE as int)) <= a.x * b.x
            <= 100_000_000_000_000int * (SCALE as int),
        -(100_000_000_000_000int * (SCALE as int)) <= a.y * b.y
            <= 100_000_000_000_000int * (SCALE as int),
        -(100_000_000_000_000int * (SCALE as int)) <= a.z * b.z
            <= 100_000_000_000_000int * (SCALE as int),
        -(300_000_000_000_000int * (SCALE as int)) <= dot_i(a, b)
            <= 300_000_000_000_000int * (SCALE as int),
{
    let m = MAX_ABS as int;
    assert(-(100_000_000_000_000int * 1_000_000int) <= a.x * b.x
        <= 100_000_000_000_000int * 1_000_000int) by (nonlinear_arith)
        requires
            -m <= a.x <= m,
            -m <= b.x <= m,
            m == 10_000_000_000int,
    ;
    assert(-(100_000_000_000_000int * 1_000_000int) <= a.y * b.y
        <= 100_000_000_000_000int * 1_000_000int) by (nonlinear_arith)
        requires
            -m <= a.y <= m,
            -m <= b.y <= m,
            m == 10_000_000_000int,
    ;
    assert(-(100_000_000_000_000int * 1_000_000int) <= a.z * b.z
        <= 100_000_000_000_000int * 1_000_000int) by (nonlinear_arith)
        requires
            -m <= a.z <= m,
            -m <= b.z <= m,
            m == 10_000_000_000int,
    ;
}

} // verus!
