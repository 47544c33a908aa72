//! Materials and the light-scattering algorithm: given an incoming ray
//! and a hit record, a material decides how the ray continues and with
//! what color attenuation.

use vstd::prelude::*;

use crate::entropy::random_in_range;
use crate::fixed::{fp_mul, in_i64, SCALE};
use crate::hit::HitRecord;
use crate::ray::Ray;
use crate::vec3::{
    dot_fp, dot_i, in_coord_range, norm2_i, v_add, v_scale_fp, v_scale_i, v_sub, Vec3, Vec3i,
};

verus! {

/// The outcome of a scatter: the outgoing ray and the multiplicative
/// color attenuation it carries.
#[derive(Clone, Copy, Debug, PartialEq, Eq, Structural)]
pub struct ScatteredRay {
    pub ray: Ray,
    pub attenuation: Vec3,
}

/// A closed set of physical surface models. Colors are conventionally
/// within [0, `SCALE`] per channel and fuzziness within [0, `SCALE`]
/// (that is, [0, 1] in world terms); the constructors store what they
/// are given without clamping.
#[derive(Clone, Copy, Debug, PartialEq, Eq, Structural)]
pub enum Material {
    /// Diffuse: bounces into a random direction around the normal.
    Lambertian { albedo: Vec3 },
    /// Specular: mirrors the incoming direction about the normal, with
    /// an optional random perturbation scaled by `fuzziness`.
    Metallic { albedo: Vec3, fuzziness: i64 },
}

/// Membership in the closed unit ball around the origin (fixed-point:
/// radius `SCALE`), with the bounding-cube bounds spelled out.
pub open spec fn in_unit_ball(p: Vec3i) -> bool {
    &&& -(SCALE as int) <= p.x <= SCALE as int
    &&& -(SCALE as int) <= p.y <= SCALE as int
    &&& -(SCALE as int) <= p.z <= SCALE as int
    &&& norm2_i(p) < (SCALE as int) * (SCALE as int)
}

/// The fixed-point mirror reflection of direction `d` about normal
/// `n`: `d - 2 * dot(d, n) * n`.
pub open spec fn reflect_fp(d: Vec3i, n: Vec3i) -> Vec3i {
    v_sub(d, v_scale_fp(2 * dot_fp(d, n), n))
}

impl Material {
    /// A diffuse material from its color channels.
    pub fn new_lambertian(r: i64, g: i64, b: i64) -> (m: Material)
        ensures
            m == (Material::Lambertian { albedo: Vec3 { x: r, y: g, z: b } }),
    {
        Material::Lambertian { albedo: Vec3::new(r, g, b) }
    }

    /// A specular material from its color channels and fuzziness.
    pub fn new_metallic(r: i64, g: i64, b: i64, fuzziness: i64) -> (m: Material)
        ensures
            m == (Material::Metallic { albedo: Vec3 { x: r, y: g, z: b }, fuzziness }),
    {
        Material::Metallic { albedo: Vec3::new(r, g, b), fuzziness }
    }

    /// Scatter an incoming ray off a surface described by `record`.
    ///
    /// Both defined variants always scatter (the `Option` shape leaves
    /// room for absorptive materials). The outgoing ray starts at the
    /// hit position; its direction is the surface normal plus a random
    /// unit-ball point for a diffuse surface, and the mirror reflection
    /// perturbed by a fuzziness-scaled random unit-ball point for a
    /// metallic one. The attenuation is the albedo, unconditionally.
    pub fn scatter(&self, ray: Ray, record: HitRecord) -> (res: Option<ScatteredRay>)
        requires
            in_coord_range(record.position@),
            in_coord_range(record.normal@),
            in_coord_range(ray.direction@),
            (*self) matches Material::Metallic { albedo, fuzziness } ==> 0 <= fuzziness
                <= SCALE,
        ensures
            res is Some,
            (*self) matches Material::Lambertian { albedo } ==> {
                &&& res->Some_0.attenuation == albedo
                &&& res->Some_0.ray.origin == record.position
                &&& exists|p: Vec3i|
                    in_unit_ball(p) && res->Some_0.ray.direction@ == v_add(record.normal@, p)
            },
            (*self) matches Material::Metallic { albedo, fuzziness } ==> {
                &&& res->Some_0.attenuation == albedo
                &&& res->Some_0.ray.origin == record.position
                &&& exists|p: Vec3i|
                    in_unit_ball(p) && res->Some_0.ray.direction@ == v_add(
                        reflect_fp(ray.direction@, record.normal@),
                        v_scale_fp(fuzziness as int, p),
                    )
                &&& fuzziness == 0 ==> res->Some_0.ray.direction@ == reflect_fp(
                    ray.direction@,
                    record.normal@,
                )
            },
    {
        match *self {
            Material::Lambertian { albedo } => {
                // Bounce target: hit position + surface normal + a
                // random point in the unit ball; the direction is the
                // target relative to the hit position.
                let sample = random_position_in_unit_sphere();
                let bounce_dir = record.position.plus(record.normal).plus(sample);
                let bounced_ray = Ray::new(record.position, bounce_dir.minus(record.position));
                proof {
                    assert(in_unit_ball(sample@) && bounced_ray.direction@ == v_add(
                        record.normal@,
                        sample@,
                    ));
                }
                Some(ScatteredRay { ray: bounced_ray, attenuation: albedo })
            },
            Material::Metallic { albedo, fuzziness } => {
                proof {
                    lemma_metallic_arith_fits(ray.direction@, record.normal@);
                }
                // Mirror the incoming direction about the normal.
                let two_dot: i64 = 2 * ray.direction().dot(record.normal);
                let reflected = ray.direction().minus(record.normal.scaled_fp(two_dot));
                // Perturb the reflection by a fuzziness-scaled random
                // point in the unit ball.
                let sample = random_position_in_unit_sphere();
                proof {
                    crate::fixed::lemma_fp_mul_contracts(
                        fuzziness as int,
                        sample@.x,
                        SCALE as int,
                    );
                    crate::fixed::lemma_fp_mul_contracts(
                        fuzziness as int,
                        sample@.y,
                        SCALE as int,
                    );
                    crate::fixed::lemma_fp_mul_contracts(
                        fuzziness as int,
                        sample@.z,
                        SCALE as int,
                    );
                }
                let fuzzy_dir = reflected.plus(sample.scaled_fp(fuzziness));
                let bounced_ray = Ray::new(record.position, fuzzy_dir);
                proof {
                    if fuzziness == 0 {
                        crate::fixed::lemma_fp_mul_zero(sample@.x);
                        crate::fixed::lemma_fp_mul_zero(sample@.y);
                        crate::fixed::lemma_fp_mul_zero(sample@.z);
                    }
                    assert(in_unit_ball(sample@) && bounced_ray.direction@ == v_add(
                        reflect_fp(ray.direction@, record.normal@),
                        v_scale_fp(fuzziness as int, sample@),
                    ));
                }
                Some(ScatteredRay { ray: bounced_ray, attenuation: albedo })
            },
        }
    }
}

/// How many draws the rejection sampler makes before it falls back to
/// the center of the ball. Each draw lands outside the ball with
/// probability below 0.48, so the fallback is astronomically rare.
const REJECTION_LIMIT: u32 = 64;

/// A random point strictly inside the unit ball, by rejection
/// sampling: draw a point with each component uniform over the
/// bounding cube [-1, 1]^3 and redraw while its squared distance from
/// the origin is at least 1.
pub fn random_position_in_unit_sphere() -> (r: Vec3)
    ensures
        in_unit_ball(r@),
{
    let mut tries: u32 = 0;
    while tries < REJECTION_LIMIT
        decreases REJECTION_LIMIT - tries,
    {
        let x = random_in_range(-SCALE, SCALE);
        let y = random_in_range(-SCALE, SCALE);
        let z = random_in_range(-SCALE, SCALE);
        proof {
            lemma_cube_norm_fits(x as int, y as int, z as int);
        }
        let n2: i64 = x * x + y * y + z * z;
        if n2 < SCALE * SCALE {
            return Vec3::new(x, y, z);
        }
        tries = tries + 1;
    }
    Vec3::zero()
}

/// Squares of cube-range components fit `i64` and bound the squared
/// norm.
proof fn lemma_cube_norm_fits(x: int, y: int, z: int)
    requires
        -(SCALE as int) <= x <= SCALE as int,
        -(SCALE as int) <= y <= SCALE as int,
        -(SCALE as int) <= z <= SCALE as int,
    ensures
        0 <= x * x <= (SCALE as int) * (SCALE as int),
        0 <= y * y <= (SCALE as int) * (SCALE as int),
        0 <= z * z <= (SCALE as int) * (SCALE as int),
{
    let s = SCALE as int;
    assert(0 <= x * x <= s * s && 0 <= y * y <= s * s && 0 <= z * z <= s * s)
        by (nonlinear_arith)
        requires
            -s <= x <= s,
            -s <= y <= s,
            -s <= z <= s,
    ;
}

/// Every intermediate of the metallic reflection formula fits `i64`
/// for inputs within the supported coordinate range.
proof fn lemma_metallic_arith_fits(d: Vec3i, n: Vec3i)
    requires
        in_coord_range(d),
        in_coord_range(n),
    ensures
        -600_000_000_000_000 <= 2 * dot_fp(d, n) <= 600_000_000_000_000,
        in_i64(fp_mul(2 * dot_fp(d, n), n.x)),
        in_i64(fp_mul(2 * dot_fp(d, n), n.y)),
        in_i64(fp_mul(2 * dot_fp(d, n), n.z)),
        -6_000_000_000_000_000_000 <= fp_mul(2 * dot_fp(d, n), n.x)
            <= 6_000_000_000_000_000_000,
        -6_000_000_000_000_000_000 <= fp_mul(2 * dot_fp(d, n), n.y)
            <= 6_000_000_000_000_000_000,
        -6_000_000_000_000_000_000 <= fp_mul(2 * dot_fp(d, n), n.z)
            <= 6_000_000_000_000_000_000,
{
    crate::vec3::lemma_dot_fp_bounded(d, n);
    let s = 2 * dot_fp(d, n);
    lemma_scale_component_fits(s, n.x);
    lemma_scale_component_fits(s, n.y);
    lemma_scale_component_fits(s, n.z);
}

/// A scalar within the doubled dot-product bound times an in-range
/// component, rescaled, stays within six quintillion.
proof fn lemma_scale_component_fits(s: int, c: int)
    requires
        -600_000_000_000_000 <= s <= 600_000_000_000_000,
        -(crate::vec3::MAX_ABS as int) <= c <= crate::vec3::MAX_ABS as int,
    ensures
        -6_000_000_000_000_000_000 <= fp_mul(s, c) <= 6_000_000_000_000_000_000,
{
    assert(-(6_000_000_000_000_000_000int * 1_000_000int) <= s * c
        <= 6_000_000_000_000_000_000int * 1_000_000int) by (nonlinear_arith)
        requires
            -600_000_000_000_000 <= s <= 600_000_000_000_000,
            -10_000_000_000 <= c <= 10_000_000_000,
    ;
    crate::fixed::lemma_div_trunc_in_bound(s * c, SCALE as int, 6_000_000_000_000_000_000int);
}

/// The reflection law behind the metallic scatter, over exact integer
/// arithmetic: reflecting `d` about `n` flips the component of `d`
/// along `n`. To avoid division, the incoming direction is scaled by
/// the common factor `dot_i(n, n)` (which is 1 for a unit normal), so
/// the law reads: the reflected direction's dot product with the
/// normal is the exact negation of the incoming one's.
pub proof fn lemma_reflection_flips_normal_component(d: Vec3i, n: Vec3i)
    ensures
        dot_i(v_sub(v_scale_i(dot_i(n, n), d), v_scale_i(2 * dot_i(d, n), n)), n) == -(dot_i(
            n,
            n,
        ) * dot_i(d, n)),
{
    let nn = dot_i(n, n);
    let dn = dot_i(d, n);
    let r = v_sub(v_scale_i(nn, d), v_scale_i(2 * dn, n));
    let a1 = d.x * n.x;
    let a2 = d.y * n.y;
    let a3 = d.z * n.z;
    let b1 = n.x * n.x;
    let b2 = n.y * n.y;
    let b3 = n.z * n.z;
    assert((nn * d.x - 2 * dn * n.x) * n.x == nn * a1 - 2 * dn * b1) by (nonlinear_arith)
        requires
            a1 == d.x * n.x,
            b1 == n.x * n.x,
    ;
    assert((nn * d.y - 2 * dn * n.y) * n.y == nn * a2 - 2 * dn * b2) by (nonlinear_arith)
        requires
            a2 == d.y * n.y,
            b2 == n.y * n.y,
    ;
    assert((nn * d.z - 2 * dn * n.z) * n.z == nn * a3 - 2 * dn * b3) by (nonlinear_arith)
        requires
            a3 == d.z * n.z,
            b3 == n.z * n.z,
    ;
    assert(nn * a1 + nn * a2 + nn * a3 == nn * dn) by (nonlinear_arith)
        requires
            dn == a1 + a2 + a3,
    ;
    assert(2 * dn * b1 + 2 * dn * b2 + 2 * dn * b3 == 2 * (dn * nn)) by (nonlinear_arith)
        requires
            nn == b1 + b2 + b3,
    ;
    assert(nn * dn == dn * nn) by (nonlinear_arith);
    assert(dot_i(r, n) == (nn * d.x - 2 * dn * n.x) * n.x + (nn * d.y - 2 * dn * n.y) * n.y + (
    nn * d.z - 2 * dn * n.z) * n.z);
}

} // verus!

