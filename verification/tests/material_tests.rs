use ray_core::fixed::SCALE;
use ray_core::hit::HitRecord;
use ray_core::material::Material;
use ray_core::ray::Ray;
use ray_core::vec3::Vec3;

#[test]
fn lambertian_attenuation_is_always_the_albedo() {
    let m = Material::new_lambertian(800_000, 300_000, 300_000);
    let ray = Ray::new(Vec3::new(0, 0, 0), Vec3::new(0, 0, -SCALE));
    for i in 0..50i64 {
        let record = HitRecord::new(
            Vec3::new(i * 1000, -i * 2000, i * 3000),
            Vec3::new(0, SCALE, 0),
        );
        let scattered = m.scatter(ray, record).expect("lambertian always scatters");
        assert_eq!(scattered.attenuation, Vec3::new(800_000, 300_000, 300_000));
        assert_eq!(scattered.ray.origin, record.position);
    }
}

#[test]
fn lambertian_round_trip() {
    // Albedo (0.8, 0.3, 0.3), a known normal and position: the
    // scattered ray starts exactly at the hit position, the attenuation
    // is exactly the albedo, and the bounce direction differs from the
    // normal by a point strictly inside the unit ball.
    let m = Material::new_lambertian(800_000, 300_000, 300_000);
    let position = Vec3::new(SCALE, 2 * SCALE, 3 * SCALE);
    let normal = Vec3::new(0, SCALE, 0);
    let ray = Ray::new(Vec3::new(0, 0, 0), Vec3::new(SCALE, 2 * SCALE, 3 * SCALE));
    let scattered = m.scatter(ray, HitRecord::new(position, normal)).unwrap();
    assert_eq!(scattered.ray.origin, position);
    assert_eq!(scattered.attenuation, Vec3::new(800_000, 300_000, 300_000));
    let d = scattered.ray.direction;
    let px = d.x - normal.x;
    let py = d.y - normal.y;
    let pz = d.z - normal.z;
    assert!(px * px + py * py + pz * pz < SCALE * SCALE);
}

#[test]
fn metallic_zero_fuzz_is_the_exact_reflection() {
    // Incoming direction (1, -1, 0) against the upward unit normal:
    // the mirror reflection is (1, 1, 0), with no randomness injected.
    let m = Material::new_metallic(900_000, 900_000, 900_000, 0);
    let d = Vec3::new(SCALE, -SCALE, 0);
    let n = Vec3::new(0, SCALE, 0);
    let ray = Ray::new(Vec3::new(0, 0, 0), d);
    let record = HitRecord::new(Vec3::new(0, 0, 0), n);
    let scattered = m.scatter(ray, record).expect("metallic always scatters");
    assert_eq!(scattered.ray.direction, Vec3::new(SCALE, SCALE, 0));
    assert_eq!(scattered.ray.origin, Vec3::new(0, 0, 0));
    assert_eq!(scattered.attenuation, Vec3::new(900_000, 900_000, 900_000));
    // The reflection flips the normal component of the direction:
    // dot(reflected, n) == -dot(d, n).
    let r = scattered.ray.direction;
    let dot_rn = (r.x * n.x + r.y * n.y + r.z * n.z) / SCALE;
    let dot_dn = (d.x * n.x + d.y * n.y + d.z * n.z) / SCALE;
    assert_eq!(dot_rn, -dot_dn);
}

#[test]
fn metallic_zero_fuzz_is_deterministic() {
    let m = Material::new_metallic(500_000, 500_000, 500_000, 0);
    let d = Vec3::new(3 * SCALE, -2 * SCALE, SCALE);
    let n = Vec3::new(0, SCALE, 0);
    let ray = Ray::new(Vec3::new(0, 0, 0), d);
    let record = HitRecord::new(Vec3::new(SCALE, 0, -SCALE), n);
    let first = m.scatter(ray, record).unwrap();
    for _ in 0..20 {
        let again = m.scatter(ray, record).unwrap();
        assert_eq!(again, first);
    }
    // d - 2 * dot(d, n) * n with dot(d, n) == -2: (3, 2, 1).
    assert_eq!(first.ray.direction, Vec3::new(3 * SCALE, 2 * SCALE, SCALE));
}

#[test]
fn metallic_full_fuzz_perturbs_within_the_unit_ball() {
    let m = Material::new_metallic(900_000, 900_000, 900_000, SCALE);
    let d = Vec3::new(SCALE, -SCALE, 0);
    let n = Vec3::new(0, SCALE, 0);
    let ray = Ray::new(Vec3::new(0, 0, 0), d);
    let record = HitRecord::new(Vec3::new(0, 0, 0), n);
    for _ in 0..200 {
        let scattered = m.scatter(ray, record).unwrap();
        let dir = scattered.ray.direction;
        // Reflection is (1, 1, 0); full fuzz may shift each component
        // by strictly less than one unit.
        assert!((dir.x - SCALE).abs() < SCALE);
        assert!((dir.y - SCALE).abs() < SCALE);
        assert!(dir.z.abs() < SCALE);
        assert_eq!(scattered.attenuation, Vec3::new(900_000, 900_000, 900_000));
    }
}

#[test]
fn constructors_store_their_arguments() {
    match Material::new_lambertian(1, 2, 3) {
        Material::Lambertian { albedo } => assert_eq!(albedo, Vec3::new(1, 2, 3)),
        _ => panic!("wrong variant"),
    }
    match Material::new_metallic(4, 5, 6, 7) {
        Material::Metallic { albedo, fuzziness } => {
            assert_eq!(albedo, Vec3::new(4, 5, 6));
            assert_eq!(fuzziness, 7);
        }
        _ => panic!("wrong variant"),
    }
}
