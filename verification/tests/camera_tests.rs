use ray_core::camera::Camera;
use ray_core::fixed::SCALE;
use ray_core::vec3::Vec3;

#[test]
fn rays_pass_through_plane_corners() {
    let cam = Camera::new(100, 100, Vec3::new(0, 0, SCALE));
    // Square aspect: plane from (-1, -1, -1) to (1, 1, -1), eye at origin.
    let r00 = cam.get_ray_at_coords(0, 0);
    assert_eq!(r00.origin, Vec3::new(0, 0, 0));
    assert_eq!(r00.direction, Vec3::new(-SCALE, -SCALE, -SCALE));
    assert_eq!(r00.direction, cam.lower_left_corner());

    let r11 = cam.get_ray_at_coords(SCALE, SCALE);
    assert_eq!(r11.origin, Vec3::new(0, 0, 0));
    assert_eq!(r11.direction, Vec3::new(SCALE, SCALE, -SCALE));
    let ll = cam.lower_left_corner();
    let h = cam.horizontal_scale();
    let v = cam.vertical_scale();
    let upper_right = Vec3::new(ll.x + h.x + v.x, ll.y + h.y + v.y, ll.z + h.z + v.z);
    assert_eq!(r11.direction, upper_right);
}

#[test]
fn aspect_corrected_width_matches_resolution_ratio() {
    // 400 x 200 pixels: aspect ratio 2.0, so the plane runs from
    // x = -2.0 to x = 2.0 and the horizontal extent is 4.0.
    let cam = Camera::new(400, 200, Vec3::new(0, 0, SCALE));
    assert_eq!(cam.horizontal_scale(), Vec3::new(4 * SCALE, 0, 0));
    assert_eq!(cam.lower_left_corner(), Vec3::new(-2 * SCALE, -SCALE, -SCALE));
    assert_eq!(cam.vertical_scale(), Vec3::new(0, 2 * SCALE, 0));
    assert_eq!(cam.position(), Vec3::new(0, 0, 0));
}

#[test]
fn focal_point_is_stored_unchanged() {
    let f = Vec3::new(250_000, -250_000, 3 * SCALE);
    let cam = Camera::new(640, 480, f);
    assert_eq!(cam.focal_point(), f);
}

#[test]
fn construction_contract_on_focal_depth() {
    // Depth 0.0 and -1.0 violate the construction contract; 0.5 is fine.
    assert!(Camera::try_new(400, 200, Vec3::new(0, 0, 0)).is_none());
    assert!(Camera::try_new(400, 200, Vec3::new(0, 0, -SCALE)).is_none());
    assert!(Camera::try_new(400, 200, Vec3::new(0, 0, SCALE / 2)).is_some());
}

#[test]
fn construction_contract_on_offsets_and_resolution() {
    // Offsets must lie strictly inside (-1, 1).
    assert!(Camera::try_new(400, 200, Vec3::new(SCALE, 0, SCALE)).is_none());
    assert!(Camera::try_new(400, 200, Vec3::new(0, -SCALE, SCALE)).is_none());
    assert!(Camera::try_new(400, 200, Vec3::new(SCALE - 1, 1 - SCALE, SCALE)).is_some());
    // Resolutions must be positive.
    assert!(Camera::try_new(0, 200, Vec3::new(0, 0, SCALE)).is_none());
    assert!(Camera::try_new(400, 0, Vec3::new(0, 0, SCALE)).is_none());
}

#[test]
fn out_of_range_offsets_extrapolate() {
    // Offsets outside [0, 1] are not clamped: u = 2.0 lands one full
    // plane width right of the lower-left corner times two.
    let cam = Camera::new(100, 100, Vec3::new(0, 0, SCALE));
    let r = cam.get_ray_at_coords(2 * SCALE, -SCALE);
    assert_eq!(r.direction, Vec3::new(-SCALE + 4 * SCALE, -SCALE - 2 * SCALE, -SCALE));
}

#[test]
fn checked_ray_agrees_and_rejects_unrepresentable() {
    let cam = Camera::new(400, 200, Vec3::new(0, 0, SCALE));
    let checked = cam.get_ray_at_coords_checked(SCALE / 2, SCALE / 4).unwrap();
    let plain = cam.get_ray_at_coords(SCALE / 2, SCALE / 4);
    assert_eq!(checked, plain);
    // A gigantic offset overflows the 64-bit plane coordinates.
    assert!(cam.get_ray_at_coords_checked(i64::MAX, 0).is_none());
}
