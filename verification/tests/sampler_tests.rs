use ray_core::fixed::SCALE;
use ray_core::material::random_position_in_unit_sphere;

#[test]
fn samples_lie_strictly_inside_the_unit_ball() {
    for _ in 0..10_000 {
        let p = random_position_in_unit_sphere();
        assert!(p.x * p.x + p.y * p.y + p.z * p.z < SCALE * SCALE);
        assert!(p.x.abs() <= SCALE && p.y.abs() <= SCALE && p.z.abs() <= SCALE);
    }
}

#[test]
fn sample_magnitudes_match_a_uniform_ball() {
    // For a point uniform in the unit ball the expected magnitude is
    // 3/4; a corner-biased or degenerate sampler lands far outside
    // this generous window.
    let trials = 20_000;
    let mut total = 0.0f64;
    for _ in 0..trials {
        let p = random_position_in_unit_sphere();
        let n2 = (p.x * p.x + p.y * p.y + p.z * p.z) as f64;
        total += n2.sqrt() / (SCALE as f64);
    }
    let mean = total / (trials as f64);
    assert!(mean > 0.70 && mean < 0.80, "mean magnitude {mean} outside (0.70, 0.80)");
}

#[test]
fn samples_are_not_all_equal() {
    let first = random_position_in_unit_sphere();
    let mut saw_different = false;
    for _ in 0..100 {
        if random_position_in_unit_sphere() != first {
            saw_different = true;
            break;
        }
    }
    assert!(saw_different, "one hundred draws returned the same point");
}
