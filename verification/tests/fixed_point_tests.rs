use ray_core::fixed::{mul_fp, SCALE};

#[test]
fn fixed_point_products_are_exact_when_representable() {
    // 1.5 * 2.0 == 3.0
    assert_eq!(mul_fp(3 * SCALE / 2, 2 * SCALE), 3 * SCALE);
    // 0.5 * 0.5 == 0.25
    assert_eq!(mul_fp(SCALE / 2, SCALE / 2), SCALE / 4);
    // Multiplying by one and by zero.
    assert_eq!(mul_fp(SCALE, 123_456), 123_456);
    assert_eq!(mul_fp(0, 987_654_321), 0);
}

#[test]
fn fixed_point_products_truncate_toward_zero() {
    // -3 subunits times 0.5 is -1.5 subunits: truncation gives -1,
    // where flooring would give -2.
    assert_eq!(mul_fp(-3, SCALE / 2), -1);
    assert_eq!(mul_fp(3, SCALE / 2), 1);
    // A product smaller than one subunit vanishes from either side.
    assert_eq!(mul_fp(-1, 999_999), 0);
    assert_eq!(mul_fp(1, 999_999), 0);
}
