use rustww::math::{isqrt, Vec2d, VEC_ONE};

#[test]
fn integer_square_roots_are_exact() {
    assert_eq!(isqrt(0), 0);
    assert_eq!(isqrt(1), 1);
    assert_eq!(isqrt(3), 1);
    assert_eq!(isqrt(4), 2);
    assert_eq!(isqrt(15), 3);
    assert_eq!(isqrt(16), 4);
    assert_eq!(isqrt(1_000_000), 1000);
    assert_eq!(isqrt(u64::MAX), 4_294_967_295);
}

#[test]
fn dot_product_is_exact() {
    let a = Vec2d::new(3 * VEC_ONE, 4 * VEC_ONE);
    let b = Vec2d::new(-2 * VEC_ONE, 5 * VEC_ONE);
    let one = VEC_ONE as i64;
    assert_eq!(a.dot(b), (3 * -2 + 4 * 5) * one * one);
}

#[test]
fn magnitude_of_a_pythagorean_vector_is_exact() {
    let v = Vec2d::new(3 * VEC_ONE, 4 * VEC_ONE);
    let one = VEC_ONE as u64;
    assert_eq!(v.sq_magn(), 25 * one * one);
    assert_eq!(v.magn(), 5 * one);
}

#[test]
fn unit_vector_is_scaled_and_rounded_towards_zero() {
    let v = Vec2d::new(3 * VEC_ONE, 4 * VEC_ONE);
    let u = v.unit();
    // The coordinates are 3/5 and 4/5 of one whole unit, rounded down.
    assert_eq!(u.x, 3 * VEC_ONE / 5);
    assert_eq!(u.y, 4 * VEC_ONE / 5);
}

#[test]
fn unit_vector_keeps_the_signs() {
    let v = Vec2d::new(-3 * VEC_ONE, 4 * VEC_ONE);
    let u = v.unit();
    assert_eq!(u.x, -(3 * VEC_ONE / 5));
    assert_eq!(u.y, 4 * VEC_ONE / 5);
}

#[test]
fn unit_vector_of_an_axis_vector_is_one_unit_long() {
    let v = Vec2d::new(0, 7 * VEC_ONE);
    let u = v.unit();
    assert_eq!(u.x, 0);
    assert_eq!(u.y, VEC_ONE);
}
