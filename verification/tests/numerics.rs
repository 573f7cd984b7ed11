use vandals_and_heroes::fixed::{isqrt64, mul_div_u64, scale_i64, Vec3Fx};
use vandals_and_heroes::physics::RadialCoordinates;
use vandals_and_heroes::trig::{atan2_micro, cos_micro, sin_micro};

#[test]
fn integer_square_roots() {
    assert_eq!(isqrt64(0), 0);
    assert_eq!(isqrt64(1), 1);
    assert_eq!(isqrt64(2), 1);
    assert_eq!(isqrt64(3), 1);
    assert_eq!(isqrt64(4), 2);
    assert_eq!(isqrt64(99), 9);
    assert_eq!(isqrt64(100), 10);
    assert_eq!(isqrt64(1_000_000_000_000_000_000), 1_000_000_000);
    assert_eq!(isqrt64(u64::MAX), 4_294_967_295);
}

#[test]
fn scaled_division() {
    assert_eq!(mul_div_u64(6, 7, 2), 21);
    assert_eq!(mul_div_u64(1, 1, 3), 0);
    assert_eq!(scale_i64(9_000, 5_000, 9_000), 5_000);
    assert_eq!(scale_i64(-9_000, 5_000, 9_000), -5_000);
    assert_eq!(scale_i64(7, 1, 2), 3);
    assert_eq!(scale_i64(-7, 1, 2), -3);
    assert_eq!(scale_i64(0, 123, 7), 0);
}

#[test]
fn sine_and_cosine_quarter_turns() {
    assert_eq!(sin_micro(0), 0);
    assert_eq!(sin_micro(250_000), 1_000_000);
    assert_eq!(sin_micro(500_000), 0);
    assert_eq!(sin_micro(750_000), -1_000_000);
    assert_eq!(sin_micro(1_000_000), 0);
    assert_eq!(cos_micro(0), 1_000_000);
    assert_eq!(cos_micro(250_000), 0);
    assert_eq!(cos_micro(500_000), -1_000_000);
    assert_eq!(cos_micro(750_000), 0);
}

#[test]
fn sine_approximation_near_true_values() {
    // sin of a twelfth of a turn is one half; Bhaskara's approximation
    // lands within a few millionths.
    let s = sin_micro(83_333);
    assert!((499_000..=501_000).contains(&s));
    // sin of a sixth of a turn is sqrt(3)/2 ~= 0.866025.
    let s = sin_micro(166_667);
    assert!((864_000..=868_000).contains(&s));
}

#[test]
fn angles_on_axes_and_diagonals() {
    assert_eq!(atan2_micro(1_000, 0), 0);
    assert_eq!(atan2_micro(0, 1_000), 250_000);
    assert_eq!(atan2_micro(-1_000, 0), 500_000);
    assert_eq!(atan2_micro(0, -1_000), 750_000);
    assert_eq!(atan2_micro(1_000, 1_000), 125_000);
    assert_eq!(atan2_micro(1_000, -1_000), 875_000);
    assert_eq!(atan2_micro(0, 0), 0);
}

#[test]
fn angle_approximation_near_true_value() {
    // atan2(500, 866) is a twelfth of a turn, 83333 micro-turns; the
    // quadratic approximation lands within its documented bound of
    // about six hundred micro-turns.
    let a = atan2_micro(866, 500);
    assert!((82_733..=83_933).contains(&a));
}

#[test]
fn radial_coordinates_of_a_point() {
    let rc = RadialCoordinates::new(Vec3Fx { x: 3_000, y: 4_000, z: -7 });
    assert_eq!(rc.radius, 5_000);
    assert_eq!(rc.depth, -7);
    let rc = RadialCoordinates::new(Vec3Fx { x: 0, y: 2_000, z: 55 });
    assert_eq!(rc.alpha, 250_000);
    assert_eq!(rc.radius, 2_000);
}
