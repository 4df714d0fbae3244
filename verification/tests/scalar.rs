use wgpu_circles::app::{GRAVITY, JUMP_SPEED, RESTITUTION};
use wgpu_circles::scalar::{Scalar, INFINITY};
use wgpu_circles::state::{
    BLUE, CLEAR_ALPHA, CLEAR_SHADE, FIRST_RADIUS, FLOOR_LIMIT, GREEN, REBUILT_RADIUS, RED, ZERO,
};

fn scalar(number: f32) -> Scalar {
    Scalar { bits: number.to_bits() }
}

#[test]
fn comparison_is_that_of_the_numbers() {
    let numbers = [
        f32::NEG_INFINITY,
        f32::MIN,
        -1.5,
        -0.900_000_1,
        -0.9,
        -0.899_999_9,
        -f32::MIN_POSITIVE,
        -1.0e-45,
        -0.0,
        0.0,
        1.0e-45,
        f32::MIN_POSITIVE,
        0.02,
        0.1,
        1.0,
        1.000_000_1,
        1.5,
        f32::MAX,
        f32::INFINITY,
        f32::NAN,
        -f32::NAN,
    ];
    for a in numbers {
        for b in numbers {
            assert_eq!(scalar(a).below(scalar(b)), a < b, "{a} < {b}");
        }
    }
}

#[test]
fn zeros_are_not_below_each_other() {
    assert!(!scalar(-0.0).below(scalar(0.0)));
    assert!(!scalar(0.0).below(scalar(-0.0)));
}

#[test]
fn what_is_no_number_is_below_nothing() {
    assert!(!scalar(f32::NAN).below(scalar(FLOOR)));
    assert!(!scalar(FLOOR).below(scalar(f32::NAN)));
}

const FLOOR: f32 = -0.9;

#[test]
fn constants_are_the_patterns_of_their_numbers() {
    assert_eq!(ZERO, 0.0f32.to_bits());
    assert_eq!(RED, 0.2f32.to_bits());
    assert_eq!(GREEN, 0.4f32.to_bits());
    assert_eq!(BLUE, 1.0f32.to_bits());
    assert_eq!(FIRST_RADIUS, 0.1f32.to_bits());
    assert_eq!(REBUILT_RADIUS, 0.02f32.to_bits());
    assert_eq!(FLOOR_LIMIT, FLOOR.to_bits());
    assert_eq!(GRAVITY, 4.0f32.to_bits());
    assert_eq!(RESTITUTION, (-0.5f32).to_bits());
    assert_eq!(JUMP_SPEED, 1.5f32.to_bits());
    assert_eq!(INFINITY, f32::INFINITY.to_bits());
    assert_eq!(CLEAR_SHADE, 0.05f64.to_bits());
    assert_eq!(CLEAR_ALPHA, 1.0f64.to_bits());
}
