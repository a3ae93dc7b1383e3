//! Behaviour that holds across operations: reflexivity of equality,
//! operand order, round trips, exact geometry values, and the text form.

use vec3::DivisionByZero;
use vec3::Vec3;

fn w(x: f64, y: f64, z: f64) -> Vec3 {
    Vec3 { x: x.to_bits(), y: y.to_bits(), z: z.to_bits() }
}

#[test]
fn equals_self_unless_nan() {
    let a = w(1.5, -2.0, 0.0);
    assert!(Vec3::equals(&a, &a));
    let b = w(1.5, f64::NAN, 0.0);
    assert!(!Vec3::equals(&b, &b));
}

#[test]
fn equals_zero_signs() {
    let a = w(0.0, -0.0, 2.0);
    let b = w(-0.0, 0.0, 2.0);
    assert!(Vec3::equals(&a, &b));
}

#[test]
fn add_commutes() {
    let a = w(1.1, -2.3, 7.5);
    let b = w(3.25, 4.5, -0.125);
    assert!(a.add(&b) == b.add(&a));
}

#[test]
fn subtract_negates_swapped() {
    let a = w(1.1, -2.3, 7.5);
    let b = w(3.25, 4.5, -0.125);
    let d = a.subtract(&b);
    let e = b.subtract(&a).negate();
    assert!(d == e);
}

#[test]
fn multiply_divide_round_trip() {
    let a = w(4.0, 6.0, 10.0);
    let b = w(2.0, 3.0, 2.0);
    let q = a.divide(&b).unwrap();
    assert!(q.multiply(&b) == a);
}

#[test]
fn dot_commutes() {
    let a = w(1.1, -2.3, 7.5);
    let b = w(3.25, 4.5, -0.125);
    assert_eq!(Vec3::dot(&a, &b), Vec3::dot(&b, &a));
}

#[test]
fn distance_symmetric() {
    let a = w(1.0, 2.0, 1.0);
    let b = w(3.0, 3.0, 2.0);
    assert_eq!(Vec3::distance(&a, &b), Vec3::distance(&b, &a));
}

#[test]
fn distance_self_is_zero() {
    let a = w(1.25, -7.5, 3.0);
    assert_eq!(f64::from_bits(Vec3::distance(&a, &a)), 0.0);
}

#[test]
fn distance_exact() {
    let a = w(0.0, 0.0, 0.0);
    let b = w(3.0, 4.0, 0.0);
    assert_eq!(f64::from_bits(Vec3::distance(&a, &b)), 5.0);
}

#[test]
fn distance_squared_is_square_of_distance() {
    let a = w(1.0, 2.0, 1.0);
    let b = w(3.0, 3.0, 2.0);
    let d = f64::from_bits(Vec3::distance(&a, &b));
    let sq = f64::from_bits(Vec3::distance_squared(&a, &b));
    assert!((sq - d * d).abs() < 1e-12);
}

#[test]
fn scenario_one() {
    let a = w(1.0, 2.0, 1.0);
    let b = w(3.0, 3.0, 2.0);
    assert!(a.add(&b) == w(4.0, 5.0, 3.0));
    assert!(a.subtract(&b) == w(-2.0, -1.0, -1.0));
    assert!(a.multiply(&b) == w(3.0, 6.0, 2.0));
    assert_eq!(f64::from_bits(Vec3::dot(&a, &b)), 11.0);
}

#[test]
fn scenario_scale() {
    let v = w(1.0, 2.0, 1.0);
    let s = 2.0f64.to_bits();
    assert!(v.scale(s) == w(2.0, 4.0, 2.0));
    assert!(v.scalar_divide(s).unwrap() == w(0.5, 1.0, 0.5));
}

#[test]
fn scalar_divide_zero_any() {
    let v = w(-3.5, 0.0, f64::INFINITY);
    let res = v.scalar_divide(0.0f64.to_bits());
    assert_eq!(res.unwrap_err(), DivisionByZero::Scalar { divisor: 0.0f64.to_bits() });
    let res = v.scalar_divide((-0.0f64).to_bits());
    assert_eq!(res.unwrap_err(), DivisionByZero::Scalar { divisor: (-0.0f64).to_bits() });
}

#[test]
fn divide_reports_zero_components() {
    let a = w(1.0, 2.0, 3.0);
    let b = w(0.0, 5.0, -0.0);
    let res = a.divide(&b);
    assert_eq!(
        res.unwrap_err(),
        DivisionByZero::Components { x_zero: true, y_zero: false, z_zero: true }
    );
}

#[test]
fn clone_is_independent() {
    let a = w(1.0, 2.0, 3.0);
    let mut b = a.clone();
    assert!(Vec3::equals(&a, &b));
    b.x = 9.0f64.to_bits();
    assert!(a == w(1.0, 2.0, 3.0));
    assert!(a != b);
}

#[test]
fn negate_flips_signs_exactly() {
    let a = w(1.0, -2.0, 0.0);
    let n = a.negate();
    assert!(n == w(-1.0, 2.0, 0.0));
    assert!(f64::from_bits(n.z).is_sign_negative());
}

#[test]
fn in_place_operand_unchanged() {
    let mut a = w(1.0, 2.0, 1.0);
    let b = w(3.0, 3.0, 2.0);
    a.add_assign(&b);
    assert!(b == w(3.0, 3.0, 2.0));
}

#[test]
fn text_form() {
    let a = w(1.0, 2.5, -1.0);
    let s = a.to_string();
    assert_eq!(s, "X: 1 Y: 2.5 Z: -1");
}

#[test]
fn nan_propagates_without_failure() {
    let a = w(f64::NAN, 2.0, 1.0);
    let b = w(3.0, 3.0, 2.0);
    let r = a.add(&b);
    assert!(f64::from_bits(r.x).is_nan());
    assert_eq!(f64::from_bits(r.y), 5.0);
    let d = Vec3::distance(&a, &b);
    assert!(f64::from_bits(d).is_nan());
}
