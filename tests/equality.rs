use vec3d::double::{double_bits_eq, is_nan};
use vec3d::vec3::Vec3Bits;

fn v(x: f64, y: f64, z: f64) -> Vec3Bits {
    Vec3Bits {
        x: x.to_bits(),
        y: y.to_bits(),
        z: z.to_bits(),
    }
}

#[test]
fn equal_vectors_compare_equal() {
    assert!(v(1.0, 2.0, 3.0) == v(1.0, 2.0, 3.0));
    assert!(v(1.0, 2.0, 3.0).components_eq(&v(1.0, 2.0, 3.0)));
}

#[test]
fn one_differing_component_makes_vectors_unequal() {
    let a = v(1.0, 2.0, 3.0);
    assert!(a != v(1.5, 2.0, 3.0));
    assert!(a != v(1.0, 2.5, 3.0));
    assert!(a != v(1.0, 2.0, 3.5));
    assert!(!a.components_eq(&v(1.0, 2.0, 3.0000000000000004)));
}

#[test]
fn equality_is_symmetric_on_samples() {
    let a = v(-2.0, 0.0, 2.0);
    let b = v(-2.0, -0.0, 2.0);
    let c = v(4.0, 4.0, 4.0);
    assert_eq!(a == b, b == a);
    assert_eq!(a == c, c == a);
    assert!(a == b);
    assert!(a != c);
}

#[test]
fn signed_zeros_compare_equal() {
    assert!(double_bits_eq(0.0f64.to_bits(), (-0.0f64).to_bits()));
    assert!(v(0.0, -0.0, 0.0) == v(-0.0, 0.0, -0.0));
}

#[test]
fn nan_components_never_compare_equal() {
    let n = f64::NAN;
    assert!(!double_bits_eq(n.to_bits(), n.to_bits()));
    assert!(v(n, 1.0, 1.0) != v(n, 1.0, 1.0));
    assert!(v(1.0, 1.0, n) != v(1.0, 1.0, 1.0));
    let zero = v(0.0, 0.0, 0.0);
    assert!(zero == zero);
}

#[test]
fn nan_is_recognised_from_bits() {
    assert!(is_nan(f64::NAN.to_bits()));
    assert!(is_nan((-f64::NAN).to_bits()));
    assert!(is_nan(0x7ff0_0000_0000_0001));
    assert!(!is_nan(f64::INFINITY.to_bits()));
    assert!(!is_nan(f64::NEG_INFINITY.to_bits()));
    assert!(!is_nan(1.0f64.to_bits()));
    assert!(!is_nan(0));
}

#[test]
fn infinities_compare_by_sign() {
    let inf = f64::INFINITY.to_bits();
    let ninf = f64::NEG_INFINITY.to_bits();
    assert!(double_bits_eq(inf, inf));
    assert!(!double_bits_eq(inf, ninf));
}

#[test]
fn bit_comparison_agrees_with_f64_eq() {
    let samples = [
        0.0,
        -0.0,
        1.0,
        -1.0,
        0.5,
        5e-324,
        f64::MAX,
        f64::MIN_POSITIVE,
        f64::INFINITY,
        f64::NEG_INFINITY,
        f64::NAN,
        0.565685424949238,
    ];
    for a in samples.iter() {
        for b in samples.iter() {
            assert_eq!(double_bits_eq(a.to_bits(), b.to_bits()), a == b);
        }
    }
}
