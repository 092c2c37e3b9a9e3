//! The exact-arithmetic vector and matrix operations, checked against
//! their floating-point renderings.

use maat_graphics::math::Math;
use maat_graphics::math::Rational;

fn r(n: i64) -> Rational {
    Rational::from_int(n)
}

fn to_f32(x: Rational) -> f32 {
    x.num() as f32 / x.den() as f32
}

fn f3(v: [Rational; 3]) -> [f32; 3] {
    [to_f32(v[0]), to_f32(v[1]), to_f32(v[2])]
}

fn f4(v: [Rational; 4]) -> [f32; 4] {
    [to_f32(v[0]), to_f32(v[1]), to_f32(v[2]), to_f32(v[3])]
}

fn f16(m: [Rational; 16]) -> [f32; 16] {
    let mut out = [0.0f32; 16];
    for i in 0..16 {
        out[i] = to_f32(m[i]);
    }
    out
}

fn i16v(m: [Rational; 16]) -> Vec<i64> {
    m.iter().map(|x| x.num() / x.den()).collect()
}

fn m3(a: i64, b: i64, c: i64) -> [Rational; 3] {
    [r(a), r(b), r(c)]
}

fn m4(a: i64, b: i64, c: i64, d: i64) -> [Rational; 4] {
    [r(a), r(b), r(c), r(d)]
}

fn seq16() -> [Rational; 16] {
    let mut m = [r(0); 16];
    for i in 0..16 {
        m[i] = r(i as i64);
    }
    m
}

#[test]
fn length() {
    let vec3 = m3(1, 0, 0);
    let length = Math::vec3_mag(vec3).unwrap();

    assert_eq!(to_f32(length), 1.0);
}

#[test]
fn dot_product() {
    let vec3_0 = m3(1, 0, 0);
    let vec3_1 = m3(1, 0, 0);

    let vec4_0 = m4(1, 0, 0, 0);
    let vec4_1 = m4(1, 0, 0, 0);

    let dot3 = Math::vec3_dot(vec3_0, vec3_1).unwrap();
    let dot4 = Math::vec4_dot(vec4_0, vec4_1).unwrap();

    assert_eq!(to_f32(dot3), 1.0);
    assert_eq!(to_f32(dot4), 1.0);
}

#[test]
fn cross() {
    let cross_1 = Math::vec3_cross(m3(1, 0, 0), m3(0, 1, 0)).unwrap();
    let cross_2 = Math::vec3_cross(m3(0, 1, 0), m3(1, 0, 0)).unwrap();

    assert_eq!(f3(cross_1), [0.0, 0.0, 1.0]);
    assert_eq!(f3(cross_2), [0.0, 0.0, -1.0]);
}

#[test]
fn normalise() {
    let vec3_normalise_1 = Math::vec3_normalise(m3(1, 0, 0)).unwrap();
    let vec3_normalise_2 = Math::vec3_normalise(m3(2, 0, 0)).unwrap();

    let vec4_normalise_1 = Math::vec4_normalise(m4(1, 0, 0, 0)).unwrap();
    let vec4_normalise_2 = Math::vec4_normalise(m4(2, 0, 0, 0)).unwrap();

    assert_eq!(f3(vec3_normalise_1), [1.0, 0.0, 0.0]);
    assert_eq!(f3(vec3_normalise_2), [1.0, 0.0, 0.0]);

    assert_eq!(f4(vec4_normalise_1), [1.0, 0.0, 0.0, 0.0]);
    assert_eq!(f4(vec4_normalise_2), [1.0, 0.0, 0.0, 0.0]);
}

#[test]
fn equals() {
    let vec3 = m3(1, 0, 0);
    let vec4 = m4(1, 0, 0, 0);

    assert_eq!(Math::vec3_equals(vec3, vec3), true);
    assert_eq!(Math::vec4_equals(vec4, vec4), true);
}

#[test]
fn operators() {
    let a = m3(1, 2, 3);
    let b = m3(4, 5, 6);

    let c = Math::vec3_add(a, b).unwrap();
    assert_eq!(f3(c), [5.0, 7.0, 9.0]);

    let d = Math::vec3_minus(b, a).unwrap();
    assert_eq!(f3(d), [3.0, 3.0, 3.0]);

    let e = Math::vec3_mul(a, b).unwrap();
    assert_eq!(f3(e), [4.0, 10.0, 18.0]);

    let f = Math::vec3_div(b, a).unwrap();
    assert_eq!(f3(f), [4.0, 2.5, 2.0]);

    let g = Math::vec3_mul_f32(a, r(2)).unwrap();
    assert_eq!(f3(g), [2.0, 4.0, 6.0]);

    let h = Math::vec3_div_f32(b, r(2)).unwrap();
    assert_eq!(f3(h), [2.0, 2.5, 3.0]);

    let a = m4(1, 2, 3, 4);
    let b = m4(5, 6, 7, 8);

    let c = Math::vec4_add(a, b).unwrap();
    assert_eq!(f4(c), [6.0, 8.0, 10.0, 12.0]);

    let d = Math::vec4_minus(b, a).unwrap();
    assert_eq!(f4(d), [4.0, 4.0, 4.0, 4.0]);

    let e = Math::vec4_mul(a, b).unwrap();
    assert_eq!(f4(e), [5.0, 12.0, 21.0, 32.0]);

    let f = Math::vec4_div(b, a).unwrap();
    assert_eq!(f4(f), [5.0, 3.0, 7.0 / 3.0, 2.0]);

    let g = Math::vec4_mul_f32(a, r(2)).unwrap();
    assert_eq!(f4(g), [2.0, 4.0, 6.0, 8.0]);

    let h = Math::vec4_div_f32(b, r(2)).unwrap();
    assert_eq!(f4(h), [2.5, 3.0, 3.5, 4.0]);
}

#[test]
fn mat4_multiply() {
    let m = seq16();
    let n = Math::mat4_mul(m, m).unwrap();
    let expected = [
        56.0, 62.0, 68.0, 74.0, 152.0, 174.0, 196.0, 218.0, 248.0, 286.0, 324.0, 362.0, 344.0,
        398.0, 452.0, 506.0,
    ];
    let expected_exact: Vec<i64> = vec![
        56, 62, 68, 74, 152, 174, 196, 218, 248, 286, 324, 362, 344, 398, 452, 506,
    ];

    assert_eq!(f16(n), expected);
    assert_eq!(i16v(n), expected_exact);
}

#[test]
fn mat4_transpose() {
    let m = seq16();
    let t = Math::mat4_transpose(m);
    let expected: Vec<i64> = vec![0, 4, 8, 12, 1, 5, 9, 13, 2, 6, 10, 14, 3, 7, 11, 15];

    assert_eq!(i16v(t), expected);
}

#[test]
fn mat4_inverse() {
    let mut a = Math::mat4_identity();
    a[2] = r(1);

    let b = Math::mat4_inverse(a).unwrap();
    let i = Math::mat4_mul(a, b).unwrap();

    assert_eq!(f16(i), f16(Math::mat4_identity()));
}

#[test]
fn mat4_scale() {
    let m = Math::mat4_identity();
    let v = m3(2, 2, 2);

    let s = Math::mat4_scale(m, v).unwrap();
    let expected = [
        2.0, 0.0, 0.0, 0.0, 0.0, 2.0, 0.0, 0.0, 0.0, 0.0, 2.0, 0.0, 0.0, 0.0, 0.0, 1.0,
    ];

    assert_eq!(f16(s), expected);
}

#[test]
fn mat4_det() {
    let m = seq16();

    let det = Math::mat4_determinant(m).unwrap();

    assert_eq!(to_f32(det), 0.0);
}

#[test]
fn quat() {
    let _q = [0.0f32; 4];
}

#[test]
fn rational_construction_normalises_sign() {
    let half = Rational::new(1, 2).unwrap();
    assert_eq!((half.num(), half.den()), (1, 2));

    let negated = Rational::new(3, -4).unwrap();
    assert_eq!((negated.num(), negated.den()), (-3, 4));

    assert!(Rational::new(1, 0).is_none());
}

#[test]
fn division_by_zero_is_rejected() {
    let one = r(1);
    let zero = r(0);
    assert!(one.div(zero).is_none());
    assert!(Math::vec3_div(m3(1, 2, 3), m3(1, 0, 1)).is_none());
}

#[test]
fn magnitude_requires_an_exact_root() {
    // |(1,1,0)| = sqrt(2), which has no exact rational value.
    assert!(Math::vec3_mag(m3(1, 1, 0)).is_none());
    // |(3,4,0)| = 5 exactly.
    let mag = Math::vec3_mag(m3(3, 4, 0)).unwrap();
    assert_eq!((mag.num(), mag.den()), (5, 1));
}

#[test]
fn singular_matrix_has_no_inverse() {
    let m = seq16();
    assert!(Math::mat4_inverse(m).is_none());
}
