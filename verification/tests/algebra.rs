use ppmpa::ray::algebra::{in_unit_ball, Position3, Vector3};
use ppmpa::ray::Flt;

fn f(x: f64) -> Flt {
    Flt::from_bits(x.to_bits())
}

fn v3(x: f64, y: f64, z: f64) -> Vector3 {
    Vector3::new(f(x), f(y), f(z))
}

fn number(s: &str) -> Flt {
    f(s.parse::<f64>().unwrap())
}

#[test]
fn test_vector3() {
    let v1 = v3(1.0, 2.0, 3.0);
    assert_eq!(-v1, v3(-1.0, -2.0, -3.0));
    let v2 = v3(-1.0, 2.0, -3.0);
    assert_eq!(-v2, v3(1.0, -2.0, 3.0));
    let v3a = v3(1.0, -2.0, 3.0);
    assert_eq!(-v3a, v3(-1.0, 2.0, -3.0));

    let v4 = Vector3::fields("V3[0.1,0.3,0.5]");
    let v42 = v4.unwrap();
    assert_eq!(v42, vec!["0.1".to_string(), "0.3".to_string(), "0.5".to_string()]);
    let v43 = Vector3::new(number(&v42[0]), number(&v42[1]), number(&v42[2]));
    assert_eq!(v43, Vector3 { v: [f(0.1), f(0.3), f(0.5)] });
}

#[test]
fn test_new_and_new_pos_keep_the_components() {
    let v = Vector3::new(f(1.5), f(-2.5), f(0.0));
    assert_eq!(v.v[0].to_bits(), 1.5f64.to_bits());
    assert_eq!(v.v[1].to_bits(), (-2.5f64).to_bits());
    assert_eq!(v.v[2].to_bits(), 0.0f64.to_bits());
    let p = Position3::new_pos(f(1.1), f(2.1), f(3.1));
    assert_eq!(p, v3(1.1, 2.1, 3.1));
}

#[test]
fn test_neg_of_zero_vector_flips_the_sign_bits() {
    let o = -v3(0.0, 0.0, 0.0);
    assert_eq!(o.v[0].to_bits(), (-0.0f64).to_bits());
    assert_eq!(o, v3(0.0, 0.0, 0.0));
}

#[test]
fn test_vector3_fields_rejects_other_forms() {
    assert_eq!(Vector3::fields("V3[0.1,0.3]"), None);
    assert_eq!(Vector3::fields("V3[0.1,0.3,0.5"), None);
    assert_eq!(Vector3::fields("v3[0.1,0.3,0.5]"), None);
    assert_eq!(Vector3::fields("V3[0.1, 0.3,0.5]"), None);
    assert_eq!(Vector3::fields(" V3[0.1,0.3,0.5]"), None);
    assert_eq!(Vector3::fields(""), None);
}

#[test]
fn test_vector3_fields_takes_any_unbroken_tokens() {
    let got = Vector3::fields("V3[a,b,c,d]").unwrap();
    assert_eq!(got, vec!["a".to_string(), "b".to_string(), "c,d".to_string()]);
}

#[test]
fn test_normalize_has_no_direction_for_no_length() {
    let unit = v3(0.6, 0.8, 0.0);
    assert_eq!(Vector3::normalize(&f(5.0), &unit), Some(unit));
    assert_eq!(Vector3::normalize(&f(0.0), &unit), None);
    assert_eq!(Vector3::normalize(&f(-0.0), &unit), None);
    assert_eq!(Vector3::normalize(&f(1.0e-300), &unit), Some(unit));
}

#[test]
fn test_normalize_of_a_vector() {
    let v: [f64; 3] = [1.0, -2.0, 3.0];
    let n = f64::sqrt(v[0] * v[0] + v[1] * v[1] + v[2] * v[2]);
    let s = 1.0 / n;
    let unit = v3(v[0] * s, v[1] * s, v[2] * s);
    assert_eq!(
        Vector3::normalize(&f(n), &unit),
        Some(v3(0.2672612419124244, -0.5345224838248488, 0.8017837257372732))
    );
}

#[test]
fn test_in_unit_ball() {
    assert!(in_unit_ball(&f(1.0)));
    assert!(in_unit_ball(&f(0.5)));
    assert!(in_unit_ball(&f(1.0e-320)));
    assert!(!in_unit_ball(&f(0.0)));
    assert!(!in_unit_ball(&f(1.0000000000000002)));
    assert!(!in_unit_ball(&f(f64::NAN)));
}

#[test]
fn test_div_by_zero_gives_nothing() {
    let q = v3(0.5, 1.0, 1.5);
    assert_eq!(Vector3::div(&f(2.0), &q), Some(q));
    assert_eq!(Vector3::div(&f(0.0), &q), None);
    assert_eq!(Vector3::div(&f(-0.0), &q), None);
}
