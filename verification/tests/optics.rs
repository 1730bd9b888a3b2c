use ppmpa::ray::algebra::Vector3;
use ppmpa::ray::geometry::Ray;
use ppmpa::ray::optics::{photon_to_radiance, rabs, Photon, PhotonFilter, Radiance};
use ppmpa::ray::physics::Wavelength;
use ppmpa::ray::Flt;

fn f(x: f64) -> Flt {
    Flt::from_bits(x.to_bits())
}

fn v3(x: f64, y: f64, z: f64) -> Vector3 {
    Vector3::new(f(x), f(y), f(z))
}

fn rad(r: f64, g: f64, b: f64) -> Radiance {
    Radiance(f(r), f(g), f(b))
}

fn number(s: &str) -> Flt {
    f(s.parse::<f64>().unwrap())
}

fn vector(fields: &Vec<String>) -> Vector3 {
    Vector3::new(number(&fields[0]), number(&fields[1]), number(&fields[2]))
}

#[test]
fn test_pf() {
    let pf1 = PhotonFilter::Gauss;
    assert_eq!(pf1, PhotonFilter::Gauss);
}

#[test]
fn test_radiance() {
    let r1 = Radiance::radiance1();
    assert_eq!(r1, rad(1.0, 1.0, 1.0));
    let r2 = rad(1.0, 0.8, 0.6);
    assert_eq!(r2.select_wavelength(Wavelength::Red), f(1.0));
    assert_eq!(r2.select_wavelength(Wavelength::Green), f(0.8));
    assert_eq!(r2.select_wavelength(Wavelength::Blue), f(0.6));
    let text = format!("RAD[{},{},{}]", 1.0, 0.8, 0.6);
    assert_eq!(text, "RAD[1,0.8,0.6]");
    let r3 = Radiance::fields(&text).unwrap();
    assert_eq!(Radiance(number(&r3[0]), number(&r3[1]), number(&r3[2])), r2);
}

#[test]
fn test_rbs() {
    assert_eq!(rabs(f(0.0)), f(0.0));
    assert_eq!(rabs(f(1.1)), f(1.1));
    assert_eq!(rabs(f(-1.1)), f(1.1));
}

#[test]
fn test_photon() {
    let d = 1.0 / f64::sqrt(3.0);
    let pi1 = Photon::new(&Wavelength::Red, &Ray::new(&v3(1.0, 2.0, 3.1), &v3(d, d, d)));
    assert_eq!(pi1.to_points(), [f(1.0), f(2.0), f(3.1)]);
    let sph = "PHOTON[WL:Blue,RAY[V3[5.5,4.4,3.3],V3[0,0,1]]]";
    let parts = Photon::fields(sph).unwrap();
    assert_eq!(parts, vec!["WL:Blue".to_string(), "RAY[V3[5.5,4.4,3.3],V3[0,0,1]]".to_string()]);
    let wl = Wavelength::from_str(&parts[0]).unwrap();
    let (p, d) = Ray::fields(&parts[1]).unwrap();
    let ph2 = Photon::new(&wl, &Ray::new(&vector(&p), &vector(&d)));
    assert_eq!(
        ph2,
        Photon::new(&Wavelength::Blue, &Ray::new(&v3(5.5, 4.4, 3.3), &v3(0.0, 0.0, 1.0)))
    );
}

#[test]
fn test_rabs_keeps_signed_zero_and_nan() {
    assert_eq!(rabs(f(-0.0)).to_bits(), (-0.0f64).to_bits());
    assert!(rabs(f(f64::NAN)).is_nan());
    assert_eq!(rabs(f(f64::NEG_INFINITY)), f(f64::INFINITY));
}

#[test]
fn test_radiance_components() {
    let r = rad(0.25, 0.5, 0.75);
    assert_eq!(r.r(), f(0.25));
    assert_eq!(r.g(), f(0.5));
    assert_eq!(r.b(), f(0.75));
    assert_eq!(Radiance::radiance0(), rad(0.0, 0.0, 0.0));
}

#[test]
fn test_dummy_photon() {
    let p = v3(1.0, 2.0, 3.0);
    let ph = Photon::dummy(&p);
    assert_eq!(ph.wl, Wavelength::Red);
    assert_eq!(ph.ray.pos, p);
    assert_eq!(ph.ray.dir, v3(1.0, 0.0, 0.0));
}

#[test]
fn test_to_radiance_counts_a_photon_that_arrives_against_the_normal() {
    let ph = Photon::new(&Wavelength::Blue, &Ray::new(&v3(0.0, 1.0, 0.0), &v3(0.0, -1.0, 0.0)));
    let n: [f64; 3] = [0.0, 1.0, 0.0];
    let dir: [f64; 3] = [0.0, -1.0, 0.0];
    let cos0 = n[0] * dir[0] + n[1] * dir[1] + n[2] * dir[2];
    let pw = 2.0;
    assert_eq!(ph.to_radiance(&f(cos0), &f(pw * -cos0)), rad(0.0, 0.0, 2.0));
    assert_eq!(ph.to_radiance(&f(-0.5), &f(1.0)), rad(0.0, 0.0, 1.0));
    assert_eq!(ph.to_radiance(&f(0.0), &f(2.0)), rad(0.0, 0.0, 0.0));
    assert_eq!(ph.to_radiance(&f(0.5), &f(2.0)), rad(0.0, 0.0, 0.0));
}

#[test]
fn test_photon_to_radiance_counts_a_photon_that_arrives() {
    let pos = v3(0.0, 0.0, 0.0);
    let down = v3(0.0, -1.0, 0.0);
    let red = Photon::new(&Wavelength::Red, &Ray::new(&pos, &down));
    let green = Photon::new(&Wavelength::Green, &Ray::new(&pos, &down));
    let blue = Photon::new(&Wavelength::Blue, &Ray::new(&pos, &down));
    assert_eq!(photon_to_radiance(&f(-1.0), &f(0.3), &red), rad(0.3, 0.0, 0.0));
    assert_eq!(photon_to_radiance(&f(-1.0), &f(0.3), &green), rad(0.0, 0.3, 0.0));
    assert_eq!(photon_to_radiance(&f(-1.0), &f(0.3), &blue), rad(0.0, 0.0, 0.3));
    assert_eq!(photon_to_radiance(&f(0.0), &f(0.3), &blue), rad(0.0, 0.0, 0.0));
    assert_eq!(photon_to_radiance(&f(0.4), &f(0.3), &blue), rad(0.0, 0.0, 0.0));
}

#[test]
fn test_photon_filter_text() {
    assert_eq!(PhotonFilter::Non.to_string(), "PF:None");
    assert_eq!(PhotonFilter::Cone.to_string(), "PF:Cone");
    assert_eq!(PhotonFilter::Gauss.to_string(), "PF:Gauss");
    assert_eq!(PhotonFilter::from_str("PF:None"), Ok(PhotonFilter::Non));
    assert_eq!(PhotonFilter::from_str("PF:Cone"), Ok(PhotonFilter::Cone));
    assert_eq!(PhotonFilter::from_str("PF:Gauss"), Ok(PhotonFilter::Gauss));
    assert_eq!(
        PhotonFilter::from_str("PF:Box"),
        Err("invalid photon filter: PF:Box".to_string())
    );
    assert_eq!(PhotonFilter::from_str("PF:"), Err("invalid photon filter: PF:".to_string()));
}

#[test]
fn test_photon_filter_parse() {
    assert_eq!(PhotonFilter::parse("PF:Gauss"), Some(Ok(PhotonFilter::Gauss)));
    assert_eq!(PhotonFilter::parse("PF:"), Some(Err("invalid photon filter: PF:".to_string())));
    assert_eq!(PhotonFilter::parse("Gauss"), None);
    assert_eq!(PhotonFilter::parse("PF:Gauss filter"), None);
    assert_eq!(
        PhotonFilter::from_word("Cone", "PF:Cone"),
        Ok(PhotonFilter::Cone)
    );
}

#[test]
fn test_photon_fields_rejects_other_forms() {
    assert_eq!(Photon::fields("PHOTON[WL:Blue]"), None);
    assert_eq!(Photon::fields("PHOTON[Blue,RAY[V3[1,2,3],V3[0,0,1]]]"), None);
    assert_eq!(Radiance::fields("RAD[1,2]"), None);
    assert_eq!(Radiance::fields("COL[1,2,3]"), None);
}
