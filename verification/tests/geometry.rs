use ppmpa::ray::algebra::Vector3;
use ppmpa::ray::geometry::{
    distance_plain, distance_polygon, distance_sphere, method_moller, Ray, Shape,
};
use ppmpa::ray::Flt;
use ppmpa::tracer::nearest;

fn f(x: f64) -> Flt {
    Flt::from_bits(x.to_bits())
}

fn v3(x: f64, y: f64, z: f64) -> Vector3 {
    Vector3::new(f(x), f(y), f(z))
}

fn number(s: &str) -> Flt {
    f(s.parse::<f64>().unwrap())
}

fn vector(fields: &Vec<String>) -> Vector3 {
    Vector3::new(number(&fields[0]), number(&fields[1]), number(&fields[2]))
}

fn dot(a: [f64; 3], b: [f64; 3]) -> f64 {
    a[0] * b[0] + a[1] * b[1] + a[2] * b[2]
}

fn cross(a: [f64; 3], b: [f64; 3]) -> [f64; 3] {
    [a[1] * b[2] - b[1] * a[2], a[2] * b[0] - b[2] * a[0], a[0] * b[1] - b[0] * a[1]]
}

fn sub(a: [f64; 3], b: [f64; 3]) -> [f64; 3] {
    [a[0] - b[0], a[1] - b[1], a[2] - b[2]]
}

#[test]
fn test_ray() {
    let d = 1.0 / f64::sqrt(3.0) * 1.0;
    let r1 = Ray::new(&v3(1.0, 2.0, 3.0), &v3(d, d, d));
    assert_eq!(
        r1,
        Ray::new(
            &v3(1.0, 2.0, 3.0),
            &v3(0.5773502691896258, 0.5773502691896258, 0.5773502691896258)
        )
    );
    let (p, d) = Ray::fields("RAY[V3[0.5,1.2,0.1],V3[-1.0,1.0,2.5]]").unwrap();
    let r22 = Ray::new(&vector(&p), &vector(&d));
    assert_eq!(
        r22,
        Ray { pos: Vector3 { v: [f(0.5), f(1.2), f(0.1)] }, dir: Vector3 { v: [f(-1.0), f(1.0), f(2.5)] } }
    );
}

#[test]
fn test_getnormal() {
    let ey = v3(0.0, 1.0, 0.0);
    let pl = Shape::Plain { nvec: ey, dist: f(1.0) };
    assert_eq!(pl.get_normal(&None), Some(v3(0.0, 1.0, 0.0)));
    let sp = Shape::Sphere { center: v3(0.0, 0.0, 0.0), radius: f(2.0) };
    assert_eq!(sp.get_normal(&Some(v3(1.0, 0.0, 0.0))), Some(v3(1.0, 0.0, 0.0)));
    let n = v3(0.4082482904638631, -0.8164965809277261, 0.4082482904638631);
    let po = Shape::Polygon {
        position: v3(0.0, 0.0, 0.0),
        nvec: n,
        dir1: v3(2.0, 1.0, 0.0),
        dir2: v3(0.0, 1.0, 2.0),
    };
    assert_eq!(
        po.get_normal(&None),
        Some(v3(0.4082482904638631, -0.8164965809277261, 0.4082482904638631))
    );
    let pa = Shape::Parallelogram {
        position: v3(0.0, 0.0, 0.0),
        nvec: n,
        dir1: v3(2.0, 1.0, 0.0),
        dir2: v3(0.0, 1.0, 2.0),
    };
    assert_eq!(
        pa.get_normal(&None),
        Some(v3(0.4082482904638631, -0.8164965809277261, 0.4082482904638631))
    );
}

#[test]
fn test_point_and_centre_have_no_normal() {
    let pt = Shape::Point { position: v3(0.0, 0.0, 0.0) };
    assert_eq!(pt.get_normal(&Some(v3(1.0, 0.0, 0.0))), None);
    let sp = Shape::Sphere { center: v3(0.0, 0.0, 0.0), radius: f(2.0) };
    assert_eq!(sp.get_normal(&None), None);
}

#[test]
fn test_ray_sphere_hit() {
    let center = [0.0, 0.0, 0.0];
    let radius: f64 = 1.0;
    let pos = [0.0, 0.0, -3.0];
    let dir = [0.0, 0.0, 1.0];
    let o = sub(center, pos);
    let t0 = dot(o, dir);
    let t1 = radius * radius - (dot(o, o) - t0 * t0);
    let t2 = f64::sqrt(t1);
    let ts = distance_sphere(&f(t0), &f(t1), &f(t2), &f(t0 - t2), &f(t0 + t2));
    assert_eq!(ts, vec![f(2.0), f(4.0)]);
    let first = nearest(&ts).unwrap();
    assert_eq!(ts[first], f(2.0));
    let t = f64::from_bits(ts[first].to_bits());
    let hit = [pos[0] + dir[0] * t, pos[1] + dir[1] * t, pos[2] + dir[2] * t];
    assert_eq!(hit, [0.0, 0.0, -1.0]);
    let sp = Shape::Sphere { center: v3(0.0, 0.0, 0.0), radius: f(1.0) };
    let radial = sub(hit, center);
    assert_eq!(
        sp.get_normal(&Some(v3(radial[0], radial[1], radial[2]))),
        Some(v3(0.0, 0.0, -1.0))
    );
}

#[test]
fn test_ray_plane_miss() {
    let n = [0.0, 1.0, 0.0];
    let d: f64 = 0.0;
    let pos = [0.0, 1.0, 0.0];
    let dir = [0.0, 1.0, 0.0];
    let cos0 = dot(n, dir);
    let t = (d + dot(n, pos)) / -cos0;
    let ts = distance_plain(&f(cos0), &f(t));
    assert_eq!(ts, vec![f(-1.0)]);
    assert_eq!(nearest(&ts), None);
}

#[test]
fn test_ray_along_a_plane_meets_nothing() {
    assert_eq!(distance_plain(&f(0.0), &f(f64::INFINITY)), vec![]);
    assert_eq!(distance_plain(&f(-0.0), &f(3.0)), vec![]);
    assert_eq!(distance_plain(&f(0.5), &f(3.0)), vec![f(3.0)]);
}

#[test]
fn test_moller_parallelogram() {
    let p0 = [0.0, 0.0, 0.0];
    let d1 = [1.0, 0.0, 0.0];
    let d2 = [0.0, 1.0, 0.0];
    let p = [0.5, 0.5, -1.0];
    let d = [0.0, 0.0, 1.0];
    let re2 = cross(d, d2);
    let det_a = dot(re2, d1);
    let pp = sub(p, p0);
    let te1 = cross(pp, d1);
    let u = dot(re2, pp) / det_a;
    let v = dot(te1, d) / det_a;
    let t = dot(te1, d2) / det_a;
    let res = method_moller(&f(2.0), &f(det_a), &f(u), &f(v), &f(u + v), &f(t));
    assert_eq!(res, Some((f(0.5), f(0.5), f(1.0))));
    assert_eq!(distance_polygon(&res), vec![f(1.0)]);
}

#[test]
fn test_moller_bounds() {
    let t = f(1.0);
    let one = f(1.0);
    let two = f(2.0);
    assert_eq!(method_moller(&one, &f(1.0), &f(0.5), &f(0.5), &f(1.0), &t), Some((f(0.5), f(0.5), t)));
    assert_eq!(method_moller(&one, &f(1.0), &f(0.6), &f(0.5), &f(1.1), &t), None);
    assert_eq!(method_moller(&two, &f(1.0), &f(0.6), &f(0.5), &f(1.1), &t), Some((f(0.6), f(0.5), t)));
    assert_eq!(method_moller(&two, &f(1.0), &f(1.0), &f(1.0), &f(2.0), &t), Some((f(1.0), f(1.0), t)));
    assert_eq!(method_moller(&two, &f(1.0), &f(1.1), &f(0.5), &f(1.6), &t), None);
    assert_eq!(method_moller(&two, &f(1.0), &f(-0.1), &f(0.5), &f(0.4), &t), None);
    assert_eq!(method_moller(&two, &f(1.0), &f(0.5), &f(1.1), &f(1.6), &t), None);
    assert_eq!(method_moller(&two, &f(1.0), &f(0.5), &f(-0.1), &f(0.4), &t), None);
    assert_eq!(method_moller(&two, &f(0.0), &f(0.5), &f(0.5), &f(1.0), &t), None);
    assert_eq!(distance_polygon(&None), vec![]);
}

#[test]
fn test_sphere_miss_and_touch() {
    assert_eq!(distance_sphere(&f(3.0), &f(-0.5), &f(f64::NAN), &f(f64::NAN), &f(f64::NAN)), vec![]);
    assert_eq!(distance_sphere(&f(3.0), &f(0.0), &f(0.0), &f(3.0), &f(3.0)), vec![]);
    assert_eq!(
        distance_sphere(&f(3.0), &f(1.0e-320), &f(0.0), &f(3.0), &f(3.0)),
        vec![f(3.0)]
    );
    assert_eq!(
        distance_sphere(&f(3.0), &f(0.25), &f(0.5), &f(2.5), &f(3.5)),
        vec![f(2.5), f(3.5)]
    );
}

#[test]
fn test_ray_fields_rejects_other_forms() {
    assert_eq!(Ray::fields("RAY[V3[0.5,1.2,0.1]]"), None);
    assert_eq!(Ray::fields("RAY[V3[0.5,1.2],V3[-1.0,1.0,2.5]]"), None);
    assert_eq!(Ray::fields("V3[0.5,1.2,0.1]"), None);
}

#[test]
fn test_moller_bound_is_one_for_a_triangle_and_two_for_a_parallelogram() {
    let p = v3(0.0, 0.0, 0.0);
    let n = v3(0.0, 0.0, 1.0);
    let d1 = v3(1.0, 0.0, 0.0);
    let d2 = v3(0.0, 1.0, 0.0);
    let tri = Shape::Polygon { position: p, nvec: n, dir1: d1, dir2: d2 };
    let par = Shape::Parallelogram { position: p, nvec: n, dir1: d1, dir2: d2 };
    assert_eq!(tri.moller_bound(), Some(f(1.0)));
    assert_eq!(par.moller_bound(), Some(f(2.0)));
    assert_eq!(par.moller_bound().unwrap().to_bits(), 2.0f64.to_bits());
    assert_eq!(Shape::Point { position: p }.moller_bound(), None);
    assert_eq!(Shape::Plain { nvec: n, dist: f(0.0) }.moller_bound(), None);
    assert_eq!(Shape::Sphere { center: p, radius: f(1.0) }.moller_bound(), None);
}

#[test]
fn test_distance_takes_the_test_of_the_shape() {
    let p = v3(0.0, 0.0, 0.0);
    let n = v3(0.0, 0.0, 1.0);
    let d1 = v3(1.0, 0.0, 0.0);
    let d2 = v3(0.0, 1.0, 0.0);
    let plain = vec![f(1.0)];
    let sphere = vec![f(2.0), f(4.0)];
    let polygon = vec![f(3.0)];
    assert_eq!(Shape::Point { position: p }.distance(&plain, &sphere, &polygon), vec![]);
    assert_eq!(Shape::Plain { nvec: n, dist: f(0.0) }.distance(&plain, &sphere, &polygon), plain);
    assert_eq!(
        Shape::Sphere { center: p, radius: f(1.0) }.distance(&plain, &sphere, &polygon),
        sphere
    );
    assert_eq!(
        Shape::Polygon { position: p, nvec: n, dir1: d1, dir2: d2 }
            .distance(&plain, &sphere, &polygon),
        polygon
    );
    assert_eq!(
        Shape::Parallelogram { position: p, nvec: n, dir1: d1, dir2: d2 }
            .distance(&plain, &sphere, &polygon),
        polygon
    );
}
