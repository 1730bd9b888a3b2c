//! Rays.
use vstd::prelude::*;
use crate::ray::{Flt, TWO_BITS};
use crate::ray::algebra::{Direction3, Position3, Vector3, VECTOR3_PATTERN};
use crate::text::{fields, framed, texts};

verus! {

/// A half line: where it starts and the direction in which it runs.
#[derive(Debug, PartialEq, Clone, Copy)]
pub struct Ray {
    pub pos: Position3,
    pub dir: Direction3,
}

/// The form of the text of a ray: `RAY[`, the text of a vector for the
/// origin, a comma, one for the direction, and `]`.
pub const RAY_PATTERN: &'static str = r"^RAY\[(V3\[\S+\]),(V3\[\S+\])\]$";

/// The texts of the components of the origin and of the direction in the
/// text of a ray.
pub open spec fn ray_fields(s: Seq<char>) -> Option<(Seq<Seq<char>>, Seq<Seq<char>>)> {
    match fields(RAY_PATTERN@, s, 2) {
        Some(f) => match (fields(VECTOR3_PATTERN@, f[0], 3), fields(VECTOR3_PATTERN@, f[1], 3)) {
            (Some(p), Some(d)) => Some((p, d)),
            _ => None,
        },
        None => None,
    }
}

impl Ray {
    /// The texts of the three components of the origin and of the three of
    /// the direction in the text `s` of a ray; nothing where `s`, or one of
    /// the two vectors in it, has not its form.
    pub fn fields(s: &str) -> (r: Option<(Vec<String>, Vec<String>)>)
        ensures
            match r {
                Some((p, d)) => p.len() == 3 && d.len() == 3 && ray_fields(s@) == Some(
                    (texts(p@), texts(d@)),
                ),
                None => ray_fields(s@) is None,
            },
    {
        match framed(RAY_PATTERN, s, 2) {
            Some(f) => {
                assert(texts(f@)[0] == f@[0]@ && texts(f@)[1] == f@[1]@);
                match Vector3::fields(f[0].as_str()) {
                    Some(p) => match Vector3::fields(f[1].as_str()) {
                        Some(d) => Some((p, d)),
                        None => None,
                    },
                    None => None,
                }
            },
            None => None,
        }
    }

    pub fn new(p: &Position3, d: &Direction3) -> (r: Ray)
        ensures
            r.pos == *p,
            r.dir == *d,
    {
        Ray { pos: *p, dir: *d }
    }
}

/// A body, or the boundary of one.
#[derive(Debug, PartialEq, Clone, Copy)]
pub enum Shape {
    Point { position: Position3 },
    /// The plane of the points `p` with `nvec . p + dist = 0`.
    Plain { nvec: Direction3, dist: Flt },
    Sphere { center: Position3, radius: Flt },
    /// The triangle with a corner at `position` and the sides `dir1` and
    /// `dir2` from there; `nvec` is its normal.
    Polygon { position: Position3, nvec: Direction3, dir1: Direction3, dir2: Direction3 },
    /// The parallelogram with a corner at `position` and the sides `dir1`
    /// and `dir2` from there; `nvec` is its normal.
    Parallelogram { position: Position3, nvec: Direction3, dir1: Direction3, dir2: Direction3 },
}

impl Shape {
    /// The normal of the shape at a point of its surface.  A flat shape has
    /// the normal it was made with; a sphere has `radial`, the direction
    /// from its centre to the point, where there is one; a point has none.
    pub open spec fn normal_of(self, radial: Option<Direction3>) -> Option<Direction3> {
        match self {
            Shape::Point { .. } => None,
            Shape::Plain { nvec, .. } => Some(nvec),
            Shape::Sphere { .. } => radial,
            Shape::Polygon { nvec, .. } => Some(nvec),
            Shape::Parallelogram { nvec, .. } => Some(nvec),
        }
    }

    /// The bound on the sum of the two coordinates in Moeller's test: 1 for
    /// a triangle, 2 for a parallelogram; the other shapes take no such
    /// test.
    pub open spec fn bound(self) -> Option<Flt> {
        match self {
            Shape::Polygon { .. } => Some(Flt::one()),
            Shape::Parallelogram { .. } => Some(Flt { bits: TWO_BITS }),
            _ => None,
        }
    }

    pub fn moller_bound(&self) -> (r: Option<Flt>)
        ensures
            r == self.bound(),
    {
        match self {
            Shape::Polygon { .. } => Some(Flt::one()),
            Shape::Parallelogram { .. } => Some(Flt::from_bits(TWO_BITS)),
            _ => None,
        }
    }

    /// The distances at which a ray meets the shape, from what the test of
    /// each kind of shape found: `plain` for a plane, `sphere` for a sphere,
    /// `polygon` for a triangle and for a parallelogram.  A point is never
    /// met.
    pub fn distance(&self, plain: &Vec<Flt>, sphere: &Vec<Flt>, polygon: &Vec<Flt>) -> (r: Vec<
        Flt,
    >)
        ensures
            r@ == match *self {
                Shape::Point { .. } => Seq::<Flt>::empty(),
                Shape::Plain { .. } => plain@,
                Shape::Sphere { .. } => sphere@,
                Shape::Polygon { .. } => polygon@,
                Shape::Parallelogram { .. } => polygon@,
            },
    {
        match self {
            Shape::Point { .. } => Vec::new(),
            Shape::Plain { .. } => plain.clone(),
            Shape::Sphere { .. } => sphere.clone(),
            Shape::Polygon { .. } => polygon.clone(),
            Shape::Parallelogram { .. } => polygon.clone(),
        }
    }

    pub fn get_normal(&self, radial: &Option<Direction3>) -> (r: Option<Direction3>)
        ensures
            r == self.normal_of(*radial),
    {
        match self {
            Shape::Point { .. } => None,
            Shape::Plain { nvec, .. } => Some(*nvec),
            Shape::Sphere { .. } => *radial,
            Shape::Polygon { nvec, .. } => Some(*nvec),
            Shape::Parallelogram { nvec, .. } => Some(*nvec),
        }
    }
}

/// Whether a ray meets a triangle or a parallelogram, by Moeller and
/// Trumbore.  `det_a` is the determinant of the system, `u` and `v` are the
/// coordinates of the point in the plane along the two sides, `uv` is their
/// sum and `l` the bound on it: 1 for a triangle, 2 for a parallelogram.
///
/// The ray misses where it runs along the plane (`det_a == 0`), where `u`
/// or `v` is below 0 or above 1, and where `uv` is above `l`.
pub open spec fn moller_misses(l: Flt, det_a: Flt, u: Flt, v: Flt, uv: Flt) -> bool {
    ||| det_a.same(Flt::zero())
    ||| u.less(Flt::zero())
    ||| Flt::one().less(u)
    ||| v.less(Flt::zero())
    ||| Flt::one().less(v)
    ||| l.less(uv)
}

/// The coordinates `u` and `v` and the distance `t` of the point where a ray
/// meets a triangle or a parallelogram; nothing where it misses.
pub fn method_moller(l: &Flt, det_a: &Flt, u: &Flt, v: &Flt, uv: &Flt, t: &Flt) -> (r: Option<
    (Flt, Flt, Flt),
>)
    ensures
        r == if moller_misses(*l, *det_a, *u, *v, *uv) {
            None
        } else {
            Some((*u, *v, *t))
        },
{
    if det_a.is_zero() || u.lt(&Flt::zero()) || u.gt(&Flt::one()) || v.lt(&Flt::zero()) || v.gt(
        &Flt::one(),
    ) || uv.gt(l) {
        None
    } else {
        Some((*u, *v, *t))
    }
}

/// The distance at which a ray meets a plane: `t`, unless the ray runs
/// along the plane.  `cos0` is the cosine between the normal and the ray.
pub fn distance_plain(cos0: &Flt, t: &Flt) -> (r: Vec<Flt>)
    ensures
        r@ == if cos0.same(Flt::zero()) { Seq::<Flt>::empty() } else { seq![*t] },
{
    let mut r: Vec<Flt> = Vec::new();
    if !cos0.is_zero() {
        r.push(*t);
    }
    assert(r@ =~= if cos0.same(Flt::zero()) { Seq::<Flt>::empty() } else { seq![*t] });
    r
}

/// The distances at which a ray meets a sphere, the nearer first.  `t0` is
/// the distance to the point of the ray nearest to the centre, `t1` the
/// square of half the chord that the ray cuts, `t2` its root, and `lo` and
/// `hi` are `t0 - t2` and `t0 + t2`.
///
/// The ray misses where `t1` is not above zero, touches at `t0` where `t2`
/// is zero, and otherwise enters at `lo` and leaves at `hi`.
pub fn distance_sphere(t0: &Flt, t1: &Flt, t2: &Flt, lo: &Flt, hi: &Flt) -> (r: Vec<Flt>)
    ensures
        r@ == if t1.less(Flt::zero()) || t1.same(Flt::zero()) {
            Seq::<Flt>::empty()
        } else if t2.same(Flt::zero()) {
            seq![*t0]
        } else {
            seq![*lo, *hi]
        },
{
    let mut r: Vec<Flt> = Vec::new();
    if t1.lt(&Flt::zero()) || t1.is_zero() {
    } else if t2.is_zero() {
        r.push(*t0);
    } else {
        r.push(*lo);
        r.push(*hi);
    }
    assert(r@ =~= if t1.less(Flt::zero()) || t1.same(Flt::zero()) {
        Seq::<Flt>::empty()
    } else if t2.same(Flt::zero()) {
        seq![*t0]
    } else {
        seq![*lo, *hi]
    });
    r
}

/// The distance at which a ray meets a triangle or a parallelogram, from
/// what Moeller's method found.
pub fn distance_polygon(res: &Option<(Flt, Flt, Flt)>) -> (r: Vec<Flt>)
    ensures
        r@ == match *res {
            Some((_, _, t)) => seq![t],
            None => Seq::<Flt>::empty(),
        },
{
    let mut r: Vec<Flt> = Vec::new();
    match res {
        Some((_, _, t)) => {
            r.push(*t);
        },
        None => {},
    }
    assert(r@ =~= match *res {
        Some((_, _, t)) => seq![t],
        None => Seq::<Flt>::empty(),
    });
    r
}

} // verus!
