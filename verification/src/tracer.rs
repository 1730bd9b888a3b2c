//! The decisions of the photon walk and of the eye-ray recursion.
//!
//! A walk alternates between numeric work (finding the next hit, sampling
//! directions, drawing random numbers) and decisions.  The decisions are
//! here: each function takes what the numeric side has found at one hit and
//! says what happens next.
use vstd::prelude::*;
use core::ops::Neg;
use crate::ray::Flt;
use crate::ray::algebra::{Direction3, Position3};
use crate::ray::geometry::Ray;
use crate::ray::material::Material;
use crate::ray::optics::{Photon, PhotonFilter, Radiance};
use crate::ray::physics::{hit, roulette_hit, Wavelength};
use crate::ray::surface::Surface;
use crate::scene::m_air;

verus! {

/// The number of hits after which a walk or an eye ray is given up.
pub const MAX_TRACE: i32 = 10;

/// The bit pattern of 0.002, the squared distance by which a light may lie
/// behind the first thing that a shadow ray meets and still count as seen.
pub const SHADOW_SLACK_BITS: u64 = 0x3F60_624D_D2F1_A9FC;

/// The side from which a ray meets a surface: `In` from outside the body,
/// `Out` from within.
#[derive(Debug, PartialEq, Eq, Structural, Clone, Copy)]
pub enum InOut {
    In,
    Out,
}

/// Where a ray meets the scene.  `nvec` is the surface normal on the side
/// from which the ray arrives.
#[derive(Debug, PartialEq, Clone, Copy)]
pub struct Intersection {
    pub pos: Position3,
    pub nvec: Direction3,
    pub mate: Material,
    pub io: InOut,
}

/// A distance along a ray counts as a hit where it is above the nearly-zero
/// distance: a ray does not meet again the surface that it starts from.  What
/// is no number is above nothing and does not count.
pub open spec fn counts(t: Flt) -> bool {
    Flt::nearly0().less(t)
}

/// `i` is the place in `ts` of the hit that a ray meets first: it counts,
/// nothing that counts is nearer, and what counts before it is farther.
pub open spec fn is_nearest(ts: Seq<Flt>, i: int) -> bool {
    &&& 0 <= i < ts.len()
    &&& counts(ts[i])
    &&& forall|j: int| 0 <= j < ts.len() && counts(ts[j]) ==> !(#[trigger] ts[j]).less(ts[i])
    &&& forall|j: int| 0 <= j < i && counts(ts[j]) ==> ts[i].less(#[trigger] ts[j])
}

/// The first hit among the distances at which a ray meets the objects of a
/// scene, as a place in `ts`; none where nothing counts as a hit.
pub fn nearest(ts: &Vec<Flt>) -> (r: Option<usize>)
    ensures
        match r {
            Some(i) => is_nearest(ts@, i as int),
            None => forall|j: int| 0 <= j < ts.len() ==> !counts(#[trigger] ts[j]),
        },
{
    let mut best: Option<usize> = None;
    let mut k: usize = 0;
    while k < ts.len()
        invariant
            k <= ts.len(),
            match best {
                Some(i) => is_nearest(ts@.take(k as int), i as int),
                None => forall|j: int| 0 <= j < k ==> !counts(#[trigger] ts[j]),
            },
        decreases ts.len() - k,
    {
        let t = ts[k];
        if t.gt(&Flt::nearly0()) {
            match best {
                Some(i) => {
                    if t.lt(&ts[i]) {
                        best = Some(k);
                    }
                },
                None => {
                    best = Some(k);
                },
            }
        }
        k += 1;
        proof {
            let old_ts = ts@.take(k - 1);
            let new_ts = ts@.take(k as int);
            assert(forall|j: int| 0 <= j < k - 1 ==> old_ts[j] == new_ts[j]);
            assert(new_ts[k - 1] == t);
        }
    }
    proof {
        assert(ts@.take(k as int) =~= ts@);
    }
    best
}

/// No two places are both the place of the first hit.
pub proof fn lemma_nearest_unique(ts: Seq<Flt>, i: int, j: int)
    requires
        is_nearest(ts, i),
        is_nearest(ts, j),
    ensures
        i == j,
{
    if i < j {
        assert(ts[j].less(ts[i]));
        assert(!ts[i].less(ts[j]));
    } else if j < i {
        assert(ts[i].less(ts[j]));
        assert(!ts[j].less(ts[i]));
    }
}

/// What the first hit of a ray looks like from the ray.  `n` is the normal
/// of the surface at `pos` and `cos` its cosine with the ray's direction:
/// where `cos > 0` the ray comes from within, the normal is turned round and
/// the hit is marked `Out`; otherwise the normal stays and the hit is `In`.
pub fn orient(pos: &Position3, n: &Direction3, cos: &Flt, mate: &Material) -> (is: Intersection)
    ensures
        is.pos == *pos,
        is.mate == *mate,
        is.nvec == if Flt::zero().less(*cos) { n.negated() } else { *n },
        is.io == if Flt::zero().less(*cos) { InOut::Out } else { InOut::In },
{
    if cos.gt(&Flt::zero()) {
        Intersection { pos: *pos, nvec: n.neg(), mate: *mate, io: InOut::Out }
    } else {
        Intersection { pos: *pos, nvec: *n, mate: *mate, io: InOut::In }
    }
}

/// A walk or an eye ray that has already met `l` surfaces is given up.
pub fn expired(l: i32) -> (r: bool)
    ensures
        r == (l >= MAX_TRACE),
{
    l >= MAX_TRACE
}

/// The smaller of two cosines: `cos1` where `cos1 < cos2`, else `cos2`.
pub fn smaller(cos1: &Flt, cos2: &Flt) -> (r: Flt)
    ensures
        r == if cos1.less(*cos2) { *cos1 } else { *cos2 },
{
    if cos1.lt(cos2) {
        *cos1
    } else {
        *cos2
    }
}

/// What the numeric side supplies for one photon at one hit.
#[derive(Debug, PartialEq, Clone, Copy)]
pub struct Scatter {
    /// The Fresnel reflectance of the photon's band at the angle of
    /// incidence.
    pub f: Flt,
    /// The direction of the reflected photon.
    pub rdir: Direction3,
    /// A diffuse direction on the side of the normal.
    pub ddir: Direction3,
    /// The direction of the refracted photon; none under total internal
    /// reflection.
    pub tdir: Option<Direction3>,
    /// The cosine between the refracted direction and the normal.
    pub tcos: Flt,
    /// Three draws from the unit interval.
    pub us: [Flt; 3],
}

/// A direction to go on in, and the medium on that side of the surface.
pub type Onward = Option<(Direction3, Material)>;

/// The medium beyond a hit for a refracted direction whose cosine with the
/// normal is `tcos`: the material of the body where the direction points
/// into it (`tcos < 0`), and air where it points out of it.
pub open spec fn medium_beyond(is: Intersection, tcos: Flt) -> Material {
    if tcos.less(Flt::zero()) {
        is.mate
    } else {
        m_air()
    }
}

/// A photon that a simple surface scatters diffusely: a hit of the draw `u`
/// on the diffuse albedo of the photon's band sends it on along `ddir` in
/// the medium it came through, a miss absorbs it.
pub open spec fn diffuse_exit(
    m0: Material,
    is: Intersection,
    wl: Wavelength,
    ddir: Direction3,
    u: Flt,
) -> Onward {
    if hit(is.mate.surface.diffuse_albedo(wl), u) {
        Some((ddir, m0))
    } else {
        None
    }
}

/// A photon that a simple surface lets through: it goes on along the
/// refracted direction in the medium beyond, and is absorbed where there is
/// no such direction.
pub open spec fn refracted_exit(is: Intersection, tdir: Option<Direction3>, tcos: Flt) -> Onward {
    match tdir {
        Some(t) => Some((t, medium_beyond(is, tcos))),
        None => None,
    }
}

/// A photon that a simple surface does not scatter diffusely: a hit of the
/// draw `u` on the Fresnel reflectance `f` reflects it along `rdir` in the
/// medium it came through; after a miss it is absorbed by a body that is
/// opaque in its band (index of refraction zero), and refracted otherwise.
pub open spec fn specular_exit(
    m0: Material,
    is: Intersection,
    wl: Wavelength,
    f: Flt,
    rdir: Direction3,
    tdir: Option<Direction3>,
    tcos: Flt,
    u: Flt,
) -> Onward {
    if hit(f, u) {
        Some((rdir, m0))
    } else if is.mate.ior.band(wl).same(Flt::zero()) {
        None
    } else {
        refracted_exit(is, tdir, tcos)
    }
}

/// How a photon of the band `wl` that came through the medium `m0` leaves
/// the hit `is`.
///
/// On a simple surface the first draw decides between the diffuse and the
/// specular part: a hit on the surface's spread chooses the diffuse one.
/// The second draw then decides within the part.  On a Torrance-Sparrow
/// surface the three draws are those of `Surface::next_direction_of`; a
/// photon that stays on its side stays in `m0`, one that crosses enters
/// the material of the body.  Every other surface absorbs the photon.
pub open spec fn exit(m0: Material, is: Intersection, wl: Wavelength, sc: Scatter) -> Onward {
    match is.mate.surface {
        Surface::Simple { .. } => {
            if hit(is.mate.surface.spread(), sc.us[0]) {
                diffuse_exit(m0, is, wl, sc.ddir, sc.us[1])
            } else {
                specular_exit(m0, is, wl, sc.f, sc.rdir, sc.tdir, sc.tcos, sc.us[1])
            }
        },
        Surface::TS { .. } => {
            match is.mate.surface.next_direction_of(wl, sc.f, sc.rdir, sc.ddir, sc.tdir, sc.us) {
                Some((dir, true)) => Some((dir, m0)),
                Some((dir, false)) => Some((dir, is.mate)),
                None => None,
            }
        },
        _ => None,
    }
}

/// A photon that has met `l` surfaces before is kept at this one: the
/// surface keeps photons, and either the direct light is not worked out
/// separately (`uc` false) or this is not the photon's first hit.
pub open spec fn keeps(uc: bool, l: int, sf: Surface) -> bool {
    (!uc || l > 0) && sf.stores()
}

pub fn reflect_diff(
    m0: &Material,
    is: &Intersection,
    wl: &Wavelength,
    ddir: &Direction3,
    u: &Flt,
) -> (r: Onward)
    ensures
        r == diffuse_exit(*m0, *is, *wl, *ddir, *u),
{
    if roulette_hit(&is.mate.surface.albedo_diff(wl), u) {
        Some((*ddir, *m0))
    } else {
        None
    }
}

pub fn reflect_trans(is: &Intersection, tdir: &Option<Direction3>, tcos: &Flt) -> (r: Onward)
    ensures
        r == refracted_exit(*is, *tdir, *tcos),
{
    match tdir {
        Some(t) => {
            let m02 = if tcos.lt(&Flt::zero()) { is.mate } else { m_air() };
            Some((*t, m02))
        },
        None => None,
    }
}

pub fn reflect_spec(
    m0: &Material,
    is: &Intersection,
    wl: &Wavelength,
    f: &Flt,
    rdir: &Direction3,
    tdir: &Option<Direction3>,
    tcos: &Flt,
    u: &Flt,
) -> (r: Onward)
    ensures
        r == specular_exit(*m0, *is, *wl, *f, *rdir, *tdir, *tcos, *u),
{
    if roulette_hit(f, u) {
        Some((*rdir, *m0))
    } else if is.mate.ior.wavelength(wl).is_zero() {
        None
    } else {
        reflect_trans(is, tdir, tcos)
    }
}

/// What one hit does to a photon.
#[derive(Debug, PartialEq, Clone, Copy)]
pub struct PhotonStep {
    /// The photon as it is kept in the photon map, if it is kept: at the
    /// place of the hit, with the direction in which it arrived.
    pub stored: Option<Photon>,
    /// The photon as it leaves the hit and the medium that it then travels
    /// through; none where the walk ends.
    pub next: Option<(Photon, Material)>,
}

/// What a hit does to the photon `ph`, which came through the medium `m0`
/// and has met `l` surfaces before: it is kept at the hit exactly where
/// `keeps` holds, and goes on from the hit as `exit` says, in its own band.
pub open spec fn step_at(
    uc: bool,
    m0: Material,
    l: int,
    ph: Photon,
    is: Intersection,
    sc: Scatter,
) -> PhotonStep {
    PhotonStep {
        stored: if keeps(uc, l, is.mate.surface) {
            Some(Photon { wl: ph.wl, ray: Ray { pos: is.pos, dir: ph.ray.dir } })
        } else {
            None
        },
        next: match exit(m0, is, ph.wl, sc) {
            Some((dir, m)) => Some((Photon { wl: ph.wl, ray: Ray { pos: is.pos, dir: dir } }, m)),
            None => None,
        },
    }
}

/// One step of the walk of the photon `ph`, which came through the medium
/// `m0` and has met `l` surfaces before.  `hit` is what it meets next, if
/// it meets anything.
///
/// A photon that has met `MAX_TRACE` surfaces is given up, and one that
/// meets nothing is lost: nothing is kept and the walk ends.  Otherwise the
/// step is that of `step_at`.
pub fn photon_step(
    uc: &bool,
    m0: &Material,
    l: i32,
    ph: &Photon,
    hit: &Option<Intersection>,
    sc: &Scatter,
) -> (r: PhotonStep)
    ensures
        r == match *hit {
            Some(is) if l < MAX_TRACE => step_at(*uc, *m0, l as int, *ph, is, *sc),
            _ => (PhotonStep { stored: None, next: None }),
        },
{
    if l >= MAX_TRACE {
        return PhotonStep { stored: None, next: None };
    }
    let is = match hit {
        Some(is) => is,
        None => {
            return PhotonStep { stored: None, next: None };
        },
    };
    let sf = is.mate.surface;
    let onward: Onward = match sf {
        Surface::Simple { .. } => {
            if roulette_hit(&sf.roughness(), &sc.us[0]) {
                reflect_diff(m0, is, &ph.wl, &sc.ddir, &sc.us[1])
            } else {
                reflect_spec(m0, is, &ph.wl, &sc.f, &sc.rdir, &sc.tdir, &sc.tcos, &sc.us[1])
            }
        },
        Surface::TS { .. } => {
            match sf.next_direction(&ph.wl, &sc.f, &sc.rdir, &sc.ddir, &sc.tdir, &sc.us) {
                Some((dir, m)) => {
                    if m {
                        Some((dir, *m0))
                    } else {
                        Some((dir, is.mate))
                    }
                },
                None => None,
            }
        },
        _ => None,
    };
    let next = match onward {
        Some((dir, m)) => Some((Photon::new(&ph.wl, &Ray::new(&is.pos, &dir)), m)),
        None => None,
    };
    let stored = if (!*uc || l > 0) && sf.store_photon() {
        Some(Photon::new(&ph.wl, &Ray::new(&is.pos, &ph.ray.dir)))
    } else {
        None
    };
    PhotonStep { stored, next }
}

/// What a walk keeps: nothing at the first hit where the direct light is
/// worked out separately; and what is kept lies on a surface that keeps
/// photons and has the direction in which the photon arrived.
pub proof fn lemma_kept_photons(
    uc: bool,
    m0: Material,
    l: int,
    ph: Photon,
    is: Intersection,
    sc: Scatter,
)
    ensures
        uc ==> step_at(uc, m0, 0, ph, is, sc).stored is None,
        step_at(uc, m0, l, ph, is, sc).stored is Some ==> is.mate.surface.stores(),
        step_at(uc, m0, l, ph, is, sc).stored is Some ==> step_at(
            uc,
            m0,
            l,
            ph,
            is,
            sc,
        ).stored->0.ray.dir == ph.ray.dir,
{
}

/// What an eye ray asks for at a hit before the radiance there can be put
/// together.
#[derive(Debug, PartialEq, Clone, Copy)]
pub struct RayPlan {
    /// The direct light is worked out from the lights.
    pub direct: bool,
    /// A ray is followed along the reflected direction, in the medium that
    /// the eye ray came through.
    pub reflect: bool,
    /// A ray is followed along this refracted direction, in this medium.
    pub transmit: Option<(Direction3, Material)>,
}

/// The medium beyond a hit for an eye ray that the photon map lights: the
/// material of the body for a ray that arrives from outside, air for one
/// that arrives from within.
pub open spec fn medium_behind(is: Intersection) -> Material {
    match is.io {
        InOut::In => is.mate,
        InOut::Out => m_air(),
    }
}

/// The plan of an eye ray at the hit `is`, where the photon map supplies the
/// indirect light.  `cos1` is the cosine of the angle of incidence, `tdir`
/// the refracted direction (none under total internal reflection).
///
/// The direct light is worked out separately exactly where `uc` says so.
/// The reflected ray is followed where the surface reflects at `cos1`, the
/// refracted one where there is a refracted direction and the surface lets
/// light through at `cos1`.
pub open spec fn plan_at(uc: bool, is: Intersection, cos1: Flt, tdir: Option<Direction3>) -> RayPlan {
    RayPlan {
        direct: uc,
        reflect: is.mate.surface.reflects(cos1),
        transmit: match tdir {
            Some(t) if is.mate.surface.refracts(cos1) => Some((t, medium_behind(is))),
            _ => None,
        },
    }
}

/// The plan of an eye ray at the hit `is` without a photon map.  The direct
/// light is always worked out; the medium beyond the hit goes by `tcos`, the
/// cosine between the refracted direction and the normal.
pub open spec fn classic_plan_at(
    is: Intersection,
    cos1: Flt,
    tdir: Option<Direction3>,
    tcos: Flt,
) -> RayPlan {
    RayPlan {
        direct: true,
        reflect: is.mate.surface.reflects(cos1),
        transmit: match tdir {
            Some(t) if is.mate.surface.refracts(cos1) => Some((t, medium_beyond(is, tcos))),
            _ => None,
        },
    }
}

/// What an eye ray that has met `l` surfaces before does at `hit`, what it
/// meets next if it meets anything.
///
/// A ray that has met `MAX_TRACE` surfaces is given up and a ray that meets
/// nothing sees nothing: there is no plan, and the ray brings no radiance.
/// Otherwise the plan is that of `plan_at`.
pub fn trace_ray(
    uc: &bool,
    l: i32,
    hit: &Option<Intersection>,
    cos1: &Flt,
    tdir: &Option<Direction3>,
) -> (r: Option<RayPlan>)
    ensures
        r is None <==> l >= MAX_TRACE || *hit is None,
        r == match *hit {
            Some(is) if l < MAX_TRACE => Some(plan_at(*uc, is, *cos1, *tdir)),
            _ => None,
        },
{
    if l >= MAX_TRACE {
        return None;
    }
    let is = match hit {
        Some(is) => is,
        None => {
            return None;
        },
    };
    let transmit = match tdir {
        Some(t) => {
            if is.mate.surface.refract(cos1) {
                let m02 = match is.io {
                    InOut::In => is.mate,
                    InOut::Out => m_air(),
                };
                Some((*t, m02))
            } else {
                None
            }
        },
        None => None,
    };
    Some(RayPlan { direct: *uc, reflect: is.mate.surface.reflect(cos1), transmit })
}

/// What an eye ray that has met `l` surfaces before does at `hit` without
/// a photon map: no plan for a ray that has met `MAX_TRACE` surfaces or
/// meets nothing, and otherwise the plan of `classic_plan_at`.
pub fn trace_ray_classic(
    l: i32,
    hit: &Option<Intersection>,
    cos1: &Flt,
    tdir: &Option<Direction3>,
    tcos: &Flt,
) -> (r: Option<RayPlan>)
    ensures
        r is None <==> l >= MAX_TRACE || *hit is None,
        r == match *hit {
            Some(is) if l < MAX_TRACE => Some(classic_plan_at(is, *cos1, *tdir, *tcos)),
            _ => None,
        },
{
    if l >= MAX_TRACE {
        return None;
    }
    let is = match hit {
        Some(is) => is,
        None => {
            return None;
        },
    };
    let transmit = match tdir {
        Some(t) => {
            if is.mate.surface.refract(cos1) {
                let m02 = if tcos.lt(&Flt::zero()) { is.mate } else { m_air() };
                Some((*t, m02))
            } else {
                None
            }
        },
        None => None,
    };
    Some(RayPlan { direct: true, reflect: is.mate.surface.reflect(cos1), transmit })
}

/// The radiance that an eye ray brings: nothing where it has no plan, and
/// else `seen`, what the numbers give for the hit.
pub fn radiance_of(plan: &Option<RayPlan>, seen: &Radiance) -> (r: Radiance)
    ensures
        r == match *plan {
            Some(_) => *seen,
            None => Radiance::radiance0(),
        },
{
    match plan {
        Some(_) => *seen,
        None => Radiance::radiance0(),
    }
}

/// Whether a light lights a point.  `cos0` is the cosine between the
/// surface normal at the point and the direction to the light, and `gap`
/// the squared distance to the light less the squared distance to the
/// first thing that a ray towards the light meets, if it meets anything.
///
/// The light counts unless it is behind the surface (`cos0 < 0`), the ray
/// towards it meets nothing, or the light lies more than the slack behind
/// what the ray meets.
pub fn illuminated(cos0: &Flt, gap: &Option<Flt>) -> (r: bool)
    ensures
        r == match *gap {
            Some(g) => !cos0.less(Flt::zero()) && !(Flt { bits: SHADOW_SLACK_BITS }).less(g),
            None => false,
        },
{
    match gap {
        Some(g) => !cos0.lt(&Flt::zero()) && !g.gt(&Flt::from_bits(SHADOW_SLACK_BITS)),
        None => false,
    }
}

/// The bit pattern of `1 - exp(-1.953)`, the largest value of the Gauss
/// kernel's argument for which a photon still counts.
pub const E_BETA_BITS: u64 = 0x3FEB_75FB_6A1D_D92C;

/// The weight of the cone kernel.  `d2` is the distance of the photon from
/// the point of the estimate, relative to the radius and divided by the
/// kernel's constant, and `w` the weight that the kernel's formula gives:
/// the photon counts with `w` unless `d2` is above one.
pub fn cone_cut(d2: &Flt, w: &Flt) -> (r: Flt)
    ensures
        r == if Flt::one().less(*d2) { Flt::zero() } else { *w },
{
    if d2.gt(&Flt::one()) {
        Flt::zero()
    } else {
        *w
    }
}

/// The weight of the Gauss kernel.  `e_r` is the kernel's argument for the
/// photon and `w` the weight that the kernel's formula gives: the photon
/// counts with `w` unless `e_r` is above the kernel's bound.
pub fn gauss_cut(e_r: &Flt, w: &Flt) -> (r: Flt)
    ensures
        r == if (Flt { bits: E_BETA_BITS }).less(*e_r) { Flt::zero() } else { *w },
{
    if e_r.gt(&Flt::from_bits(E_BETA_BITS)) {
        Flt::zero()
    } else {
        *w
    }
}

/// The weight of a photon under the kernel `pf`, from the weights that the
/// cone and the Gauss kernel give it: one without a kernel.
pub fn filter_weight(pf: &PhotonFilter, cone: &Flt, gauss: &Flt) -> (r: Flt)
    ensures
        r == match *pf {
            PhotonFilter::Non => Flt::one(),
            PhotonFilter::Cone => *cone,
            PhotonFilter::Gauss => *gauss,
        },
{
    match pf {
        PhotonFilter::Non => Flt::one(),
        PhotonFilter::Cone => *cone,
        PhotonFilter::Gauss => *gauss,
    }
}

} // verus!
