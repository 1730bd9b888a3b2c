//! How a surface scatters light.
use vstd::prelude::*;
use core::ops::Neg;
use crate::ray::Flt;
use crate::ray::algebra::Direction3;
use crate::ray::optics::Radiance;
use crate::ray::physics::{check_under, hit, roulette_hit, Color, Wavelength};

verus! {

/// The scattering model of a surface with its parameters.
#[derive(Debug, PartialEq, Clone, Copy)]
pub enum Surface {
    /// The boundary of the ambient medium: it scatters nothing.
    Nothing,
    Simple {
        reflectance: Color,
        specular_refl: Color,
        diffuseness: Flt,
        metalness: Flt,
        roughness: Flt,
        density_pow: Flt,
    },
    /// The Torrance-Sparrow model.  `metalness` is 0 for a dielectric and 1
    /// for a metal.
    TS {
        albedo_diff: Color,
        albedo_spec: Color,
        scatterness: Flt,
        metalness: Flt,
        roughness: Flt,
        density_pow: Flt,
        alpha: Flt,
    },
    DisneyBRDF,
    Brady,
}

impl Surface {
    /// Whether light that arrives with the cosine `cos` to the normal is
    /// partly reflected as by a mirror.
    ///
    /// A simple surface reflects unless it is fully diffuse, or the light
    /// arrives along the normal and the specular reflectance is black.  A
    /// Torrance-Sparrow surface always reflects: a metal does, one with a
    /// specular albedo does, and so does the dielectric without one, whose
    /// reflectance still rises towards grazing angles.
    pub open spec fn reflects(self, cos: Flt) -> bool {
        match self {
            Surface::Simple { specular_refl, diffuseness, .. } => !(diffuseness.same(Flt::one())
                || (cos.same(Flt::one()) && specular_refl.same(Color::black()))),
            Surface::TS { .. } => true,
            _ => false,
        }
    }

    /// Whether light that arrives with the cosine `cos` to the normal is
    /// partly let through.
    ///
    /// A simple surface lets light through unless the light grazes it and
    /// the specular reflectance is white.  A Torrance-Sparrow surface does
    /// so only where it is a dielectric that does not scatter everything
    /// and whose diffuse albedo is not black.
    pub open spec fn refracts(self, cos: Flt) -> bool {
        match self {
            Surface::Simple { specular_refl, .. } => !(cos.same(Flt::zero())
                && specular_refl.same(Color::white())),
            Surface::TS { albedo_diff, scatterness, metalness, .. } => metalness.same(Flt::zero())
                && scatterness.less(Flt::one()) && !albedo_diff.same(Color::black()),
            _ => false,
        }
    }

    /// Whether a photon that meets the surface is kept in the photon map.
    ///
    /// A simple surface keeps it where it is diffuse at all, a
    /// Torrance-Sparrow surface where it is no pure metal and scatters at
    /// all.  No other surface keeps a photon.
    pub open spec fn stores(self) -> bool {
        match self {
            Surface::Simple { diffuseness, .. } => Flt::zero().less(diffuseness),
            Surface::TS { scatterness, metalness, .. } => !metalness.same(Flt::one())
                && !scatterness.same(Flt::zero()),
            _ => false,
        }
    }

    /// The diffuse albedo in a band; zero for a surface without a model.
    pub open spec fn diffuse_albedo(self, wl: Wavelength) -> Flt {
        match self {
            Surface::Simple { reflectance, .. } => reflectance.band(wl),
            Surface::TS { albedo_diff, .. } => albedo_diff.band(wl),
            _ => Flt::zero(),
        }
    }

    /// The specular albedo in a band; zero for a surface without a model.
    pub open spec fn specular_albedo(self, wl: Wavelength) -> Flt {
        match self {
            Surface::Simple { specular_refl, .. } => specular_refl.band(wl),
            Surface::TS { albedo_spec, .. } => albedo_spec.band(wl),
            _ => Flt::zero(),
        }
    }

    /// The probability with which a photon is scattered diffusely rather
    /// than reflected or let through: the diffuseness of a simple surface,
    /// the roughness of a Torrance-Sparrow surface, else zero.
    pub open spec fn spread(self) -> Flt {
        match self {
            Surface::Simple { diffuseness, .. } => diffuseness,
            Surface::TS { roughness, .. } => roughness,
            _ => Flt::zero(),
        }
    }

    /// The exponent of the glossy lobe; zero for a surface without a model.
    pub open spec fn glossy_power(self) -> Flt {
        match self {
            Surface::Simple { density_pow, .. } => density_pow,
            Surface::TS { density_pow, .. } => density_pow,
            _ => Flt::zero(),
        }
    }

    pub fn reflect(&self, cos: &Flt) -> (r: bool)
        ensures
            r == self.reflects(*cos),
    {
        match self {
            Surface::Simple { specular_refl, diffuseness, .. } => {
                !(diffuseness.is_one() || (cos.is_one() && *specular_refl == Color::black()))
            },
            Surface::TS { .. } => true,
            _ => false,
        }
    }

    pub fn refract(&self, cos: &Flt) -> (r: bool)
        ensures
            r == self.refracts(*cos),
    {
        match self {
            Surface::Simple { specular_refl, .. } => {
                !(cos.is_zero() && *specular_refl == Color::white())
            },
            Surface::TS { albedo_diff, scatterness, metalness, .. } => {
                metalness.is_zero() && scatterness.lt(&Flt::one()) && *albedo_diff
                    != Color::black()
            },
            _ => false,
        }
    }

    pub fn store_photon(&self) -> (r: bool)
        ensures
            r == self.stores(),
    {
        match self {
            Surface::Simple { diffuseness, .. } => diffuseness.gt(&Flt::zero()),
            Surface::TS { scatterness, metalness, .. } => {
                !metalness.is_one() && !scatterness.is_zero()
            },
            _ => false,
        }
    }

    pub fn albedo_diff(&self, wl: &Wavelength) -> (r: Flt)
        ensures
            r == self.diffuse_albedo(*wl),
    {
        match self {
            Surface::Simple { reflectance, .. } => reflectance.wavelength(wl),
            Surface::TS { albedo_diff, .. } => albedo_diff.wavelength(wl),
            _ => Flt::zero(),
        }
    }

    pub fn albedo_spec(&self, wl: &Wavelength) -> (r: Flt)
        ensures
            r == self.specular_albedo(*wl),
    {
        match self {
            Surface::Simple { specular_refl, .. } => specular_refl.wavelength(wl),
            Surface::TS { albedo_spec, .. } => albedo_spec.wavelength(wl),
            _ => Flt::zero(),
        }
    }

    pub fn roughness(&self) -> (r: Flt)
        ensures
            r == self.spread(),
    {
        match self {
            Surface::Simple { diffuseness, .. } => *diffuseness,
            Surface::TS { roughness, .. } => *roughness,
            _ => Flt::zero(),
        }
    }

    pub fn power_glossy(&self) -> (r: Flt)
        ensures
            r == self.glossy_power(),
    {
        match self {
            Surface::Simple { density_pow, .. } => *density_pow,
            Surface::TS { density_pow, .. } => *density_pow,
            _ => Flt::zero(),
        }
    }

    /// The radiance that leaves the surface, from what each formula gives
    /// for the light that arrives: `simple` for the simple model,
    /// `dielectric` for a Torrance-Sparrow surface that is no metal at all
    /// (diffuse and transmitted light besides the reflection), `metal` for
    /// one that is (the reflection alone).  A surface without a model gives
    /// nothing back.
    pub open spec fn radiance_back(
        self,
        simple: Radiance,
        dielectric: Radiance,
        metal: Radiance,
    ) -> Radiance {
        match self {
            Surface::Simple { .. } => simple,
            Surface::TS { metalness, .. } => if metalness.same(Flt::zero()) {
                dielectric
            } else {
                metal
            },
            _ => Radiance::radiance0(),
        }
    }

    pub fn bsdf(&self, simple: &Radiance, dielectric: &Radiance, metal: &Radiance) -> (r: Radiance)
        ensures
            r == self.radiance_back(*simple, *dielectric, *metal),
    {
        match self {
            Surface::Simple { .. } => *simple,
            Surface::TS { metalness, .. } => {
                if metalness.is_zero() {
                    *dielectric
                } else {
                    *metal
                }
            },
            _ => Radiance::radiance0(),
        }
    }

    /// Where a photon of the band `wl` goes that meets a Torrance-Sparrow
    /// surface, and on which side: `true` for the side it came from, `false`
    /// for the far side.  No direction means that the surface took it in.
    ///
    /// `f` is the Fresnel reflectance of the band at the angle of
    /// incidence, `rdir` the reflected, `ddir` a diffuse and `tdir` the
    /// refracted direction (none under total internal reflection), and
    /// `us` three draws from the unit interval.  In this order: a hit of the
    /// first draw on `f` reflects the photon; a miss of the second on the
    /// diffuse albedo of the band absorbs it; a hit of the third on the
    /// scatterness sends it off diffusely; what is left is refracted, or
    /// absorbed where there is no refracted direction.  Every other surface
    /// absorbs the photon.
    pub open spec fn next_direction_of(
        self,
        wl: Wavelength,
        f: Flt,
        rdir: Direction3,
        ddir: Direction3,
        tdir: Option<Direction3>,
        us: [Flt; 3],
    ) -> Option<(Direction3, bool)> {
        match self {
            Surface::TS { albedo_diff, scatterness, .. } => {
                if hit(f, us[0]) {
                    Some((rdir, true))
                } else if !hit(albedo_diff.band(wl), us[1]) {
                    None
                } else if hit(scatterness, us[2]) {
                    Some((ddir, true))
                } else {
                    match tdir {
                        Some(t) => Some((t, false)),
                        None => None,
                    }
                }
            },
            _ => None,
        }
    }

    pub fn next_direction(
        &self,
        wl: &Wavelength,
        f: &Flt,
        rdir: &Direction3,
        ddir: &Direction3,
        tdir: &Option<Direction3>,
        us: &[Flt; 3],
    ) -> (r: Option<(Direction3, bool)>)
        ensures
            r == self.next_direction_of(*wl, *f, *rdir, *ddir, *tdir, *us),
    {
        match self {
            Surface::TS { albedo_diff, scatterness, .. } => {
                let one: [Flt; 1] = [*f];
                if check_under(one.as_slice(), &us[0]) == 0 {
                    return Some((*rdir, true));
                }
                let two: [Flt; 1] = [albedo_diff.wavelength(wl)];
                if check_under(two.as_slice(), &us[1]) == 1 {
                    return None;
                }
                let three: [Flt; 1] = [*scatterness];
                if check_under(three.as_slice(), &us[2]) == 0 {
                    return Some((*ddir, true));
                }
                match tdir {
                    Some(t) => Some((*t, false)),
                    None => None,
                }
            },
            _ => None,
        }
    }

    /// Whether a draw `u` chooses the diffuse part of the surface over the
    /// specular one: for a simple surface a miss on the metalness, for a
    /// Torrance-Sparrow surface a miss on `f`, the Fresnel reflectance of
    /// the band at the angle of incidence.  The other surfaces are diffuse
    /// throughout.
    pub open spec fn selects_diffuse(self, f: Flt, u: Flt) -> bool {
        match self {
            Surface::Simple { metalness, .. } => !hit(metalness, u),
            Surface::TS { .. } => !hit(f, u),
            _ => true,
        }
    }

    pub fn select_diffuse(&self, f: &Flt, u: &Flt) -> (r: bool)
        ensures
            r == self.selects_diffuse(*f, *u),
    {
        match self {
            Surface::Simple { metalness, .. } => !roulette_hit(metalness, u),
            Surface::TS { .. } => !roulette_hit(f, u),
            _ => true,
        }
    }
}

/// A direction for diffuse scattering from a sampled direction `d` whose
/// cosine with the surface normal is `c`: `d` itself where it points away
/// from the surface (`c > 0`), and `d` turned round otherwise.
pub fn diffuse_reflection(d: &Direction3, c: &Flt) -> (r: Direction3)
    ensures
        r == if Flt::zero().less(*c) { *d } else { d.negated() },
{
    if c.gt(&Flt::zero()) {
        *d
    } else {
        d.neg()
    }
}

} // verus!
