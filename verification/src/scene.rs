//! The medium that fills the scene.
use vstd::prelude::*;
use crate::ray::material::Material;
use crate::ray::optics::Radiance;
use crate::ray::physics::Color;
use crate::ray::surface::Surface;

verus! {

pub open spec fn spec_m_air() -> Material {
    Material {
        emittance: Radiance::radiance0(),
        transmittance: Color::white(),
        ior: Color::white(),
        surface: Surface::Nothing,
    }
}

/// Air: it emits nothing, lets everything through, has the index of
/// refraction one in every band and no surface.
#[verifier::when_used_as_spec(spec_m_air)]
pub fn m_air() -> (m: Material)
    ensures
        m == spec_m_air(),
{
    Material {
        emittance: Radiance::radiance0(),
        transmittance: Color::white(),
        ior: Color::white(),
        surface: Surface::Nothing,
    }
}

} // verus!
