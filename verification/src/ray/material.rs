//! What an object is made of.
use vstd::prelude::*;
use crate::ray::optics::Radiance;
use crate::ray::physics::Color;
use crate::ray::surface::Surface;

verus! {

/// The optical properties of a medium and of its boundary.
#[derive(Debug, PartialEq, Clone, Copy)]
pub struct Material {
    pub emittance: Radiance,
    pub transmittance: Color,
    pub ior: Color,
    pub surface: Surface,
}

} // verus!
