//! The scattering models that a material can be rendered with.
use vstd::prelude::*;

verus! {

/// A model of how a surface scatters light.
#[derive(Debug, PartialEq, Eq, Structural, Clone, Copy)]
pub enum BSDF {
    Simple,
    Simple2,
    LambertBlinn,
    DisneyBRDF,
    Brady,
}

} // verus!
