//! The things that a scene is made of.
use vstd::prelude::*;
use crate::ray::geometry::Shape;
use crate::ray::material::Material;

verus! {

/// A shape and what it is made of.
#[derive(Debug, PartialEq, Clone, Copy)]
pub struct Object {
    pub shape: Shape,
    pub material: Material,
}

impl Object {
    pub fn new(s: &Shape, m: &Material) -> (o: Object)
        ensures
            o.shape == *s,
            o.material == *m,
    {
        Object { shape: *s, material: *m }
    }
}

} // verus!
