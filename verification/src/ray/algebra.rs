//! Three-component vectors, used for positions and for directions alike.
use vstd::prelude::*;
use vstd::std_specs::ops::NegSpecImpl;
use core::ops::Neg;
use crate::ray::Flt;
use crate::text::{fields, framed, texts};

verus! {

/// Three scalars.  A direction is a vector of length one by convention, not
/// by type.
#[derive(Debug, Copy, Clone, PartialEq)]
pub struct Vector3 {
    pub v: [Flt; 3],
}

pub type Position3 = Vector3;

pub type Direction3 = Vector3;

/// The form of the text of a vector: `V3[`, three numbers with commas
/// between them, and `]`.
pub const VECTOR3_PATTERN: &'static str = r"^V3\[(\S+?),(\S+?),(\S+?)\]$";

impl Vector3 {
    /// The texts of the three components in the text `s` of a vector;
    /// nothing where `s` has not the form of one.
    pub fn fields(s: &str) -> (r: Option<Vec<String>>)
        ensures
            match r {
                Some(v) => v.len() == 3 && fields(VECTOR3_PATTERN@, s@, 3) == Some(texts(v@)),
                None => fields(VECTOR3_PATTERN@, s@, 3) is None,
            },
    {
        framed(VECTOR3_PATTERN, s, 3)
    }

    /// The direction of a vector of the length `norm`: `unit`, the vector
    /// divided by its length, unless the length is zero; a vector without
    /// length has no direction.
    pub fn normalize(norm: &Flt, unit: &Vector3) -> (r: Option<Vector3>)
        ensures
            r == if norm.same(Flt::zero()) { None } else { Some(*unit) },
    {
        if norm.is_zero() {
            None
        } else {
            Some(*unit)
        }
    }

    /// A vector divided by the number `s`: `quotient`, unless `s` is zero;
    /// there is no division by zero.
    pub fn div(s: &Flt, quotient: &Vector3) -> (r: Option<Vector3>)
        ensures
            r == if s.same(Flt::zero()) { None } else { Some(*quotient) },
    {
        if s.is_zero() {
            None
        } else {
            Some(*quotient)
        }
    }

    /// The vector with every component negated.
    pub open spec fn negated(self) -> Vector3 {
        Vector3 { v: [self.v[0].negated(), self.v[1].negated(), self.v[2].negated()] }
    }

    pub fn new(x: Flt, y: Flt, z: Flt) -> (r: Vector3)
        ensures
            r.v[0] == x,
            r.v[1] == y,
            r.v[2] == z,
    {
        Vector3 { v: [x, y, z] }
    }

    pub fn new_pos(x: Flt, y: Flt, z: Flt) -> (r: Position3)
        ensures
            r.v[0] == x,
            r.v[1] == y,
            r.v[2] == z,
    {
        Vector3 { v: [x, y, z] }
    }
}

impl core::ops::Neg for Vector3 {
    type Output = Vector3;

    fn neg(self) -> (r: Vector3) {
        Vector3 { v: [self.v[0].neg(), self.v[1].neg(), self.v[2].neg()] }
    }
}

impl NegSpecImpl for Vector3 {
    open spec fn obeys_neg_spec() -> bool {
        true
    }

    open spec fn neg_req(self) -> bool {
        true
    }

    open spec fn neg_spec(self) -> Vector3 {
        self.negated()
    }
}

/// Whether a point drawn from the cube round the unit ball serves for a
/// random direction: its distance `len` from the centre is above zero and
/// at most one.
pub fn in_unit_ball(len: &Flt) -> (r: bool)
    ensures
        r == (Flt::zero().less(*len) && len.at_most(Flt::one())),
{
    len.gt(&Flt::zero()) && len.le(&Flt::one())
}

} // verus!
