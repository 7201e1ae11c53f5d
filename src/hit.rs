//! Orientation of a surface hit relative to the incoming ray.

use vstd::prelude::*;

verus! {

/// Which side of a surface a ray struck. The stored normal of a hit always
/// faces against the incoming ray, so for an `Inwards` hit it is the
/// geometric outward normal negated.
#[derive(Clone, Copy, Debug, PartialEq, Eq, Structural)]
pub enum Face {
    Inwards,
    Outwards,
}

impl Face {
    /// Classifies a hit from the sign of the dot product of the ray
    /// direction and the outward normal: `against_normal` holds when that
    /// product is negative, i.e. the ray comes from outside.
    pub fn get(against_normal: bool) -> (f: Face)
        ensures
            f == (if against_normal {
                Face::Outwards
            } else {
                Face::Inwards
            }),
    {
        if against_normal {
            Face::Outwards
        } else {
            Face::Inwards
        }
    }

    /// Whether the outward normal must be negated to face against the ray.
    pub fn flips_normal(&self) -> (flip: bool)
        ensures
            flip <==> *self == Face::Inwards,
    {
        match self {
            Face::Inwards => true,
            Face::Outwards => false,
        }
    }
}

} // verus!
