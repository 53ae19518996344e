//! Intersection of one shape with another.
use vstd::prelude::*;

verus! {

/// A shape that can be intersected with a shape of type `Rhs`.
pub trait Intersects<Rhs> {
    type Intersection;

    fn intersect(self, other: &Rhs) -> Self::Intersection;
}

} // verus!
