//! Moving a shape sideways.
use vstd::prelude::*;
use crate::geometry::base::Value;

verus! {

/// A shape that can be moved at right angles to its own direction.
///
/// A positive offset moves a line to the left of its direction (a quarter
/// turn counterclockwise from it) and an arc away from its centre; a negative
/// offset moves them the other way. A polygon whose points run
/// counterclockwise therefore shrinks with a positive offset and grows with a
/// negative one.
pub trait Offset<T: Value> {
    type OffsetResult;

    fn offset(self, offset: T) -> Self::OffsetResult;
}

} // verus!
