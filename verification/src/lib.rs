//! Plane geometry over a finite scalar: angles, points and vectors, line
//! segments and circular arcs in a form that makes a perpendicular offset a
//! change of one field, their intersections, and the offsetting and corner
//! rounding of polylines and polygons.
//!
//! The scalar is any type with the operations of [`geometry::Value`].
//! Contracts name what each scalar operation returns and reason about
//! scalars only through their order.
pub mod geometry;
