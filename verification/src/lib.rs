//! The intersection of two circles in the plane, computed over any numeric
//! type with tolerant comparisons.
//!
//! - [`scalar`]: what a numeric type must offer, and the tolerant comparisons.
//! - [`vector2`]: vectors in the plane.
//! - [`intersect`]: the intersection itself, [`circle_circle_intr`].
//! - [`laws`]: what holds of the intersection over every arithmetic.
//! - [`exact`] and [`geometry`]: the real numbers as an arithmetic, and what
//!   the intersection is when it is computed with them.

mod algebra;
pub mod exact;
pub mod geometry;
pub mod intersect;
pub mod laws;
pub mod scalar;
pub mod vector2;

pub use intersect::{circle_circle_intr, CircleCircleIntr};
pub use scalar::{Arithmetic, Real};
pub use vector2::Vector2;
