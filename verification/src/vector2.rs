//! Vectors in the plane.

use vstd::prelude::*;
use crate::scalar::{fuzzy_eq_spec, Arithmetic, Real};

verus! {

/// A point of the plane, or a displacement in it, by its two coordinates.
#[derive(Clone, Copy, Debug, PartialEq)]
pub struct Vector2<T> {
    pub x: T,
    pub y: T,
}

impl<T: Arithmetic> Vector2<T> {
    /// The vector whose two coordinates are zero.
    pub open spec fn zero_spec() -> Self {
        Vector2 { x: T::zero_spec(), y: T::zero_spec() }
    }

    /// `self + other`, coordinate by coordinate.
    pub open spec fn add_spec(self, other: Self) -> Self {
        Vector2 { x: self.x.add_spec(other.x), y: self.y.add_spec(other.y) }
    }

    /// `self - other`, coordinate by coordinate.
    pub open spec fn sub_spec(self, other: Self) -> Self {
        Vector2 { x: self.x.sub_spec(other.x), y: self.y.sub_spec(other.y) }
    }

    /// Each coordinate of `self` times `factor`.
    pub open spec fn scale_spec(self, factor: T) -> Self {
        Vector2 { x: self.x.mul_spec(factor), y: self.y.mul_spec(factor) }
    }

    /// The dot product `self.x * other.x + self.y * other.y`.
    pub open spec fn dot_spec(self, other: Self) -> T {
        self.x.mul_spec(other.x).add_spec(self.y.mul_spec(other.y))
    }

    /// Both coordinates of `self` equal those of `other` within the tolerance.
    pub open spec fn fuzzy_eq_spec(self, other: Self) -> bool {
        fuzzy_eq_spec(self.x, other.x) && fuzzy_eq_spec(self.y, other.y)
    }
}

impl<T: Real> Vector2<T> {
    /// The vector with the coordinates `x` and `y`.
    pub fn new(x: T, y: T) -> (r: Self)
        ensures
            r == (Vector2 { x, y }),
    {
        Vector2 { x, y }
    }

    /// The vector whose two coordinates are zero.
    pub fn zero() -> (r: Self)
        ensures
            r == Self::zero_spec(),
    {
        Vector2 { x: T::zero(), y: T::zero() }
    }

    /// `self + other`, coordinate by coordinate.
    pub fn add(self, other: Self) -> (r: Self)
        ensures
            r == self.add_spec(other),
    {
        Vector2 { x: self.x.add(other.x), y: self.y.add(other.y) }
    }

    /// `self - other`, coordinate by coordinate.
    pub fn sub(self, other: Self) -> (r: Self)
        ensures
            r == self.sub_spec(other),
    {
        Vector2 { x: self.x.sub(other.x), y: self.y.sub(other.y) }
    }

    /// Each coordinate of `self` times `factor`.
    pub fn scale(self, factor: T) -> (r: Self)
        ensures
            r == self.scale_spec(factor),
    {
        Vector2 { x: self.x.mul(factor), y: self.y.mul(factor) }
    }

    /// The dot product of `self` and `other`.
    pub fn dot(self, other: Self) -> (r: T)
        ensures
            r == self.dot_spec(other),
    {
        self.x.mul(other.x).add(self.y.mul(other.y))
    }

    /// Whether both coordinates of `self` equal those of `other` within the
    /// tolerance.
    pub fn fuzzy_eq(self, other: Self) -> (r: bool)
        ensures
            r == self.fuzzy_eq_spec(other),
    {
        self.x.fuzzy_eq(other.x) && self.y.fuzzy_eq(other.y)
    }
}

} // verus!
