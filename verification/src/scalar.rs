//! The numbers that the geometry is computed with.
//!
//! [`Arithmetic`] describes a numeric type by its operations, taken as mathematical
//! functions. [`Real`] adds the executable operations and ties each one to its
//! function. The tolerant comparisons are defined once, for every arithmetic, from
//! `abs`, `-`, `+`, `<`, `<=` and the tolerance of the type.

use vstd::prelude::*;

verus! {

/// The operations of a numeric type, as mathematical functions.
///
/// Nothing is asked of them: sums need not commute and `sqrt` need not be exact.
/// A type with rounding arithmetic states here what its operations compute,
/// rounding included; the real numbers give them their exact meaning.
///
/// Every function has a provided body that leaves its value unspecified, so
/// that a type whose operations are not described to the verifier needs
/// nothing but an empty `impl`. A type that is to be reasoned about defines
/// all of them.
pub trait Arithmetic: Sized {
    /// The number zero.
    open spec fn zero_spec() -> Self {
        arbitrary()
    }

    /// The number two.
    open spec fn two_spec() -> Self {
        arbitrary()
    }

    /// The tolerance of the type: how far two numbers may lie apart and still
    /// count as equal.
    open spec fn epsilon_spec() -> Self {
        arbitrary()
    }

    /// `self + other`.
    open spec fn add_spec(self, other: Self) -> Self {
        arbitrary()
    }

    /// `self - other`.
    open spec fn sub_spec(self, other: Self) -> Self {
        arbitrary()
    }

    /// `self * other`.
    open spec fn mul_spec(self, other: Self) -> Self {
        arbitrary()
    }

    /// `self / other`.
    open spec fn div_spec(self, other: Self) -> Self {
        arbitrary()
    }

    /// The square root of `self`.
    open spec fn sqrt_spec(self) -> Self {
        arbitrary()
    }

    /// The absolute value of `self`.
    open spec fn abs_spec(self) -> Self {
        arbitrary()
    }

    /// `self < other`, without tolerance.
    open spec fn lt_spec(self, other: Self) -> bool {
        arbitrary()
    }

    /// `self <= other`, without tolerance.
    open spec fn le_spec(self, other: Self) -> bool {
        arbitrary()
    }
}

/// `|x| <= epsilon`: `x` is zero within the tolerance.
pub open spec fn fuzzy_eq_zero_spec<T: Arithmetic>(x: T) -> bool {
    x.abs_spec().le_spec(T::epsilon_spec())
}

/// `|a - b| <= epsilon`: `a` and `b` are equal within the tolerance.
pub open spec fn fuzzy_eq_spec<T: Arithmetic>(a: T, b: T) -> bool {
    a.sub_spec(b).abs_spec().le_spec(T::epsilon_spec())
}

/// `a < b + epsilon`: `a` is less than `b`, or equal to it within the tolerance.
pub open spec fn fuzzy_lt_spec<T: Arithmetic>(a: T, b: T) -> bool {
    a.lt_spec(b.add_spec(T::epsilon_spec()))
}

/// `b < a + epsilon`: `a` is greater than `b`, or equal to it within the
/// tolerance. It is [`fuzzy_lt_spec`] with the two numbers exchanged.
pub open spec fn fuzzy_gt_spec<T: Arithmetic>(a: T, b: T) -> bool {
    b.lt_spec(a.add_spec(T::epsilon_spec()))
}

/// A numeric type that the geometry can be computed with.
///
/// The required operations are not verified here. Each of them promises one
/// thing: that it returns what the function of the same name in
/// [`Arithmetic`] says, and so that its result depends on its arguments alone.
/// Whatever is proved of code that is generic over `Real` holds for a type
/// only as far as its operations keep that promise.
///
/// The tolerant comparisons are provided and verified. An implementation may
/// replace them, and is then held to the same contracts.
pub trait Real: Arithmetic + Copy {
    /// The number zero.
    fn zero() -> (r: Self)
        ensures
            r == Self::zero_spec(),
    ;

    /// The number two.
    fn two() -> (r: Self)
        ensures
            r == Self::two_spec(),
    ;

    /// The tolerance of the type, a constant.
    fn epsilon() -> (r: Self)
        ensures
            r == Self::epsilon_spec(),
    ;

    /// `self + other`.
    fn add(self, other: Self) -> (r: Self)
        ensures
            r == self.add_spec(other),
    ;

    /// `self - other`.
    fn sub(self, other: Self) -> (r: Self)
        ensures
            r == self.sub_spec(other),
    ;

    /// `self * other`.
    fn mul(self, other: Self) -> (r: Self)
        ensures
            r == self.mul_spec(other),
    ;

    /// `self / other`. It is called with every divisor, zero included, and
    /// returns for each.
    fn div(self, other: Self) -> (r: Self)
        ensures
            r == self.div_spec(other),
    ;

    /// The square root of `self`. It is called with every number, negative
    /// ones included, and returns for each.
    fn sqrt(self) -> (r: Self)
        ensures
            r == self.sqrt_spec(),
    ;

    /// The absolute value of `self`.
    fn abs(self) -> (r: Self)
        ensures
            r == self.abs_spec(),
    ;

    /// `self < other`, without tolerance.
    fn lt(self, other: Self) -> (r: bool)
        ensures
            r == self.lt_spec(other),
    ;

    /// `self <= other`, without tolerance.
    fn le(self, other: Self) -> (r: bool)
        ensures
            r == self.le_spec(other),
    ;

    /// Whether `self` is zero within the tolerance: `|self| <= epsilon`.
    fn fuzzy_eq_zero(self) -> (r: bool)
        ensures
            r == fuzzy_eq_zero_spec(self),
    {
        self.abs().le(Self::epsilon())
    }

    /// Whether `self` and `other` are equal within the tolerance:
    /// `|self - other| <= epsilon`.
    fn fuzzy_eq(self, other: Self) -> (r: bool)
        ensures
            r == fuzzy_eq_spec(self, other),
    {
        self.sub(other).abs().le(Self::epsilon())
    }

    /// Whether `self` is less than `other`, or equal to it within the
    /// tolerance: `self < other + epsilon`.
    fn fuzzy_lt(self, other: Self) -> (r: bool)
        ensures
            r == fuzzy_lt_spec(self, other),
    {
        self.lt(other.add(Self::epsilon()))
    }

    /// Whether `self` is greater than `other`, or equal to it within the
    /// tolerance: `other < self + epsilon`.
    fn fuzzy_gt(self, other: Self) -> (r: bool)
        ensures
            r == fuzzy_gt_spec(self, other),
    {
        other.lt(self.add(Self::epsilon()))
    }
}

} // verus!
