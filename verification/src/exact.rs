//! Exact arithmetic: the real numbers as an [`Arithmetic`].
//!
//! Over the reals every operation means what its sign says, and the geometry
//! of the circles can be proved. No executable type computes this way; the
//! reals serve to show what the computation is meant to do.

use vstd::prelude::*;
use crate::scalar::Arithmetic;

verus! {

/// `e` can serve as a tolerance: it is positive.
pub open spec fn is_tolerance(e: real) -> bool {
    e > 0real
}

/// `s` is the square root of `x`: the real that is not negative and whose
/// square is `x`.
pub open spec fn is_root(s: real, x: real) -> bool {
    s >= 0real && s * s == x
}

/// `x` has a square root. Every real that is not negative has one, but that
/// rests on the completeness of the reals, which is out of the verifier's
/// reach: what is proved of a root asks for it to exist.
pub open spec fn has_root(x: real) -> bool {
    exists|s: real| is_root(s, x)
}

impl Arithmetic for real {
    open spec fn zero_spec() -> Self {
        0real
    }

    open spec fn two_spec() -> Self {
        2real
    }

    /// Some positive real. Which one is left open, so that what is proved
    /// holds for every tolerance.
    open spec fn epsilon_spec() -> Self {
        choose|e: real| is_tolerance(e)
    }

    open spec fn add_spec(self, other: Self) -> Self {
        self + other
    }

    open spec fn sub_spec(self, other: Self) -> Self {
        self - other
    }

    open spec fn mul_spec(self, other: Self) -> Self {
        self * other
    }

    open spec fn div_spec(self, other: Self) -> Self {
        self / other
    }

    /// The square root of `self`, where it has one.
    open spec fn sqrt_spec(self) -> Self {
        choose|s: real| is_root(s, self)
    }

    open spec fn abs_spec(self) -> Self {
        if self < 0real {
            -self
        } else {
            self
        }
    }

    open spec fn lt_spec(self, other: Self) -> bool {
        self < other
    }

    open spec fn le_spec(self, other: Self) -> bool {
        self <= other
    }
}

/// The tolerance of the reals is positive.
pub proof fn lemma_epsilon_positive()
    ensures
        real::epsilon_spec() > 0real,
{
    assert(is_tolerance(1real));
}

/// A real has at most one square root: if `s` is one of `x`, it is the one.
pub proof fn lemma_root_unique(s: real, x: real)
    requires
        is_root(s, x),
    ensures
        has_root(x),
        x.sqrt_spec() == s,
{
    let t = x.sqrt_spec();
    assert(is_root(t, x));
    assert(t == s) by (nonlinear_arith)
        requires
            s >= 0real,
            t >= 0real,
            s * s == t * t,
    ;
}

/// The square root, where there is one, is not negative and its square is
/// the number it was taken of.
pub proof fn lemma_root(x: real)
    requires
        has_root(x),
    ensures
        x.sqrt_spec() >= 0real,
        x.sqrt_spec() * x.sqrt_spec() == x,
{
    let s = choose|s: real| is_root(s, x);
    assert(is_root(s, x));
}

} // verus!
