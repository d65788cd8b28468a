//! The laws of real arithmetic that the geometry is proved from.
//!
//! Products of unknowns are beyond the verifier's ordinary reasoning. Each
//! law here is small enough to be settled on its own; the proofs that use
//! them name the law for every step.

use vstd::prelude::*;

verus! {

/// `(x * y) * z = x * (y * z)`.
pub(crate) proof fn lemma_mul_associates(x: real, y: real, z: real)
    by (nonlinear_arith)
    ensures
        (x * y) * z == x * (y * z),
{
}

/// `x * (y + z) = x * y + x * z` and `x * (y - z) = x * y - x * z`.
pub(crate) proof fn lemma_mul_distributes(x: real, y: real, z: real)
    by (nonlinear_arith)
    ensures
        x * (y + z) == x * y + x * z,
        x * (y - z) == x * y - x * z,
        (y + z) * x == y * x + z * x,
        (y - z) * x == y * x - z * x,
{
}

/// A product changes its sign with either factor.
pub(crate) proof fn lemma_mul_negates(x: real, y: real)
    by (nonlinear_arith)
    ensures
        x * (-y) == -(x * y),
        (-x) * y == -(x * y),
        (-x) * (-y) == x * y,
{
}

/// `(x + y)^2 = x^2 + 2 x y + y^2` and `(x - y)^2 = x^2 - 2 x y + y^2`.
pub(crate) proof fn lemma_square_of_sum(x: real, y: real)
    by (nonlinear_arith)
    ensures
        (x + y) * (x + y) == x * x + 2real * (x * y) + y * y,
        (x - y) * (x - y) == x * x - 2real * (x * y) + y * y,
{
}

/// `x^2 - y^2 = (x - y) (x + y)`.
pub(crate) proof fn lemma_difference_of_squares(x: real, y: real)
    by (nonlinear_arith)
    ensures
        x * x - y * y == (x - y) * (x + y),
{
}

/// A quotient times its divisor is the dividend.
pub(crate) proof fn lemma_quotient(n: real, d: real)
    by (nonlinear_arith)
    requires
        d != 0real,
    ensures
        (n / d) * d == n,
{
}

/// `(x * y)^2 = x^2 * y^2`.
pub(crate) proof fn lemma_square_of_product(x: real, y: real)
    ensures
        (x * y) * (x * y) == (x * x) * (y * y),
{
    lemma_mul_associates(x, y, x * y);
    lemma_mul_associates(y, x, y);
    lemma_mul_associates(x, y, y);
    lemma_mul_associates(x, x, y * y);
}

/// `(u * t) * (k * v) = (v * t) * (k * u)`: four factors may be paired
/// either way.
pub(crate) proof fn lemma_mul_pairs(u: real, t: real, k: real, v: real)
    ensures
        (u * t) * (k * v) == (v * t) * (k * u),
{
    lemma_mul_associates(u, t, k * v);
    lemma_mul_associates(t, k, v);
    lemma_mul_associates(u, v, t * k);
    lemma_mul_associates(v, t, k * u);
    lemma_mul_associates(t, k, u);
    lemma_mul_associates(v, u, t * k);
}

/// The sign of a product follows from the signs of its factors.
pub(crate) proof fn lemma_mul_sign(x: real, y: real)
    by (nonlinear_arith)
    ensures
        x >= 0real && y >= 0real ==> x * y >= 0real,
        x <= 0real && y <= 0real ==> x * y >= 0real,
        x >= 0real && y <= 0real ==> x * y <= 0real,
        x > 0real && y > 0real ==> x * y > 0real,
        x > 0real && y < 0real ==> x * y < 0real,
{
}

/// A positive factor can be cancelled from both sides of a comparison.
pub(crate) proof fn lemma_mul_cancels(x: real, y: real, z: real)
    by (nonlinear_arith)
    requires
        z > 0real,
    ensures
        x * z == y * z ==> x == y,
        x * z <= y * z ==> x <= y,
        x * z < y * z ==> x < y,
{
}

/// Of two reals that are not negative, the larger has the larger square.
pub(crate) proof fn lemma_square_grows(x: real, y: real)
    by (nonlinear_arith)
    requires
        0real <= x <= y,
    ensures
        x * x <= y * y,
        x < y ==> x * x < y * y,
{
}

/// A product with a factor that is not negative grows with the other factor.
pub(crate) proof fn lemma_mul_grows(x: real, y: real, z: real)
    by (nonlinear_arith)
    requires
        0real <= x,
        y <= z,
    ensures
        x * y <= x * z,
{
}

} // verus!
