//! What holds of the intersection over every arithmetic.
//!
//! These laws rest on nothing but the order in which the cases are told
//! apart, so they hold for rounding arithmetic as they do for exact
//! arithmetic. They speak of the distance between the centres as the
//! arithmetic computes it.

use vstd::prelude::*;
use crate::intersect::{
    chord_end1, chord_end2, chord_foot, circle_circle_intr_spec, concentric, half_chord_sq,
    in_reach, separation, CircleCircleIntr,
};
use crate::scalar::{fuzzy_eq_spec, fuzzy_gt_spec, fuzzy_lt_spec, Arithmetic};
use crate::vector2::Vector2;

verus! {

/// Concentric circles with radii that are equal within the tolerance are the
/// same circle, and no other pair of circles is.
pub proof fn lemma_same_circle<T: Arithmetic>(
    radius1: T,
    center1: Vector2<T>,
    radius2: T,
    center2: Vector2<T>,
)
    ensures
        circle_circle_intr_spec(radius1, center1, radius2, center2) is Overlapping <==> concentric(
            center1,
            center2,
        ) && fuzzy_eq_spec(radius1, radius2),
{
}

/// Concentric circles with radii that differ by more than the tolerance
/// share no point.
pub proof fn lemma_concentric_apart<T: Arithmetic>(
    radius1: T,
    center1: Vector2<T>,
    radius2: T,
    center2: Vector2<T>,
)
    requires
        concentric(center1, center2),
        !fuzzy_eq_spec(radius1, radius2),
    ensures
        circle_circle_intr_spec(radius1, center1, radius2, center2) is NoIntersect,
{
}

/// Circles whose centres lie further apart than the sum of the radii, by the
/// tolerance or more, share no point. Left out are the circles that count as
/// the same circle.
pub proof fn lemma_too_far<T: Arithmetic>(
    radius1: T,
    center1: Vector2<T>,
    radius2: T,
    center2: Vector2<T>,
)
    requires
        !fuzzy_lt_spec(separation(center1, center2), radius1.add_spec(radius2)),
        !(concentric(center1, center2) && fuzzy_eq_spec(radius1, radius2)),
    ensures
        circle_circle_intr_spec(radius1, center1, radius2, center2) is NoIntersect,
{
}

/// Circles of which one lies inside the other, the centres closer than the
/// radii differ by the tolerance or more, share no point. Left out are the
/// circles that count as the same circle.
pub proof fn lemma_too_close<T: Arithmetic>(
    radius1: T,
    center1: Vector2<T>,
    radius2: T,
    center2: Vector2<T>,
)
    requires
        !fuzzy_gt_spec(separation(center1, center2), radius1.sub_spec(radius2).abs_spec()),
        !(concentric(center1, center2) && fuzzy_eq_spec(radius1, radius2)),
    ensures
        circle_circle_intr_spec(radius1, center1, radius2, center2) is NoIntersect,
{
}

/// Circles share no point in these cases only: they are concentric with
/// different radii, or they are not in reach of each other.
pub proof fn lemma_apart<T: Arithmetic>(
    radius1: T,
    center1: Vector2<T>,
    radius2: T,
    center2: Vector2<T>,
)
    ensures
        circle_circle_intr_spec(radius1, center1, radius2, center2) is NoIntersect <==> (if concentric(
            center1,
            center2,
        ) {
            !fuzzy_eq_spec(radius1, radius2)
        } else {
            !in_reach(radius1, center1, radius2, center2)
        }),
{
}

/// Circles that are in reach of each other, and not concentric, touch or
/// cross. They touch where the square of the half chord is negative, in the
/// foot of the chord, and where the two ends of the chord are equal within
/// the tolerance, in the first of them. They cross in the two ends otherwise.
pub proof fn lemma_touch_or_cross<T: Arithmetic>(
    radius1: T,
    center1: Vector2<T>,
    radius2: T,
    center2: Vector2<T>,
)
    requires
        !concentric(center1, center2),
        in_reach(radius1, center1, radius2, center2),
    ensures
        ({
            let r = circle_circle_intr_spec(radius1, center1, radius2, center2);
            let end1 = chord_end1(radius1, center1, radius2, center2);
            let end2 = chord_end2(radius1, center1, radius2, center2);
            if half_chord_sq(radius1, center1, radius2, center2).lt_spec(T::zero_spec()) {
                r == (CircleCircleIntr::TangentIntersect {
                    point: chord_foot(radius1, center1, radius2, center2),
                })
            } else if end1.fuzzy_eq_spec(end2) {
                r == (CircleCircleIntr::TangentIntersect { point: end1 })
            } else {
                r == (CircleCircleIntr::TwoIntersects { point1: end1, point2: end2 })
            }
        }),
{
}

/// The two points in which circles cross are never equal within the
/// tolerance: as the ends of the chord draw together, the circles touch from
/// the moment on at which the ends are that close, and do not cross again.
pub proof fn lemma_crossings_differ<T: Arithmetic>(
    radius1: T,
    center1: Vector2<T>,
    radius2: T,
    center2: Vector2<T>,
)
    requires
        circle_circle_intr_spec(radius1, center1, radius2, center2) is TwoIntersects,
    ensures
        ({
            let r = circle_circle_intr_spec(radius1, center1, radius2, center2);
            &&& !r->point1.fuzzy_eq_spec(r->point2)
            &&& r->point1 == chord_end1(radius1, center1, radius2, center2)
            &&& r->point2 == chord_end2(radius1, center1, radius2, center2)
            &&& !concentric(center1, center2)
            &&& in_reach(radius1, center1, radius2, center2)
            &&& !half_chord_sq(radius1, center1, radius2, center2).lt_spec(T::zero_spec())
        }),
{
}

} // verus!
