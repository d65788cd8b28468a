//! The intersection of two circles.
//!
//! The circles are given by radius and centre. With `cv` the vector from the
//! first centre to the second and `d` its length, the points that the circles
//! share lie on the line at right angles to `cv` that crosses it at the
//! distance `a = (r1^2 - r2^2 + d^2) / (2 d)` from the first centre. They lie at
//! `h = sqrt(r1^2 - a^2)` to either side of that crossing.
//!
//! Every quantity is computed in the arithmetic of the numeric type, and every
//! comparison but one allows for its tolerance. The exception is the sign of
//! `r1^2 - a^2`, which is tested as it stands.

use vstd::prelude::*;
use crate::scalar::{fuzzy_eq_spec, fuzzy_eq_zero_spec, fuzzy_gt_spec, fuzzy_lt_spec, Arithmetic, Real};
use crate::vector2::Vector2;

verus! {

/// How two circles lie to each other, with the points that they share.
#[derive(Clone, Copy, Debug, PartialEq)]
pub enum CircleCircleIntr<T> {
    /// The circles share no point.
    NoIntersect,
    /// The circles touch in one point.
    TangentIntersect {
        /// The point in which they touch.
        point: Vector2<T>,
    },
    /// The circles cross in two points.
    TwoIntersects {
        /// The point to the right of the way from the first centre to the
        /// second, seen with the y axis pointing up.
        point1: Vector2<T>,
        /// The point to the left of that way.
        point2: Vector2<T>,
    },
    /// The circles are one and the same, within the tolerance.
    Overlapping,
}

/// The vector from `center1` to `center2`.
pub open spec fn offset<T: Arithmetic>(center1: Vector2<T>, center2: Vector2<T>) -> Vector2<T> {
    center2.sub_spec(center1)
}

/// The square of the distance between the two centres.
pub open spec fn separation_sq<T: Arithmetic>(center1: Vector2<T>, center2: Vector2<T>) -> T {
    offset(center1, center2).dot_spec(offset(center1, center2))
}

/// The distance between the two centres.
pub open spec fn separation<T: Arithmetic>(center1: Vector2<T>, center2: Vector2<T>) -> T {
    separation_sq(center1, center2).sqrt_spec()
}

/// The two centres are the same point, within the tolerance.
pub open spec fn concentric<T: Arithmetic>(center1: Vector2<T>, center2: Vector2<T>) -> bool {
    fuzzy_eq_zero_spec(separation(center1, center2))
}

/// The centres are neither too far apart for the circles to meet, nor so
/// close that one circle lies inside the other: their distance is at most
/// `radius1 + radius2` and at least `|radius1 - radius2|`, within the tolerance.
pub open spec fn in_reach<T: Arithmetic>(
    radius1: T,
    center1: Vector2<T>,
    radius2: T,
    center2: Vector2<T>,
) -> bool {
    let d = separation(center1, center2);
    fuzzy_lt_spec(d, radius1.add_spec(radius2)) && fuzzy_gt_spec(
        d,
        radius1.sub_spec(radius2).abs_spec(),
    )
}

/// The distance `a` from the first centre, along the way to the second, at
/// which the common chord crosses:
/// `(radius1^2 - radius2^2 + d^2) / (2 d)`. It is negative where the
/// chord crosses behind the first centre.
pub open spec fn chord_distance<T: Arithmetic>(
    radius1: T,
    center1: Vector2<T>,
    radius2: T,
    center2: Vector2<T>,
) -> T {
    radius1.mul_spec(radius1).sub_spec(radius2.mul_spec(radius2)).add_spec(
        separation_sq(center1, center2),
    ).div_spec(T::two_spec().mul_spec(separation(center1, center2)))
}

/// The point in which the common chord crosses the line through the centres:
/// `center1 + cv * (a / d)`.
pub open spec fn chord_foot<T: Arithmetic>(
    radius1: T,
    center1: Vector2<T>,
    radius2: T,
    center2: Vector2<T>,
) -> Vector2<T> {
    center1.add_spec(
        offset(center1, center2).scale_spec(
            chord_distance(radius1, center1, radius2, center2).div_spec(
                separation(center1, center2),
            ),
        ),
    )
}

/// The square of half the length of the common chord: `radius1^2 - a^2`.
pub open spec fn half_chord_sq<T: Arithmetic>(
    radius1: T,
    center1: Vector2<T>,
    radius2: T,
    center2: Vector2<T>,
) -> T {
    let a = chord_distance(radius1, center1, radius2, center2);
    radius1.mul_spec(radius1).sub_spec(a.mul_spec(a))
}

/// Half the length of the common chord, divided by the distance between the
/// centres: `sqrt(radius1^2 - a^2) / d`.
pub open spec fn half_chord_ratio<T: Arithmetic>(
    radius1: T,
    center1: Vector2<T>,
    radius2: T,
    center2: Vector2<T>,
) -> T {
    half_chord_sq(radius1, center1, radius2, center2).sqrt_spec().div_spec(
        separation(center1, center2),
    )
}

/// The end of the common chord to the right of the way from the first centre
/// to the second, seen with the y axis pointing up: the foot of the chord
/// plus `(h / d) * (cv.y, -cv.x)`.
pub open spec fn chord_end1<T: Arithmetic>(
    radius1: T,
    center1: Vector2<T>,
    radius2: T,
    center2: Vector2<T>,
) -> Vector2<T> {
    let foot = chord_foot(radius1, center1, radius2, center2);
    let ratio = half_chord_ratio(radius1, center1, radius2, center2);
    let cv = offset(center1, center2);
    Vector2 { x: foot.x.add_spec(ratio.mul_spec(cv.y)), y: foot.y.sub_spec(ratio.mul_spec(cv.x)) }
}

/// The end of the common chord to the left of the way from the first centre
/// to the second: the foot of the chord minus `(h / d) * (cv.y, -cv.x)`.
pub open spec fn chord_end2<T: Arithmetic>(
    radius1: T,
    center1: Vector2<T>,
    radius2: T,
    center2: Vector2<T>,
) -> Vector2<T> {
    let foot = chord_foot(radius1, center1, radius2, center2);
    let ratio = half_chord_ratio(radius1, center1, radius2, center2);
    let cv = offset(center1, center2);
    Vector2 { x: foot.x.sub_spec(ratio.mul_spec(cv.y)), y: foot.y.add_spec(ratio.mul_spec(cv.x)) }
}

/// The intersection of the circle of `radius1` about `center1` with the circle
/// of `radius2` about `center2`.
///
/// - Concentric circles are the same circle if their radii are equal within
///   the tolerance, and share no point otherwise.
/// - Circles that are not in reach of each other share no point.
/// - Where `radius1^2 - a^2` is negative, the circles touch in the foot of the
///   common chord.
/// - Otherwise the chord has two ends. If they are equal within the tolerance,
///   the circles touch in the first of them; else they cross in both.
pub open spec fn circle_circle_intr_spec<T: Arithmetic>(
    radius1: T,
    center1: Vector2<T>,
    radius2: T,
    center2: Vector2<T>,
) -> CircleCircleIntr<T> {
    if concentric(center1, center2) {
        if fuzzy_eq_spec(radius1, radius2) {
            CircleCircleIntr::Overlapping
        } else {
            CircleCircleIntr::NoIntersect
        }
    } else if !in_reach(radius1, center1, radius2, center2) {
        CircleCircleIntr::NoIntersect
    } else if half_chord_sq(radius1, center1, radius2, center2).lt_spec(T::zero_spec()) {
        CircleCircleIntr::TangentIntersect {
            point: chord_foot(radius1, center1, radius2, center2),
        }
    } else if chord_end1(radius1, center1, radius2, center2).fuzzy_eq_spec(
        chord_end2(radius1, center1, radius2, center2),
    ) {
        CircleCircleIntr::TangentIntersect {
            point: chord_end1(radius1, center1, radius2, center2),
        }
    } else {
        CircleCircleIntr::TwoIntersects {
            point1: chord_end1(radius1, center1, radius2, center2),
            point2: chord_end2(radius1, center1, radius2, center2),
        }
    }
}

/// Finds the points that two circles share.
///
/// The circles are given by their radii `radius1`, `radius2` and their centres
/// `center1`, `center2`. The radii are meant not to be negative; nothing
/// checks that they are not.
///
/// The result is [`circle_circle_intr_spec`] of the arguments. In particular
/// the circles are found to be the same circle exactly if they are concentric
/// with equal radii, both within the tolerance; they are found to share no
/// point exactly if they are concentric with different radii or not in reach
/// of each other; and two points in which they cross are never equal within
/// the tolerance.
pub fn circle_circle_intr<T: Real>(
    radius1: T,
    center1: Vector2<T>,
    radius2: T,
    center2: Vector2<T>,
) -> (r: CircleCircleIntr<T>)
    ensures
        r == circle_circle_intr_spec(radius1, center1, radius2, center2),
        r is Overlapping <==> concentric(center1, center2) && fuzzy_eq_spec(radius1, radius2),
        r is NoIntersect <==> (if concentric(center1, center2) {
            !fuzzy_eq_spec(radius1, radius2)
        } else {
            !in_reach(radius1, center1, radius2, center2)
        }),
        r is TwoIntersects ==> !r->point1.fuzzy_eq_spec(r->point2),
{
    let cv = center2.sub(center1);
    let d2 = cv.dot(cv);
    let d = d2.sqrt();

    if d.fuzzy_eq_zero() {
        if radius1.fuzzy_eq(radius2) {
            return CircleCircleIntr::Overlapping;
        }
        return CircleCircleIntr::NoIntersect;
    }
    if !d.fuzzy_lt(radius1.add(radius2)) || !d.fuzzy_gt(radius1.sub(radius2).abs()) {
        return CircleCircleIntr::NoIntersect;
    }
    let rad1_sq = radius1.mul(radius1);
    let a = rad1_sq.sub(radius2.mul(radius2)).add(d2).div(T::two().mul(d));
    let midpoint = center1.add(cv.scale(a.div(d)));
    let diff = rad1_sq.sub(a.mul(a));

    if diff.lt(T::zero()) {
        return CircleCircleIntr::TangentIntersect { point: midpoint };
    }
    let h = diff.sqrt();
    let h_over_d = h.div(d);
    let x_term = h_over_d.mul(cv.y);
    let y_term = h_over_d.mul(cv.x);

    let pt1 = Vector2::new(midpoint.x.add(x_term), midpoint.y.sub(y_term));
    let pt2 = Vector2::new(midpoint.x.sub(x_term), midpoint.y.add(y_term));

    if pt1.fuzzy_eq(pt2) {
        return CircleCircleIntr::TangentIntersect { point: pt1 };
    }
    CircleCircleIntr::TwoIntersects { point1: pt1, point2: pt2 }
}

} // verus!
