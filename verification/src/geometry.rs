//! What the intersection is, over exact arithmetic.
//!
//! Over the reals the points that are computed are the points that the two
//! circles share, exchanging the circles exchanges the points, and which case
//! two circles fall under follows from how far their centres lie apart:
//!
//! - further than the radii reach by more than the tolerance: no point;
//! - as far as the radii reach, or further by less than the tolerance: one
//!   point, between the centres;
//! - closer than the radii reach and further than they differ: the two ends
//!   of a chord of positive length, or one of them where the chord is short;
//! - as far as the radii differ, or closer by less than the tolerance: one
//!   point;
//! - closer than the radii differ by more than the tolerance: no point.
//!
//! None of this is claimed of rounding arithmetic. The laws ask for the
//! square roots that the computation takes to exist, see [`has_root`].

use vstd::prelude::*;
use crate::algebra::{
    lemma_difference_of_squares, lemma_mul_cancels, lemma_mul_distributes, lemma_mul_grows,
    lemma_mul_negates, lemma_mul_pairs, lemma_mul_sign, lemma_quotient, lemma_square_grows,
    lemma_square_of_product, lemma_square_of_sum,
};
use crate::exact::{has_root, is_root, lemma_epsilon_positive, lemma_root, lemma_root_unique};
use crate::intersect::{
    chord_distance, chord_end1, chord_end2, chord_foot, circle_circle_intr_spec, concentric,
    half_chord_ratio, half_chord_sq, in_reach, offset, separation, separation_sq,
    CircleCircleIntr,
};
use crate::scalar::{fuzzy_eq_spec, Arithmetic};
use crate::vector2::Vector2;

verus! {

/// `point` lies on the circle of `radius` about `center`: the square of its
/// distance from the centre is the square of the radius.
pub open spec fn on_circle(point: Vector2<real>, radius: real, center: Vector2<real>) -> bool {
    separation_sq(center, point) == radius * radius
}

/// Turning and stretching `(u, v)`, a vector of length `d`, by `s` along and
/// `k` across gives a vector whose length squared is `(s d)^2 + (k d)^2`, to
/// whichever side it is turned.
proof fn lemma_turn(u: real, v: real, d: real, s: real, k: real)
    requires
        d * d == u * u + v * v,
    ensures
        (u * s + k * v) * (u * s + k * v) + (v * s - k * u) * (v * s - k * u) == (s * d) * (s * d)
            + (k * d) * (k * d),
        (u * s - k * v) * (u * s - k * v) + (v * s + k * u) * (v * s + k * u) == (s * d) * (s * d)
            + (k * d) * (k * d),
{
    lemma_square_of_sum(u * s, k * v);
    lemma_square_of_sum(v * s, k * u);
    lemma_mul_pairs(u, s, k, v);
    lemma_square_of_product(u, s);
    lemma_square_of_product(v, s);
    lemma_square_of_product(k, v);
    lemma_square_of_product(k, u);
    lemma_mul_distributes(s * s, u * u, v * v);
    lemma_mul_distributes(k * k, u * u, v * v);
    lemma_square_of_product(s, d);
    lemma_square_of_product(k, d);
}

/// Where the centres are not the same point, their distance `d` is positive,
/// its square is the square that it was taken of, and the distance `a` to the
/// chord satisfies `a * 2 d = radius1^2 - radius2^2 + d^2`.
proof fn lemma_chord_distance(
    radius1: real,
    center1: Vector2<real>,
    radius2: real,
    center2: Vector2<real>,
)
    requires
        has_root(separation_sq(center1, center2)),
        !concentric(center1, center2),
    ensures
        ({
            let d = separation(center1, center2);
            let a = chord_distance(radius1, center1, radius2, center2);
            &&& d > 0real
            &&& d * d == separation_sq(center1, center2)
            &&& a * (d + d) == radius1 * radius1 - radius2 * radius2 + d * d
            &&& (a / d) * d == a
        }),
{
    let d = separation(center1, center2);
    lemma_root(separation_sq(center1, center2));
    lemma_epsilon_positive();
    lemma_quotient(
        radius1 * radius1 - radius2 * radius2 + separation_sq(center1, center2),
        2real * d,
    );
    lemma_quotient(chord_distance(radius1, center1, radius2, center2), d);
}

/// Both ends of the common chord lie on both circles.
pub proof fn lemma_chord_ends_on_circles(
    radius1: real,
    center1: Vector2<real>,
    radius2: real,
    center2: Vector2<real>,
)
    requires
        has_root(separation_sq(center1, center2)),
        has_root(half_chord_sq(radius1, center1, radius2, center2)),
        !concentric(center1, center2),
    ensures
        on_circle(chord_end1(radius1, center1, radius2, center2), radius1, center1),
        on_circle(chord_end2(radius1, center1, radius2, center2), radius1, center1),
        on_circle(chord_end1(radius1, center1, radius2, center2), radius2, center2),
        on_circle(chord_end2(radius1, center1, radius2, center2), radius2, center2),
{
    let u = offset(center1, center2).x;
    let v = offset(center1, center2).y;
    let d = separation(center1, center2);
    let a = chord_distance(radius1, center1, radius2, center2);
    let t = a / d;
    let h = half_chord_sq(radius1, center1, radius2, center2).sqrt_spec();
    let k = half_chord_ratio(radius1, center1, radius2, center2);
    let end1 = chord_end1(radius1, center1, radius2, center2);
    let end2 = chord_end2(radius1, center1, radius2, center2);

    lemma_chord_distance(radius1, center1, radius2, center2);
    lemma_root(half_chord_sq(radius1, center1, radius2, center2));
    lemma_quotient(h, d);
    assert(t * d == a);
    assert(k * d == h);
    assert(h * h == radius1 * radius1 - a * a);

    assert(on_circle(end1, radius1, center1) && on_circle(end2, radius1, center1)) by {
        lemma_turn(u, v, d, t, k);
        assert(end1.x - center1.x == u * t + k * v);
        assert(end1.y - center1.y == v * t - k * u);
        assert(end2.x - center1.x == u * t - k * v);
        assert(end2.y - center1.y == v * t + k * u);
    }
    assert(on_circle(end1, radius2, center2) && on_circle(end2, radius2, center2)) by {
        let s = t - 1real;
        lemma_turn(u, v, d, s, k);
        lemma_mul_distributes(u, t, 1real);
        lemma_mul_distributes(v, t, 1real);
        lemma_mul_distributes(d, t, 1real);
        assert(s * d == a - d);
        assert(end1.x - center2.x == u * s + k * v);
        assert(end1.y - center2.y == v * s - k * u);
        assert(end2.x - center2.x == u * s - k * v);
        assert(end2.y - center2.y == v * s + k * u);
        lemma_square_of_sum(a, d);
        lemma_mul_distributes(a, d, d);
        assert((s * d) * (s * d) + (k * d) * (k * d) == radius2 * radius2);
    }
}

/// The two points in which circles cross lie on both circles.
pub proof fn lemma_crossings_on_circles(
    radius1: real,
    center1: Vector2<real>,
    radius2: real,
    center2: Vector2<real>,
)
    requires
        has_root(separation_sq(center1, center2)),
        has_root(half_chord_sq(radius1, center1, radius2, center2)),
        circle_circle_intr_spec(radius1, center1, radius2, center2) is TwoIntersects,
    ensures
        ({
            let r = circle_circle_intr_spec(radius1, center1, radius2, center2);
            &&& on_circle(r->point1, radius1, center1)
            &&& on_circle(r->point1, radius2, center2)
            &&& on_circle(r->point2, radius1, center1)
            &&& on_circle(r->point2, radius2, center2)
        }),
{
    lemma_chord_ends_on_circles(radius1, center1, radius2, center2);
}

/// Whether `other` is what `one` becomes when the two circles are exchanged:
/// the same case, the same touching point within the tolerance, the two
/// crossing points each in the other's place.
pub open spec fn exchanged(one: CircleCircleIntr<real>, other: CircleCircleIntr<real>) -> bool {
    match (one, other) {
        (CircleCircleIntr::NoIntersect, CircleCircleIntr::NoIntersect) => true,
        (CircleCircleIntr::Overlapping, CircleCircleIntr::Overlapping) => true,
        (
            CircleCircleIntr::TangentIntersect { point: here },
            CircleCircleIntr::TangentIntersect { point: there },
        ) => here.fuzzy_eq_spec(there),
        (
            CircleCircleIntr::TwoIntersects { point1: right, point2: left },
            CircleCircleIntr::TwoIntersects { point1: new_right, point2: new_left },
        ) => new_right == left && new_left == right,
        _ => false,
    }
}

/// Exchanging the circles leaves the distance between the centres, the foot
/// of the chord and the square of the half chord as they are, and exchanges
/// the two ends of the chord.
proof fn lemma_exchange_chord(
    radius1: real,
    center1: Vector2<real>,
    radius2: real,
    center2: Vector2<real>,
)
    requires
        has_root(separation_sq(center1, center2)),
        !concentric(center1, center2),
    ensures
        separation_sq(center2, center1) == separation_sq(center1, center2),
        separation(center2, center1) == separation(center1, center2),
        chord_foot(radius2, center2, radius1, center1) == chord_foot(
            radius1,
            center1,
            radius2,
            center2,
        ),
        half_chord_sq(radius2, center2, radius1, center1) == half_chord_sq(
            radius1,
            center1,
            radius2,
            center2,
        ),
        chord_end1(radius2, center2, radius1, center1) == chord_end2(
            radius1,
            center1,
            radius2,
            center2,
        ),
        chord_end2(radius2, center2, radius1, center1) == chord_end1(
            radius1,
            center1,
            radius2,
            center2,
        ),
{
    let u = offset(center1, center2).x;
    let v = offset(center1, center2).y;
    let d = separation(center1, center2);
    let a = chord_distance(radius1, center1, radius2, center2);
    let b = chord_distance(radius2, center2, radius1, center1);
    let t = a / d;
    let s = b / d;
    let k = half_chord_ratio(radius1, center1, radius2, center2);

    lemma_mul_negates(u, u);
    lemma_mul_negates(v, v);
    assert(offset(center2, center1).x == -u);
    assert(offset(center2, center1).y == -v);
    assert(separation_sq(center2, center1) == separation_sq(center1, center2));
    assert(separation(center2, center1) == d);

    lemma_chord_distance(radius1, center1, radius2, center2);
    lemma_chord_distance(radius2, center2, radius1, center1);
    assert(a + b == d) by {
        lemma_mul_distributes(d + d, a, b);
        lemma_mul_distributes(d, d, d);
        lemma_mul_cancels(a + b, d, d + d);
    }
    assert(t + s == 1real) by {
        lemma_mul_distributes(d, t, s);
        lemma_mul_cancels(t + s, 1real, d);
    }
    assert(chord_foot(radius2, center2, radius1, center1) == chord_foot(
        radius1,
        center1,
        radius2,
        center2,
    )) by {
        lemma_mul_negates(u, s);
        lemma_mul_negates(v, s);
        lemma_mul_distributes(u, 1real, t);
        lemma_mul_distributes(v, 1real, t);
    }
    assert(half_chord_sq(radius2, center2, radius1, center1) == half_chord_sq(
        radius1,
        center1,
        radius2,
        center2,
    )) by {
        lemma_square_of_sum(d, a);
        lemma_mul_distributes(a, d, d);
    }
    assert(half_chord_ratio(radius2, center2, radius1, center1) == k);
    lemma_mul_negates(k, u);
    lemma_mul_negates(k, v);
}

/// Exchanging the two circles gives the same case. Circles that touch in the
/// foot of the chord touch in the same point after the exchange; circles
/// that touch in an end of the chord touch in the other end, which is the
/// same point within the tolerance. Circles that cross do so in the same two
/// points, the first in place of the second.
pub proof fn lemma_exchange(
    radius1: real,
    center1: Vector2<real>,
    radius2: real,
    center2: Vector2<real>,
)
    requires
        has_root(separation_sq(center1, center2)),
    ensures
        exchanged(
            circle_circle_intr_spec(radius1, center1, radius2, center2),
            circle_circle_intr_spec(radius2, center2, radius1, center1),
        ),
{
    let u = offset(center1, center2).x;
    let v = offset(center1, center2).y;
    lemma_mul_negates(u, u);
    lemma_mul_negates(v, v);
    assert(offset(center2, center1).x == -u);
    assert(offset(center2, center1).y == -v);
    assert(separation_sq(center2, center1) == separation_sq(center1, center2));
    assert(separation(center2, center1) == separation(center1, center2));
    lemma_epsilon_positive();
    if !concentric(center1, center2) {
        lemma_exchange_chord(radius1, center1, radius2, center2);
        let foot = chord_foot(radius1, center1, radius2, center2);
        assert(foot.fuzzy_eq_spec(foot));
    }
}

/// A circle and itself are the same circle.
pub proof fn lemma_equal_circles_overlap(radius: real, center: Vector2<real>)
    ensures
        circle_circle_intr_spec(radius, center, radius, center) is Overlapping,
{
    lemma_epsilon_positive();
    assert(separation_sq(center, center) == 0real);
    assert(is_root(0real, 0real));
    lemma_root_unique(0real, 0real);
}

/// Two circles about one centre share no point if their radii differ by more
/// than the tolerance.
pub proof fn lemma_unequal_circles_about_one_center(
    radius1: real,
    radius2: real,
    center: Vector2<real>,
)
    requires
        !fuzzy_eq_spec(radius1, radius2),
    ensures
        circle_circle_intr_spec(radius1, center, radius2, center) is NoIntersect,
{
    lemma_epsilon_positive();
    assert(separation_sq(center, center) == 0real);
    assert(is_root(0real, 0real));
    lemma_root_unique(0real, 0real);
}

/// Circles whose centres lie further apart than the sum of the radii and the
/// tolerance share no point. The sum of the radii is taken not to be
/// negative.
pub proof fn lemma_far_apart(
    radius1: real,
    center1: Vector2<real>,
    radius2: real,
    center2: Vector2<real>,
)
    requires
        radius1 + radius2 >= 0real,
        separation(center1, center2) > radius1 + radius2 + real::epsilon_spec(),
    ensures
        circle_circle_intr_spec(radius1, center1, radius2, center2) is NoIntersect,
{
    lemma_epsilon_positive();
}

/// Circles of which one lies inside the other, their centres closer than the
/// radii differ less the tolerance, share no point.
pub proof fn lemma_one_inside(
    radius1: real,
    center1: Vector2<real>,
    radius2: real,
    center2: Vector2<real>,
)
    requires
        has_root(separation_sq(center1, center2)),
        separation(center1, center2) < (radius1 - radius2).abs_spec() - real::epsilon_spec(),
    ensures
        circle_circle_intr_spec(radius1, center1, radius2, center2) is NoIntersect,
{
    lemma_epsilon_positive();
    lemma_root(separation_sq(center1, center2));
}

/// Circles in reach of each other, not concentric, touch in the foot of the
/// chord where the square of the half chord is not positive.
proof fn lemma_touch_in_foot(
    radius1: real,
    center1: Vector2<real>,
    radius2: real,
    center2: Vector2<real>,
)
    requires
        has_root(separation_sq(center1, center2)),
        !concentric(center1, center2),
        in_reach(radius1, center1, radius2, center2),
        half_chord_sq(radius1, center1, radius2, center2) <= 0real,
    ensures
        circle_circle_intr_spec(radius1, center1, radius2, center2) == (
        CircleCircleIntr::TangentIntersect {
            point: chord_foot(radius1, center1, radius2, center2),
        }),
{
    let d = separation(center1, center2);
    let foot = chord_foot(radius1, center1, radius2, center2);
    lemma_chord_distance(radius1, center1, radius2, center2);
    lemma_epsilon_positive();
    if half_chord_sq(radius1, center1, radius2, center2) == 0real {
        assert(is_root(0real, 0real));
        lemma_root_unique(0real, 0real);
        lemma_quotient(0real, d);
        lemma_mul_cancels(0real / d, 0real, d);
        assert(half_chord_ratio(radius1, center1, radius2, center2) == 0real);
        assert(chord_end1(radius1, center1, radius2, center2) == foot);
        assert(chord_end2(radius1, center1, radius2, center2) == foot);
        assert(foot.fuzzy_eq_spec(foot));
    }
}

/// Circles that touch from outside: where the centres lie as far apart as
/// the radii reach, or further by less than the tolerance, the circles touch
/// in the foot of the chord. That point lies between the two centres, at a
/// distance `a` from the first that is the first radius or more, by less than
/// the tolerance.
pub proof fn lemma_touching_outside(
    radius1: real,
    center1: Vector2<real>,
    radius2: real,
    center2: Vector2<real>,
)
    requires
        has_root(separation_sq(center1, center2)),
        radius1 >= 0real,
        radius2 >= 0real,
        !concentric(center1, center2),
        radius1 + radius2 <= separation(center1, center2),
        separation(center1, center2) < radius1 + radius2 + real::epsilon_spec(),
    ensures
        ({
            let a = chord_distance(radius1, center1, radius2, center2);
            let foot = chord_foot(radius1, center1, radius2, center2);
            &&& circle_circle_intr_spec(radius1, center1, radius2, center2) == (
            CircleCircleIntr::TangentIntersect { point: foot })
            &&& radius1 <= a < radius1 + real::epsilon_spec()
            &&& a <= separation(center1, center2)
            &&& separation_sq(center1, foot) == a * a
        }),
{
    let u = offset(center1, center2).x;
    let v = offset(center1, center2).y;
    let d = separation(center1, center2);
    let a = chord_distance(radius1, center1, radius2, center2);
    let t = a / d;
    let foot = chord_foot(radius1, center1, radius2, center2);
    let x = d - radius1 - radius2;
    let y = d - radius1 + radius2;
    lemma_chord_distance(radius1, center1, radius2, center2);
    lemma_epsilon_positive();

    // (a - r1) * 2d = (d - r1)^2 - r2^2 = x * y
    lemma_square_of_sum(d, radius1);
    lemma_difference_of_squares(d - radius1, radius2);
    lemma_mul_distributes(d + d, a, radius1);
    lemma_mul_distributes(radius1, d, d);
    assert((a - radius1) * (d + d) == x * y);
    assert(radius1 <= a) by {
        lemma_mul_sign(x, y);
        lemma_mul_cancels(0real, a - radius1, d + d);
    }
    assert(a < radius1 + real::epsilon_spec()) by {
        lemma_mul_grows(x, y, d + d);
        lemma_mul_cancels(a - radius1, x, d + d);
    }
    assert(a <= d) by {
        lemma_square_grows(radius1, d);
        lemma_mul_sign(radius2, radius2);
        lemma_mul_distributes(d + d, d, a);
        lemma_mul_distributes(d, d, d);
        lemma_mul_cancels(0real, d - a, d + d);
    }
    assert(half_chord_sq(radius1, center1, radius2, center2) <= 0real) by {
        lemma_square_grows(radius1, a);
    }
    lemma_touch_in_foot(radius1, center1, radius2, center2);
    assert(separation_sq(center1, foot) == a * a) by {
        lemma_turn(u, v, d, t, 0real);
        assert(foot.x - center1.x == u * t + 0real * v);
        assert(foot.y - center1.y == v * t - 0real * u);
    }
}

/// Circles that touch from inside: where the centres lie as far apart as the
/// radii differ, or closer by less than the tolerance, the circles touch in
/// the foot of the chord.
pub proof fn lemma_touching_inside(
    radius1: real,
    center1: Vector2<real>,
    radius2: real,
    center2: Vector2<real>,
)
    requires
        has_root(separation_sq(center1, center2)),
        radius1 >= 0real,
        radius2 >= 0real,
        !concentric(center1, center2),
        separation(center1, center2) <= (radius1 - radius2).abs_spec(),
        (radius1 - radius2).abs_spec() - real::epsilon_spec() < separation(center1, center2),
    ensures
        circle_circle_intr_spec(radius1, center1, radius2, center2) == (
        CircleCircleIntr::TangentIntersect {
            point: chord_foot(radius1, center1, radius2, center2),
        }),
{
    let d = separation(center1, center2);
    let a = chord_distance(radius1, center1, radius2, center2);
    lemma_chord_distance(radius1, center1, radius2, center2);
    lemma_epsilon_positive();
    lemma_mul_distributes(d + d, a, radius1);
    lemma_mul_distributes(radius1, d, d);
    assert(radius1 * radius1 <= a * a) by {
        if radius1 >= radius2 {
            // (a - r1) * 2d = (d - r1 - r2) * (d - r1 + r2), both factors not positive
            lemma_square_of_sum(d, radius1);
            lemma_difference_of_squares(d - radius1, radius2);
            lemma_mul_sign(d - radius1 - radius2, d - radius1 + radius2);
            lemma_mul_cancels(0real, a - radius1, d + d);
            lemma_square_grows(radius1, a);
        } else {
            // (a + r1) * 2d = (d + r1 - r2) * (d + r1 + r2), of opposite signs
            lemma_square_of_sum(d, radius1);
            lemma_difference_of_squares(d + radius1, radius2);
            lemma_mul_sign(d + radius1 + radius2, d + radius1 - radius2);
            lemma_mul_cancels(a + radius1, 0real, d + d);
            lemma_square_grows(radius1, -a);
            lemma_mul_negates(a, a);
        }
    }
    lemma_touch_in_foot(radius1, center1, radius2, center2);
}

/// The two ends of the chord lie twice the half chord apart: the square of
/// their distance is four times `radius1^2 - a^2`.
pub proof fn lemma_chord_length(
    radius1: real,
    center1: Vector2<real>,
    radius2: real,
    center2: Vector2<real>,
)
    requires
        has_root(separation_sq(center1, center2)),
        has_root(half_chord_sq(radius1, center1, radius2, center2)),
        !concentric(center1, center2),
    ensures
        separation_sq(
            chord_end1(radius1, center1, radius2, center2),
            chord_end2(radius1, center1, radius2, center2),
        ) == 4real * half_chord_sq(radius1, center1, radius2, center2),
{
    let u = offset(center1, center2).x;
    let v = offset(center1, center2).y;
    let d = separation(center1, center2);
    let h = half_chord_sq(radius1, center1, radius2, center2).sqrt_spec();
    let k = half_chord_ratio(radius1, center1, radius2, center2);
    let end1 = chord_end1(radius1, center1, radius2, center2);
    let end2 = chord_end2(radius1, center1, radius2, center2);
    lemma_chord_distance(radius1, center1, radius2, center2);
    lemma_root(half_chord_sq(radius1, center1, radius2, center2));
    lemma_quotient(h, d);
    lemma_turn(u, v, d, 0real, k + k);
    lemma_mul_distributes(v, k, k);
    lemma_mul_distributes(u, k, k);
    lemma_mul_distributes(d, k, k);
    lemma_square_of_sum(h, h);
    assert(end2.x - end1.x == u * 0real - (k + k) * v);
    assert(end2.y - end1.y == v * 0real + (k + k) * u);
    assert((k + k) * d == h + h);
}

/// Circles whose chord is no longer than the tolerance touch: once the two
/// ends have drawn that close, the circles no longer cross.
pub proof fn lemma_short_chord_touches(
    radius1: real,
    center1: Vector2<real>,
    radius2: real,
    center2: Vector2<real>,
)
    requires
        has_root(separation_sq(center1, center2)),
        has_root(half_chord_sq(radius1, center1, radius2, center2)),
        !concentric(center1, center2),
        in_reach(radius1, center1, radius2, center2),
        0real <= half_chord_sq(radius1, center1, radius2, center2),
        4real * half_chord_sq(radius1, center1, radius2, center2) <= real::epsilon_spec()
            * real::epsilon_spec(),
    ensures
        circle_circle_intr_spec(radius1, center1, radius2, center2) == (
        CircleCircleIntr::TangentIntersect {
            point: chord_end1(radius1, center1, radius2, center2),
        }),
{
    let end1 = chord_end1(radius1, center1, radius2, center2);
    let end2 = chord_end2(radius1, center1, radius2, center2);
    let e = real::epsilon_spec();
    let x = end1.x - end2.x;
    let y = end1.y - end2.y;
    lemma_chord_length(radius1, center1, radius2, center2);
    lemma_epsilon_positive();
    lemma_mul_negates(x, x);
    lemma_mul_negates(y, y);
    lemma_mul_sign(x, x);
    lemma_mul_sign(y, y);
    assert(offset(end1, end2).x == -x);
    assert(offset(end1, end2).y == -y);
    assert(x * x + y * y <= e * e);
    assert(x.abs_spec() <= e) by {
        if x.abs_spec() > e {
            lemma_square_grows(e, x.abs_spec());
        }
    }
    assert(y.abs_spec() <= e) by {
        if y.abs_spec() > e {
            lemma_square_grows(e, y.abs_spec());
        }
    }
    assert(end1.fuzzy_eq_spec(end2));
}

/// Circles whose chord is longer than the tolerance allows for two points
/// that count as one cross in the two ends of the chord. The ends count as
/// one point if neither coordinate differs by more than the tolerance, so a
/// chord whose square is more than twice the square of the tolerance is long
/// enough.
pub proof fn lemma_long_chord_crosses(
    radius1: real,
    center1: Vector2<real>,
    radius2: real,
    center2: Vector2<real>,
)
    requires
        has_root(separation_sq(center1, center2)),
        has_root(half_chord_sq(radius1, center1, radius2, center2)),
        !concentric(center1, center2),
        in_reach(radius1, center1, radius2, center2),
        4real * half_chord_sq(radius1, center1, radius2, center2) > 2real * (real::epsilon_spec()
            * real::epsilon_spec()),
    ensures
        circle_circle_intr_spec(radius1, center1, radius2, center2) == (
        CircleCircleIntr::TwoIntersects {
            point1: chord_end1(radius1, center1, radius2, center2),
            point2: chord_end2(radius1, center1, radius2, center2),
        }),
{
    let end1 = chord_end1(radius1, center1, radius2, center2);
    let end2 = chord_end2(radius1, center1, radius2, center2);
    let e = real::epsilon_spec();
    let x = end1.x - end2.x;
    let y = end1.y - end2.y;
    lemma_chord_length(radius1, center1, radius2, center2);
    lemma_epsilon_positive();
    lemma_mul_negates(x, x);
    lemma_mul_negates(y, y);
    lemma_mul_sign(e, e);
    assert(offset(end1, end2).x == -x);
    assert(offset(end1, end2).y == -y);
    assert(x * x + y * y > e * e + e * e);
    if end1.fuzzy_eq_spec(end2) {
        lemma_square_grows(x.abs_spec(), e);
        lemma_square_grows(y.abs_spec(), e);
        assert(false);
    }
}

/// Circles whose centres lie further apart than the radii differ, and closer
/// than the radii reach, have a chord of positive length.
pub proof fn lemma_chord_between(
    radius1: real,
    center1: Vector2<real>,
    radius2: real,
    center2: Vector2<real>,
)
    requires
        has_root(separation_sq(center1, center2)),
        radius1 >= 0real,
        radius2 >= 0real,
        !concentric(center1, center2),
        (radius1 - radius2).abs_spec() < separation(center1, center2),
        separation(center1, center2) < radius1 + radius2,
    ensures
        half_chord_sq(radius1, center1, radius2, center2) > 0real,
{
    let d = separation(center1, center2);
    let a = chord_distance(radius1, center1, radius2, center2);
    lemma_chord_distance(radius1, center1, radius2, center2);
    lemma_mul_distributes(d + d, a, radius1);
    lemma_mul_distributes(radius1, d, d);
    lemma_square_of_sum(d, radius1);
    assert(a < radius1) by {
        lemma_difference_of_squares(d - radius1, radius2);
        lemma_mul_sign(d - radius1 + radius2, d - radius1 - radius2);
        lemma_mul_cancels(a - radius1, 0real, d + d);
    }
    assert(-radius1 < a) by {
        lemma_difference_of_squares(d + radius1, radius2);
        lemma_mul_sign(d + radius1 - radius2, d + radius1 + radius2);
        lemma_mul_cancels(0real, a + radius1, d + d);
    }
    if a >= 0real {
        lemma_square_grows(a, radius1);
    } else {
        lemma_square_grows(-a, radius1);
        lemma_mul_negates(a, a);
    }
}

} // verus!
