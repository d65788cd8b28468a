use circle_intersect::{circle_circle_intr, Arithmetic, CircleCircleIntr, Real, Vector2};

/// Double precision with a tolerance of 1e-8.
#[derive(Clone, Copy, Debug, PartialEq)]
struct F(f64);

impl Arithmetic for F {}

impl Real for F {
    fn zero() -> Self {
        F(0.0)
    }
    fn two() -> Self {
        F(2.0)
    }
    fn epsilon() -> Self {
        F(1e-8)
    }
    fn add(self, other: Self) -> Self {
        F(self.0 + other.0)
    }
    fn sub(self, other: Self) -> Self {
        F(self.0 - other.0)
    }
    fn mul(self, other: Self) -> Self {
        F(self.0 * other.0)
    }
    fn div(self, other: Self) -> Self {
        F(self.0 / other.0)
    }
    fn sqrt(self) -> Self {
        F(self.0.sqrt())
    }
    fn abs(self) -> Self {
        F(self.0.abs())
    }
    fn lt(self, other: Self) -> bool {
        self.0 < other.0
    }
    fn le(self, other: Self) -> bool {
        self.0 <= other.0
    }
}

fn v(x: f64, y: f64) -> Vector2<F> {
    Vector2::new(F(x), F(y))
}

fn dist(p: Vector2<F>, q: Vector2<F>) -> f64 {
    let dx = p.x.0 - q.x.0;
    let dy = p.y.0 - q.y.0;
    (dx * dx + dy * dy).sqrt()
}

fn intr(r1: f64, c1: (f64, f64), r2: f64, c2: (f64, f64)) -> CircleCircleIntr<F> {
    circle_circle_intr(F(r1), v(c1.0, c1.1), F(r2), v(c2.0, c2.1))
}

#[test]
fn fuzzy_eq_zero_holds_up_to_the_tolerance() {
    assert!(F(0.0).fuzzy_eq_zero());
    assert!(F(1e-8).fuzzy_eq_zero());
    assert!(F(-1e-8).fuzzy_eq_zero());
    assert!(!F(1.5e-8).fuzzy_eq_zero());
    assert!(!F(-1.5e-8).fuzzy_eq_zero());
}

#[test]
fn fuzzy_eq_holds_up_to_the_tolerance() {
    assert!(F(1.0).fuzzy_eq(F(1.0)));
    assert!(F(1.0).fuzzy_eq(F(1.000000005)));
    assert!(F(1.000000005).fuzzy_eq(F(1.0)));
    assert!(F(0.0).fuzzy_eq(F(1e-8)));
    assert!(!F(1.0).fuzzy_eq(F(1.00000002)));
    assert!(!F(1.00000002).fuzzy_eq(F(1.0)));
}

#[test]
fn fuzzy_lt_takes_near_equal_for_less() {
    assert!(F(1.0).fuzzy_lt(F(2.0)));
    assert!(F(1.0).fuzzy_lt(F(1.0)));
    assert!(F(1.000000005).fuzzy_lt(F(1.0)));
    assert!(!F(1.00000002).fuzzy_lt(F(1.0)));
    assert!(!F(2.0).fuzzy_lt(F(1.0)));
}

#[test]
fn fuzzy_gt_takes_near_equal_for_greater() {
    assert!(F(2.0).fuzzy_gt(F(1.0)));
    assert!(F(1.0).fuzzy_gt(F(1.0)));
    assert!(F(1.0).fuzzy_gt(F(1.000000005)));
    assert!(!F(1.0).fuzzy_gt(F(1.00000002)));
    assert!(!F(1.0).fuzzy_gt(F(2.0)));
}

#[test]
fn vector_new_keeps_the_coordinates() {
    let p = v(3.0, -4.0);
    assert_eq!(p.x, F(3.0));
    assert_eq!(p.y, F(-4.0));
}

#[test]
fn vector_zero_is_the_origin() {
    assert_eq!(Vector2::<F>::zero(), v(0.0, 0.0));
}

#[test]
fn vector_add_and_sub_work_by_coordinate() {
    assert_eq!(v(1.0, 2.0).add(v(10.0, 20.0)), v(11.0, 22.0));
    assert_eq!(v(1.0, 2.0).sub(v(10.0, 20.0)), v(-9.0, -18.0));
    assert_eq!(v(1.5, -2.0).add(Vector2::zero()), v(1.5, -2.0));
}

#[test]
fn vector_scale_multiplies_both_coordinates() {
    assert_eq!(v(1.5, -2.0).scale(F(4.0)), v(6.0, -8.0));
    assert_eq!(v(1.5, -2.0).scale(F(0.0)).x, F(0.0));
}

#[test]
fn vector_dot_is_the_sum_of_the_products() {
    assert_eq!(v(3.0, 4.0).dot(v(3.0, 4.0)), F(25.0));
    assert_eq!(v(1.0, 2.0).dot(v(-2.0, 1.0)), F(0.0));
    assert_eq!(v(1.0, 2.0).dot(v(5.0, 7.0)), F(19.0));
}

#[test]
fn vector_fuzzy_eq_asks_for_both_coordinates() {
    assert!(v(1.0, 2.0).fuzzy_eq(v(1.0, 2.0)));
    assert!(v(1.0, 2.0).fuzzy_eq(v(1.000000005, 1.999999995)));
    assert!(!v(1.0, 2.0).fuzzy_eq(v(1.0, 2.00000002)));
    assert!(!v(1.0, 2.0).fuzzy_eq(v(1.00000002, 2.0)));
}

#[test]
fn same_circle_overlaps() {
    assert_eq!(intr(3.0, (1.0, 2.0), 3.0, (1.0, 2.0)), CircleCircleIntr::Overlapping);
    assert_eq!(intr(0.0, (0.0, 0.0), 0.0, (0.0, 0.0)), CircleCircleIntr::Overlapping);
}

#[test]
fn nearly_the_same_circle_overlaps() {
    assert_eq!(
        intr(3.0, (1.0, 2.0), 3.000000005, (1.000000003, 2.000000004)),
        CircleCircleIntr::Overlapping
    );
}

#[test]
fn concentric_circles_of_different_radius_do_not_meet() {
    assert_eq!(intr(3.0, (1.0, 2.0), 3.5, (1.0, 2.0)), CircleCircleIntr::NoIntersect);
    assert_eq!(intr(3.0, (1.0, 2.0), 3.00000002, (1.0, 2.0)), CircleCircleIntr::NoIntersect);
    assert_eq!(intr(3.5, (1.0, 2.0), 3.0, (1.0, 2.0)), CircleCircleIntr::NoIntersect);
}

#[test]
fn circles_far_apart_do_not_meet() {
    assert_eq!(intr(1.0, (0.0, 0.0), 1.0, (3.0, 0.0)), CircleCircleIntr::NoIntersect);
    assert_eq!(intr(1.0, (0.0, 0.0), 1.0, (2.00000002, 0.0)), CircleCircleIntr::NoIntersect);
    assert_eq!(intr(2.0, (-1.0, -1.0), 0.5, (2.0, 3.0)), CircleCircleIntr::NoIntersect);
}

#[test]
fn a_circle_inside_another_does_not_meet_it() {
    assert_eq!(intr(5.0, (0.0, 0.0), 1.0, (1.0, 0.0)), CircleCircleIntr::NoIntersect);
    assert_eq!(intr(1.0, (1.0, 0.0), 5.0, (0.0, 0.0)), CircleCircleIntr::NoIntersect);
    assert_eq!(intr(3.0, (0.0, 0.0), 1.0, (1.99999998, 0.0)), CircleCircleIntr::NoIntersect);
}

#[test]
fn circles_touching_from_outside_share_one_point() {
    assert_eq!(
        intr(1.0, (0.0, 0.0), 1.0, (2.0, 0.0)),
        CircleCircleIntr::TangentIntersect { point: v(1.0, 0.0) }
    );
    assert_eq!(
        intr(1.0, (0.0, 0.0), 1.0, (0.0, -2.0)),
        CircleCircleIntr::TangentIntersect { point: v(0.0, -1.0) }
    );
}

#[test]
fn the_outer_touching_point_lies_between_the_centres() {
    let c1 = v(1.0, 1.0);
    let c2 = v(4.0, 5.0);
    match circle_circle_intr(F(2.0), c1, F(3.0), c2) {
        CircleCircleIntr::TangentIntersect { point } => {
            assert!(point.fuzzy_eq(v(2.2, 2.6)));
            assert!((dist(point, c1) - 2.0).abs() <= 1e-8);
            assert!((dist(point, c2) - 3.0).abs() <= 1e-8);
            assert!((dist(point, c1) + dist(point, c2) - dist(c1, c2)).abs() <= 1e-8);
        }
        other => panic!("{:?}", other),
    }
}

#[test]
fn circles_within_the_tolerance_of_touching_from_outside_touch() {
    match intr(1.0, (0.0, 0.0), 1.0, (2.000000005, 0.0)) {
        CircleCircleIntr::TangentIntersect { point } => {
            assert!(point.fuzzy_eq(v(1.0, 0.0)));
            assert_eq!(point.y, F(0.0));
            assert!(point.x.0 > 1.0);
        }
        other => panic!("{:?}", other),
    }
}

#[test]
fn circles_touching_from_inside_share_one_point() {
    assert_eq!(
        intr(3.0, (0.0, 0.0), 1.0, (2.0, 0.0)),
        CircleCircleIntr::TangentIntersect { point: v(3.0, 0.0) }
    );
    assert_eq!(
        intr(1.0, (2.0, 0.0), 3.0, (0.0, 0.0)),
        CircleCircleIntr::TangentIntersect { point: v(3.0, 0.0) }
    );
}

#[test]
fn circles_within_the_tolerance_of_touching_from_inside_touch() {
    match intr(3.0, (0.0, 0.0), 1.0, (1.999999995, 0.0)) {
        CircleCircleIntr::TangentIntersect { point } => {
            assert!(point.fuzzy_eq(v(3.0, 0.0)));
        }
        other => panic!("{:?}", other),
    }
}

#[test]
fn unit_circle_and_circle_about_zero_one_cross_on_the_x_axis() {
    let unit_center: Vector2<F> = Vector2::zero();
    let unit_radius = F(1.0);
    match circle_circle_intr(unit_radius, unit_center, F(2.0f64.sqrt()), v(0.0, 1.0)) {
        CircleCircleIntr::TwoIntersects { point1, point2 } => {
            assert!(point1.fuzzy_eq(v(1.0, 0.0)));
            assert!(point2.fuzzy_eq(v(-1.0, 0.0)));
        }
        other => panic!("{:?}", other),
    }
}

#[test]
fn crossing_points_are_exact_where_the_arithmetic_is() {
    assert_eq!(
        intr(5.0, (0.0, 0.0), 5.0, (8.0, 0.0)),
        CircleCircleIntr::TwoIntersects { point1: v(4.0, -3.0), point2: v(4.0, 3.0) }
    );
    assert_eq!(
        intr(5.0, (0.0, 0.0), 5.0, (0.0, 8.0)),
        CircleCircleIntr::TwoIntersects { point1: v(3.0, 4.0), point2: v(-3.0, 4.0) }
    );
    assert_eq!(
        intr(5.0, (1.0, 2.0), 5.0, (-7.0, 2.0)),
        CircleCircleIntr::TwoIntersects { point1: v(-3.0, 5.0), point2: v(-3.0, -1.0) }
    );
}

#[test]
fn crossing_points_lie_on_both_circles() {
    let cases = [
        (2.5, (1.0, 1.0), 1.5, (3.0, 2.5)),
        (1.0, (0.0, 0.0), 1.0, (0.3, -0.4)),
        (10.0, (-3.0, 7.0), 4.0, (5.0, 1.0)),
        (0.75, (100.0, 100.0), 0.5, (100.5, 100.5)),
    ];
    for (r1, c1, r2, c2) in cases {
        match intr(r1, c1, r2, c2) {
            CircleCircleIntr::TwoIntersects { point1, point2 } => {
                for p in [point1, point2] {
                    assert!((dist(p, v(c1.0, c1.1)) - r1).abs() <= 1e-8);
                    assert!((dist(p, v(c2.0, c2.1)) - r2).abs() <= 1e-8);
                }
                assert!(!point1.fuzzy_eq(point2));
            }
            other => panic!("{:?}", other),
        }
    }
}

#[test]
fn exchanging_the_circles_exchanges_the_crossing_points() {
    let one = intr(5.0, (0.0, 0.0), 5.0, (8.0, 0.0));
    let other = intr(5.0, (8.0, 0.0), 5.0, (0.0, 0.0));
    assert_eq!(one, CircleCircleIntr::TwoIntersects { point1: v(4.0, -3.0), point2: v(4.0, 3.0) });
    assert_eq!(other, CircleCircleIntr::TwoIntersects { point1: v(4.0, 3.0), point2: v(4.0, -3.0) });
}

#[test]
fn exchanging_the_circles_keeps_the_kind_and_the_points() {
    let cases = [
        (3.0, (1.0, 2.0), 3.0, (1.0, 2.0)),
        (3.0, (1.0, 2.0), 3.5, (1.0, 2.0)),
        (1.0, (0.0, 0.0), 1.0, (3.0, 0.0)),
        (5.0, (0.0, 0.0), 1.0, (1.0, 0.0)),
        (1.0, (0.0, 0.0), 1.0, (2.0, 0.0)),
        (3.0, (0.0, 0.0), 1.0, (2.0, 0.0)),
        (2.5, (1.0, 1.0), 1.5, (3.0, 2.5)),
        (10.0, (-3.0, 7.0), 4.0, (5.0, 1.0)),
    ];
    for (r1, c1, r2, c2) in cases {
        match (intr(r1, c1, r2, c2), intr(r2, c2, r1, c1)) {
            (CircleCircleIntr::NoIntersect, CircleCircleIntr::NoIntersect) => {}
            (CircleCircleIntr::Overlapping, CircleCircleIntr::Overlapping) => {}
            (
                CircleCircleIntr::TangentIntersect { point: here },
                CircleCircleIntr::TangentIntersect { point: there },
            ) => assert!(here.fuzzy_eq(there)),
            (
                CircleCircleIntr::TwoIntersects { point1: right, point2: left },
                CircleCircleIntr::TwoIntersects { point1: new_right, point2: new_left },
            ) => {
                assert!(right.fuzzy_eq(new_left));
                assert!(left.fuzzy_eq(new_right));
            }
            other => panic!("{:?}", other),
        }
    }
}

#[test]
fn crossing_points_draw_together_and_then_touch() {
    let r = 1e-4;
    let mut last_gap = f64::INFINITY;
    for delta in [1e-6, 1e-8, 1e-10, 1e-12] {
        match intr(r, (0.0, 0.0), r, (2.0 * r - delta, 0.0)) {
            CircleCircleIntr::TwoIntersects { point1, point2 } => {
                let gap = dist(point1, point2);
                assert!(gap > 1e-8);
                assert!(gap < last_gap);
                last_gap = gap;
            }
            other => panic!("{:?}", other),
        }
    }
    for delta in [1e-13, 1e-14, 1e-16, 0.0, -1e-9, -9e-9] {
        match intr(r, (0.0, 0.0), r, (2.0 * r - delta, 0.0)) {
            CircleCircleIntr::TangentIntersect { point } => {
                assert!(point.fuzzy_eq(v(r, 0.0)));
            }
            other => panic!("{:?}", other),
        }
    }
    for delta in [-2e-8, -1e-6] {
        assert_eq!(intr(r, (0.0, 0.0), r, (2.0 * r - delta, 0.0)), CircleCircleIntr::NoIntersect);
    }
}

#[test]
fn a_negative_half_chord_square_touches_in_the_foot_of_the_chord() {
    // The centres lie a little further apart than the radii reach, so the
    // chord crosses beyond the first circle and r1^2 - a^2 is negative.
    match intr(1.0, (0.0, 0.0), 1.5, (2.500000004, 0.0)) {
        CircleCircleIntr::TangentIntersect { point } => {
            assert_eq!(point.y, F(0.0));
            assert!(point.x.0 > 1.0);
            assert!(point.x.0 < 1.00000001);
        }
        other => panic!("{:?}", other),
    }
}

/// Double precision with a tolerance of one half.
#[derive(Clone, Copy, Debug, PartialEq)]
struct Coarse(f64);

impl Arithmetic for Coarse {}

impl Real for Coarse {
    fn zero() -> Self {
        Coarse(0.0)
    }
    fn two() -> Self {
        Coarse(2.0)
    }
    fn epsilon() -> Self {
        Coarse(0.5)
    }
    fn add(self, other: Self) -> Self {
        Coarse(self.0 + other.0)
    }
    fn sub(self, other: Self) -> Self {
        Coarse(self.0 - other.0)
    }
    fn mul(self, other: Self) -> Self {
        Coarse(self.0 * other.0)
    }
    fn div(self, other: Self) -> Self {
        Coarse(self.0 / other.0)
    }
    fn sqrt(self) -> Self {
        Coarse(self.0.sqrt())
    }
    fn abs(self) -> Self {
        Coarse(self.0.abs())
    }
    fn lt(self, other: Self) -> bool {
        self.0 < other.0
    }
    fn le(self, other: Self) -> bool {
        self.0 <= other.0
    }
}

fn coarse(r1: f64, c1: (f64, f64), r2: f64, c2: (f64, f64)) -> CircleCircleIntr<Coarse> {
    circle_circle_intr(
        Coarse(r1),
        Vector2::new(Coarse(c1.0), Coarse(c1.1)),
        Coarse(r2),
        Vector2::new(Coarse(c2.0), Coarse(c2.1)),
    )
}

#[test]
fn the_tolerance_is_that_of_the_numeric_type() {
    // The chord of these circles is 6 long.
    assert_eq!(
        coarse(5.0, (0.0, 0.0), 5.0, (8.0, 0.0)),
        CircleCircleIntr::TwoIntersects {
            point1: Vector2::new(Coarse(4.0), Coarse(-3.0)),
            point2: Vector2::new(Coarse(4.0), Coarse(3.0)),
        }
    );
    // The chord of these is 0.25 long: two points for the fine tolerance,
    // one for the coarse.
    let d = 2.0 * (1.0f64 - 0.125 * 0.125).sqrt();
    assert!(matches!(
        intr(1.0, (0.0, 0.0), 1.0, (d, 0.0)),
        CircleCircleIntr::TwoIntersects { .. }
    ));
    match coarse(1.0, (0.0, 0.0), 1.0, (d, 0.0)) {
        CircleCircleIntr::TangentIntersect { point } => {
            assert!((point.x.0 - d / 2.0).abs() <= 1e-12);
            assert!((point.y.0 + 0.125).abs() <= 1e-12);
        }
        other => panic!("{:?}", other),
    }
    // Centres 0.4 apart are one centre for the coarse tolerance.
    assert_eq!(coarse(1.0, (0.0, 0.0), 1.25, (0.4, 0.0)), CircleCircleIntr::Overlapping);
    assert_eq!(coarse(1.0, (0.0, 0.0), 2.0, (0.4, 0.0)), CircleCircleIntr::NoIntersect);
}
