use ppd_editor::geom::{midpoint, round_div_i, scale_value, unscale_value, Point, Scale};

#[test]
fn rounding_is_nearest_with_ties_away_from_zero() {
    assert_eq!(round_div_i(5, 2), 3);
    assert_eq!(round_div_i(-5, 2), -3);
    assert_eq!(round_div_i(4, 3), 1);
    assert_eq!(round_div_i(5, 3), 2);
    assert_eq!(round_div_i(-4, 3), -1);
    assert_eq!(round_div_i(-5, 3), -2);
    assert_eq!(round_div_i(0, 7), 0);
}

#[test]
fn midpoint_rounds_toward_negative_infinity() {
    assert_eq!(midpoint(0, 100), 50);
    assert_eq!(midpoint(3, 4), 3);
    assert_eq!(midpoint(-3, 0), -2);
    assert_eq!(midpoint(-1, -2), -2);
}

#[test]
fn scaling_by_a_rational_rounds_to_the_nearest_pixel() {
    let half = Scale { num: 1, den: 2 };
    assert_eq!(scale_value(5, half), 3);
    assert_eq!(scale_value(-5, half), -3);
    assert_eq!(scale_value(4, half), 2);
    let double = Scale { num: 2, den: 1 };
    assert_eq!(scale_value(7, double), 14);
    assert_eq!(unscale_value(14, double), 7);
    assert_eq!(unscale_value(15, double), 8);
}

#[test]
fn commit_round_trip_is_exact_at_zoom_one_or_more() {
    // Scaling a committed pixel up to the screen and rounding it back gives
    // the identical pixel: repeated commits cannot drift.
    let scales = [
        Scale { num: 1, den: 1 },
        Scale { num: 3, den: 2 },
        Scale { num: 2, den: 1 },
        Scale { num: 7, den: 3 },
    ];
    for s in scales {
        for v in [-1000i64, -37, -1, 0, 1, 17, 999] {
            assert_eq!(unscale_value(scale_value(v, s), s), v);
        }
    }
}

#[test]
fn points_compare_by_fields() {
    assert_eq!(Point { x: 1, y: 2 }, Point { x: 1, y: 2 });
    assert_ne!(Point { x: 1, y: 2 }, Point { x: 2, y: 1 });
}
