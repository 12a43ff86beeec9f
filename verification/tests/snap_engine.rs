use ppd_editor::geom::{Point, Rect};
use ppd_editor::snap::{drag_snap, Candidate, SnapInput, SnapType};

#[test]
fn an_empty_input_has_no_candidates() {
    let input = SnapInput::empty();
    assert!(input.min.is_none() && input.max.is_none());
    assert!(input.center.is_none() && input.anchor.is_none());
    let out = drag_snap(&input, &vec![], 1000);
    assert_eq!(out.min.x, None);
}

fn rect(x0: i64, y0: i64, x1: i64, y1: i64) -> Rect {
    Rect { min: Point { x: x0, y: y0 }, max: Point { x: x1, y: y1 } }
}

fn cand(x: i64, y: i64, mode: SnapType) -> Option<Candidate> {
    Some(Candidate { point: Point { x, y }, mode })
}

fn input_min(c: Option<Candidate>) -> SnapInput {
    SnapInput { min: c, max: None, center: None, anchor: None }
}

#[test]
fn snap_jumps_to_key_coordinate_exactly() {
    // A candidate within tolerance of a reference edge receives that edge's
    // own coordinate, never an interpolated value.
    let rects = vec![rect(100, 300, 260, 350)];
    let out = drag_snap(&input_min(cand(98, 10, SnapType::Both)), &rects, 10);
    assert_eq!(out.min.x, Some(100));
    assert_eq!(out.min.y, None);
}

#[test]
fn snap_out_of_tolerance_yields_none() {
    let rects = vec![rect(100, 300, 260, 350)];
    let out = drag_snap(&input_min(cand(80, 10, SnapType::Both)), &rects, 10);
    assert_eq!(out.min.x, None);
    assert_eq!(out.min.y, None);
}

#[test]
fn mode_x_never_returns_y() {
    // The candidate sits exactly on a reference y coordinate, yet mode X
    // must not report a vertical result.
    let rects = vec![rect(0, 300, 50, 350)];
    let out = drag_snap(&input_min(cand(1, 300, SnapType::X)), &rects, 10);
    assert_eq!(out.min.x, Some(0));
    assert_eq!(out.min.y, None);
}

#[test]
fn mode_y_never_returns_x() {
    let rects = vec![rect(0, 300, 50, 350)];
    let out = drag_snap(&input_min(cand(0, 305, SnapType::Y)), &rects, 10);
    assert_eq!(out.min.x, None);
    assert_eq!(out.min.y, Some(300));
}

#[test]
fn display_only_requires_exact_alignment() {
    let rects = vec![rect(100, 300, 260, 350)];
    let hit = drag_snap(&input_min(cand(100, 10, SnapType::DisplayOnly)), &rects, 10);
    assert_eq!(hit.min.x, Some(100));
    let miss = drag_snap(&input_min(cand(101, 10, SnapType::DisplayOnly)), &rects, 10);
    assert_eq!(miss.min.x, None);
}

#[test]
fn later_rectangles_overwrite_earlier_matches() {
    let a = rect(95, 0, 95, 0);
    let b = rect(104, 0, 104, 0);
    let out_ab = drag_snap(&input_min(cand(100, 500, SnapType::Both)), &vec![a, b], 10);
    assert_eq!(out_ab.min.x, Some(104));
    let out_ba = drag_snap(&input_min(cand(100, 500, SnapType::Both)), &vec![b, a], 10);
    assert_eq!(out_ba.min.x, Some(95));
}

#[test]
fn center_and_midpoints_are_key_points() {
    // Rectangle (0,0)-(100,50): center x is 50, edge midpoint y is 25.
    let rects = vec![rect(0, 0, 100, 50)];
    let out = drag_snap(&input_min(cand(48, 23, SnapType::Both)), &rects, 5);
    assert_eq!(out.min.x, Some(50));
    assert_eq!(out.min.y, Some(25));
}

#[test]
fn empty_basis_yields_no_snap() {
    let rects: Vec<Rect> = Vec::new();
    let out = drag_snap(&input_min(cand(0, 0, SnapType::Both)), &rects, 1000);
    assert_eq!(out.min.x, None);
    assert_eq!(out.min.y, None);
}

#[test]
fn absent_candidates_yield_no_result() {
    let rects = vec![rect(0, 0, 100, 50)];
    let out = drag_snap(&SnapInput::empty(), &rects, 1000);
    assert_eq!(out.min.x, None);
    assert_eq!(out.max.x, None);
    assert_eq!(out.center.x, None);
    assert_eq!(out.anchor.x, None);
}

#[test]
fn all_four_candidates_are_answered_independently() {
    let rects = vec![rect(0, 0, 100, 50)];
    let input = SnapInput {
        min: cand(2, 1, SnapType::Both),
        max: cand(98, 52, SnapType::Both),
        center: cand(51, 200, SnapType::X),
        anchor: cand(200, 24, SnapType::Y),
    };
    let out = drag_snap(&input, &rects, 5);
    assert_eq!(out.min.x, Some(0));
    assert_eq!(out.min.y, Some(0));
    assert_eq!(out.max.x, Some(100));
    assert_eq!(out.max.y, Some(50));
    assert_eq!(out.center.x, Some(50));
    assert_eq!(out.center.y, None);
    assert_eq!(out.anchor.x, None);
    assert_eq!(out.anchor.y, Some(25));
}
