//! The snap engine: finds alignment matches between dragged candidate points
//! and the key points of a set of reference rectangles.
//!
//! Every reference rectangle contributes nine key points: its four corners,
//! its four edge midpoints and its center.  A candidate tagged `X`, `Y` or
//! `Both` snaps to a key coordinate on the permitted axes whenever it lies
//! within the tolerance; a `DisplayOnly` candidate merely reports a match
//! when its coordinate is already exactly aligned.  Later rectangles and key
//! points overwrite earlier matches on the same axis: the last match wins.

use vstd::prelude::*;

verus! {

use crate::geom::{abs_i, mid, Point, Rect};

/// The snap tolerance used when the host has not configured one, in screen
/// pixels.
pub const DEFAULT_SNAP_TOLERANCE: i64 = 10;

/// Which axes a candidate point may snap on.
#[derive(Clone, Copy, PartialEq, Eq, Structural, Debug)]
pub enum SnapType {
    /// Report a match only on exact alignment; never move the point.
    DisplayOnly,
    /// Snap horizontally only.
    X,
    /// Snap vertically only.
    Y,
    /// Snap on both axes.
    Both,
}

/// One candidate point together with its snap mode.
#[derive(Clone, Copy, PartialEq, Eq, Structural, Debug)]
pub struct Candidate {
    pub point: Point,
    pub mode: SnapType,
}

impl Candidate {
    pub fn new(point: Point, mode: SnapType) -> (c: Candidate)
        ensures
            c.point == point,
            c.mode == mode,
    {
        Candidate { point, mode }
    }
}

/// The candidate points of one interaction; absent candidates yield no
/// result at all.
#[derive(Clone, Copy, PartialEq, Eq, Structural, Debug)]
pub struct SnapInput {
    pub min: Option<Candidate>,
    pub max: Option<Candidate>,
    pub center: Option<Candidate>,
    pub anchor: Option<Candidate>,
}

impl SnapInput {
    /// An input with no candidate points.
    pub fn empty() -> (s: SnapInput)
        ensures
            s.min is None,
            s.max is None,
            s.center is None,
            s.anchor is None,
    {
        SnapInput { min: None, max: None, center: None, anchor: None }
    }
}

/// The snapped coordinates of one candidate point, per axis.
#[derive(Clone, Copy, PartialEq, Eq, Structural, Debug)]
pub struct SnapPointResult {
    pub x: Option<i64>,
    pub y: Option<i64>,
}

/// The snap results for all four candidate points.
#[derive(Clone, Copy, PartialEq, Eq, Structural, Debug)]
pub struct SnapOutput {
    pub min: SnapPointResult,
    pub max: SnapPointResult,
    pub center: SnapPointResult,
    pub anchor: SnapPointResult,
}

/// An `Option<i64>` read as a mathematical value.
pub open spec fn opt_int(o: Option<i64>) -> Option<int> {
    match o {
        None => None,
        Some(v) => Some(v as int),
    }
}

/// The x coordinate of key point `j` of `r`, in the order the engine visits
/// them: center, then the corners and edge midpoints clockwise from top-left.
pub open spec fn key_x(r: Rect, j: int) -> int {
    if j == 0 {
        mid(r.min.x as int, r.max.x as int)
    } else if j == 1 {
        r.min.x as int
    } else if j == 2 {
        mid(r.min.x as int, r.max.x as int)
    } else if j == 3 {
        r.max.x as int
    } else if j == 4 {
        r.max.x as int
    } else if j == 5 {
        r.max.x as int
    } else if j == 6 {
        mid(r.min.x as int, r.max.x as int)
    } else if j == 7 {
        r.min.x as int
    } else {
        r.min.x as int
    }
}

/// The y coordinate of key point `j` of `r`.
pub open spec fn key_y(r: Rect, j: int) -> int {
    if j == 0 {
        mid(r.min.y as int, r.max.y as int)
    } else if j == 1 {
        r.min.y as int
    } else if j == 2 {
        r.min.y as int
    } else if j == 3 {
        r.min.y as int
    } else if j == 4 {
        mid(r.min.y as int, r.max.y as int)
    } else if j == 5 {
        r.max.y as int
    } else if j == 6 {
        r.max.y as int
    } else if j == 7 {
        r.max.y as int
    } else {
        mid(r.min.y as int, r.max.y as int)
    }
}

/// Whether mode `t` permits snapping on the x axis.
pub open spec fn allows_x(t: SnapType) -> bool {
    t is X || t is Both
}

/// Whether mode `t` permits snapping on the y axis.
pub open spec fn allows_y(t: SnapType) -> bool {
    t is Y || t is Both
}

/// One key coordinate applied to one candidate on the x axis.
pub open spec fn step_x(px: int, t: SnapType, kx: int, tol: int, prev: Option<int>) -> Option<
    int,
> {
    if t is DisplayOnly {
        if px == kx {
            Some(px)
        } else {
            prev
        }
    } else if allows_x(t) {
        if abs_i(px - kx) <= tol {
            Some(kx)
        } else {
            prev
        }
    } else {
        prev
    }
}

/// One key coordinate applied to one candidate on the y axis.
pub open spec fn step_y(py: int, t: SnapType, ky: int, tol: int, prev: Option<int>) -> Option<
    int,
> {
    if t is DisplayOnly {
        if py == ky {
            Some(py)
        } else {
            prev
        }
    } else if allows_y(t) {
        if abs_i(py - ky) <= tol {
            Some(ky)
        } else {
            prev
        }
    } else {
        prev
    }
}

/// `step_x` lifted to an optional candidate.
pub open spec fn step_cand_x(
    c: Option<Candidate>,
    kx: int,
    tol: int,
    prev: Option<int>,
) -> Option<int> {
    match c {
        None => prev,
        Some(cd) => step_x(cd.point.x as int, cd.mode, kx, tol, prev),
    }
}

/// `step_y` lifted to an optional candidate.
pub open spec fn step_cand_y(
    c: Option<Candidate>,
    ky: int,
    tol: int,
    prev: Option<int>,
) -> Option<int> {
    match c {
        None => prev,
        Some(cd) => step_y(cd.point.y as int, cd.mode, ky, tol, prev),
    }
}

/// All nine key points of one rectangle applied in order, x axis.
pub open spec fn snap_rect_x(
    c: Option<Candidate>,
    r: Rect,
    tol: int,
    prev: Option<int>,
) -> Option<int> {
    let s0 = step_cand_x(c, key_x(r, 0), tol, prev);
    let s1 = step_cand_x(c, key_x(r, 1), tol, s0);
    let s2 = step_cand_x(c, key_x(r, 2), tol, s1);
    let s3 = step_cand_x(c, key_x(r, 3), tol, s2);
    let s4 = step_cand_x(c, key_x(r, 4), tol, s3);
    let s5 = step_cand_x(c, key_x(r, 5), tol, s4);
    let s6 = step_cand_x(c, key_x(r, 6), tol, s5);
    let s7 = step_cand_x(c, key_x(r, 7), tol, s6);
    step_cand_x(c, key_x(r, 8), tol, s7)
}

/// All nine key points of one rectangle applied in order, y axis.
pub open spec fn snap_rect_y(
    c: Option<Candidate>,
    r: Rect,
    tol: int,
    prev: Option<int>,
) -> Option<int> {
    let s0 = step_cand_y(c, key_y(r, 0), tol, prev);
    let s1 = step_cand_y(c, key_y(r, 1), tol, s0);
    let s2 = step_cand_y(c, key_y(r, 2), tol, s1);
    let s3 = step_cand_y(c, key_y(r, 3), tol, s2);
    let s4 = step_cand_y(c, key_y(r, 4), tol, s3);
    let s5 = step_cand_y(c, key_y(r, 5), tol, s4);
    let s6 = step_cand_y(c, key_y(r, 6), tol, s5);
    let s7 = step_cand_y(c, key_y(r, 7), tol, s6);
    step_cand_y(c, key_y(r, 8), tol, s7)
}

/// All rectangles applied in order, x axis, starting from `prev`.
pub open spec fn snap_rects_x(
    c: Option<Candidate>,
    rects: Seq<Rect>,
    tol: int,
    prev: Option<int>,
) -> Option<int>
    decreases rects.len(),
{
    if rects.len() <= 0 {
        prev
    } else {
        snap_rects_x(c, rects.skip(1), tol, snap_rect_x(c, rects[0], tol, prev))
    }
}

/// All rectangles applied in order, y axis, starting from `prev`.
pub open spec fn snap_rects_y(
    c: Option<Candidate>,
    rects: Seq<Rect>,
    tol: int,
    prev: Option<int>,
) -> Option<int>
    decreases rects.len(),
{
    if rects.len() <= 0 {
        prev
    } else {
        snap_rects_y(c, rects.skip(1), tol, snap_rect_y(c, rects[0], tol, prev))
    }
}

/// The snapped x coordinate of candidate `c` against `rects`.
pub open spec fn snap_x(c: Option<Candidate>, rects: Seq<Rect>, tol: int) -> Option<
    int,
> {
    snap_rects_x(c, rects, tol, None)
}

/// The snapped y coordinate of candidate `c` against `rects`.
pub open spec fn snap_y(c: Option<Candidate>, rects: Seq<Rect>, tol: int) -> Option<
    int,
> {
    snap_rects_y(c, rects, tol, None)
}

/// Whether `|a - b| <= tol`, computed without overflow.
fn within(a: i64, b: i64, tol: i64) -> (r: bool)
    ensures
        r == (abs_i(a as int - b as int) <= tol as int),
{
    let d: i128 = a as i128 - b as i128;
    let m: i128 = if d < 0 {
        -d
    } else {
        d
    };
    m <= tol as i128
}

/// One key point applied to one candidate's running result.
fn apply_snap(key: Point, cand: &Option<Candidate>, tolerance: i64, result: &mut SnapPointResult)
    ensures
        opt_int(final(result).x) == step_cand_x(
            *cand,
            key.x as int,
            tolerance as int,
            opt_int(old(result).x),
        ),
        opt_int(final(result).y) == step_cand_y(
            *cand,
            key.y as int,
            tolerance as int,
            opt_int(old(result).y),
        ),
{
    match cand {
        None => {},
        Some(cd) => {
            let p = cd.point;
            match cd.mode {
                SnapType::DisplayOnly => {
                    if p.x == key.x {
                        result.x = Some(p.x);
                    }
                    if p.y == key.y {
                        result.y = Some(p.y);
                    }
                },
                SnapType::X => {
                    if within(p.x, key.x, tolerance) {
                        result.x = Some(key.x);
                    }
                },
                SnapType::Y => {
                    if within(p.y, key.y, tolerance) {
                        result.y = Some(key.y);
                    }
                },
                SnapType::Both => {
                    if within(p.x, key.x, tolerance) {
                        result.x = Some(key.x);
                    }
                    if within(p.y, key.y, tolerance) {
                        result.y = Some(key.y);
                    }
                },
            }
        },
    }
}

/// One key point applied to all four candidates.
fn snap_to_point(key: Point, input: &SnapInput, output: &mut SnapOutput, tolerance: i64)
    ensures
        opt_int(final(output).min.x) == step_cand_x(
            input.min,
            key.x as int,
            tolerance as int,
            opt_int(old(output).min.x),
        ),
        opt_int(final(output).min.y) == step_cand_y(
            input.min,
            key.y as int,
            tolerance as int,
            opt_int(old(output).min.y),
        ),
        opt_int(final(output).max.x) == step_cand_x(
            input.max,
            key.x as int,
            tolerance as int,
            opt_int(old(output).max.x),
        ),
        opt_int(final(output).max.y) == step_cand_y(
            input.max,
            key.y as int,
            tolerance as int,
            opt_int(old(output).max.y),
        ),
        opt_int(final(output).center.x) == step_cand_x(
            input.center,
            key.x as int,
            tolerance as int,
            opt_int(old(output).center.x),
        ),
        opt_int(final(output).center.y) == step_cand_y(
            input.center,
            key.y as int,
            tolerance as int,
            opt_int(old(output).center.y),
        ),
        opt_int(final(output).anchor.x) == step_cand_x(
            input.anchor,
            key.x as int,
            tolerance as int,
            opt_int(old(output).anchor.x),
        ),
        opt_int(final(output).anchor.y) == step_cand_y(
            input.anchor,
            key.y as int,
            tolerance as int,
            opt_int(old(output).anchor.y),
        ),
{
    apply_snap(key, &input.min, tolerance, &mut output.min);
    apply_snap(key, &input.max, tolerance, &mut output.max);
    apply_snap(key, &input.center, tolerance, &mut output.center);
    apply_snap(key, &input.anchor, tolerance, &mut output.anchor);
}

/// Runs the snap engine: every candidate of `input` against the nine key
/// points of every rectangle of `basis_rects`, in order, last match winning.
pub fn drag_snap(input: &SnapInput, basis_rects: &Vec<Rect>, tolerance: i64) -> (output:
    SnapOutput)
    requires
        forall|i: int| 0 <= i < basis_rects@.len() ==> (#[trigger] basis_rects@[i]).fits_wide_spec(),
    ensures
        opt_int(output.min.x) == snap_x(input.min, basis_rects@, tolerance as int),
        opt_int(output.min.y) == snap_y(input.min, basis_rects@, tolerance as int),
        opt_int(output.max.x) == snap_x(input.max, basis_rects@, tolerance as int),
        opt_int(output.max.y) == snap_y(input.max, basis_rects@, tolerance as int),
        opt_int(output.center.x) == snap_x(input.center, basis_rects@, tolerance as int),
        opt_int(output.center.y) == snap_y(input.center, basis_rects@, tolerance as int),
        opt_int(output.anchor.x) == snap_x(input.anchor, basis_rects@, tolerance as int),
        opt_int(output.anchor.y) == snap_y(input.anchor, basis_rects@, tolerance as int),
{
    let ghost rects = basis_rects@;
    let ghost tol = tolerance as int;
    let mut output = SnapOutput {
        min: SnapPointResult { x: None, y: None },
        max: SnapPointResult { x: None, y: None },
        center: SnapPointResult { x: None, y: None },
        anchor: SnapPointResult { x: None, y: None },
    };
    proof {
        assert(rects.skip(0) =~= rects);
    }
    let n = basis_rects.len();
    let mut i: usize = 0;
    while i < n
        invariant
            rects == basis_rects@,
            tol == tolerance as int,
            n == rects.len(),
            0 <= i <= n,
            forall|k: int| 0 <= k < rects.len() ==> (#[trigger] rects[k]).fits_wide_spec(),
            snap_rects_x(input.min, rects.skip(i as int), tol, opt_int(output.min.x)) == snap_x(
                input.min,
                rects,
                tol,
            ),
            snap_rects_y(input.min, rects.skip(i as int), tol, opt_int(output.min.y)) == snap_y(
                input.min,
                rects,
                tol,
            ),
            snap_rects_x(input.max, rects.skip(i as int), tol, opt_int(output.max.x)) == snap_x(
                input.max,
                rects,
                tol,
            ),
            snap_rects_y(input.max, rects.skip(i as int), tol, opt_int(output.max.y)) == snap_y(
                input.max,
                rects,
                tol,
            ),
            snap_rects_x(input.center, rects.skip(i as int), tol, opt_int(output.center.x))
                == snap_x(input.center, rects, tol),
            snap_rects_y(input.center, rects.skip(i as int), tol, opt_int(output.center.y))
                == snap_y(input.center, rects, tol),
            snap_rects_x(input.anchor, rects.skip(i as int), tol, opt_int(output.anchor.x))
                == snap_x(input.anchor, rects, tol),
            snap_rects_y(input.anchor, rects.skip(i as int), tol, opt_int(output.anchor.y))
                == snap_y(input.anchor, rects, tol),
        decreases n - i,
    {
        let r = basis_rects[i];
        let ghost cur_min_x = opt_int(output.min.x);
        let ghost cur_min_y = opt_int(output.min.y);
        let ghost cur_max_x = opt_int(output.max.x);
        let ghost cur_max_y = opt_int(output.max.y);
        let ghost cur_center_x = opt_int(output.center.x);
        let ghost cur_center_y = opt_int(output.center.y);
        let ghost cur_anchor_x = opt_int(output.anchor.x);
        let ghost cur_anchor_y = opt_int(output.anchor.y);
        let mx = crate::geom::midpoint(r.min.x, r.max.x);
        let my = crate::geom::midpoint(r.min.y, r.max.y);
        snap_to_point(Point { x: mx, y: my }, input, &mut output, tolerance);
        snap_to_point(Point { x: r.min.x, y: r.min.y }, input, &mut output, tolerance);
        snap_to_point(Point { x: mx, y: r.min.y }, input, &mut output, tolerance);
        snap_to_point(Point { x: r.max.x, y: r.min.y }, input, &mut output, tolerance);
        snap_to_point(Point { x: r.max.x, y: my }, input, &mut output, tolerance);
        snap_to_point(Point { x: r.max.x, y: r.max.y }, input, &mut output, tolerance);
        snap_to_point(Point { x: mx, y: r.max.y }, input, &mut output, tolerance);
        snap_to_point(Point { x: r.min.x, y: r.max.y }, input, &mut output, tolerance);
        snap_to_point(Point { x: r.min.x, y: my }, input, &mut output, tolerance);
        proof {
            assert(opt_int(output.min.x) == snap_rect_x(input.min, r, tol, cur_min_x));
            assert(opt_int(output.min.y) == snap_rect_y(input.min, r, tol, cur_min_y));
            assert(opt_int(output.max.x) == snap_rect_x(input.max, r, tol, cur_max_x));
            assert(opt_int(output.max.y) == snap_rect_y(input.max, r, tol, cur_max_y));
            assert(opt_int(output.center.x) == snap_rect_x(input.center, r, tol, cur_center_x));
            assert(opt_int(output.center.y) == snap_rect_y(input.center, r, tol, cur_center_y));
            assert(opt_int(output.anchor.x) == snap_rect_x(input.anchor, r, tol, cur_anchor_x));
            assert(opt_int(output.anchor.y) == snap_rect_y(input.anchor, r, tol, cur_anchor_y));
            assert(rects.skip(i as int).skip(1) =~= rects.skip(i + 1));
            assert(rects.skip(i as int)[0] == rects[i as int]);
        }
        i = i + 1;
    }
    proof {
        assert(rects.skip(n as int) =~= Seq::<Rect>::empty());
    }
    output
}


/// Whether key point `j` of rectangle `i` matches `px` within `tol`.
pub open spec fn x_match_at(px: int, rects: Seq<Rect>, tol: int, i: int, j: int) -> bool {
    0 <= i < rects.len() && 0 <= j < 9 && abs_i(px - key_x(rects[i], j)) <= tol
}

/// Whether any key point of any rectangle matches `px` within `tol`.
pub open spec fn has_x_match(px: int, rects: Seq<Rect>, tol: int) -> bool {
    exists|i: int, j: int| x_match_at(px, rects, tol, i, j)
}

/// Whether key point `j` of rectangle `i` matches `py` within `tol`.
pub open spec fn y_match_at(py: int, rects: Seq<Rect>, tol: int, i: int, j: int) -> bool {
    0 <= i < rects.len() && 0 <= j < 9 && abs_i(py - key_y(rects[i], j)) <= tol
}

/// Whether any key point of any rectangle matches `py` within `tol`.
pub open spec fn has_y_match(py: int, rects: Seq<Rect>, tol: int) -> bool {
    exists|i: int, j: int| y_match_at(py, rects, tol, i, j)
}

proof fn lemma_snap_rect_x_char(c: Candidate, r: Rect, tol: int, prev: Option<int>)
    requires
        allows_x(c.mode),
    ensures
        (forall|j: int| 0 <= j < 9 ==> abs_i(c.point.x as int - key_x(r, j)) > tol)
            ==> snap_rect_x(Some(c), r, tol, prev) == prev,
        (exists|j: int| 0 <= j < 9 && abs_i(c.point.x as int - key_x(r, j)) <= tol) ==> (
        snap_rect_x(Some(c), r, tol, prev) matches Some(v) && exists|j: int|
            0 <= j < 9 && key_x(r, j) == v && abs_i(c.point.x as int - v) <= tol),
{
    let px = c.point.x as int;
    if exists|j: int| 0 <= j < 9 && abs_i(px - key_x(r, j)) <= tol {
        let m = snap_rect_x(Some(c), r, tol, prev);
        assert(exists|j: int| 0 <= j < 9 && key_x(r, j) == m->Some_0 && abs_i(px - m->Some_0)
            <= tol && m is Some) by {
            if abs_i(px - key_x(r, 8)) <= tol {
                assert(m == Some(key_x(r, 8)));
            } else if abs_i(px - key_x(r, 7)) <= tol {
                assert(m == Some(key_x(r, 7)));
            } else if abs_i(px - key_x(r, 6)) <= tol {
                assert(m == Some(key_x(r, 6)));
            } else if abs_i(px - key_x(r, 5)) <= tol {
                assert(m == Some(key_x(r, 5)));
            } else if abs_i(px - key_x(r, 4)) <= tol {
                assert(m == Some(key_x(r, 4)));
            } else if abs_i(px - key_x(r, 3)) <= tol {
                assert(m == Some(key_x(r, 3)));
            } else if abs_i(px - key_x(r, 2)) <= tol {
                assert(m == Some(key_x(r, 2)));
            } else if abs_i(px - key_x(r, 1)) <= tol {
                assert(m == Some(key_x(r, 1)));
            } else {
                assert(m == Some(key_x(r, 0)));
            }
        }
    }
}

proof fn lemma_snap_rect_y_char(c: Candidate, r: Rect, tol: int, prev: Option<int>)
    requires
        allows_y(c.mode),
    ensures
        (forall|j: int| 0 <= j < 9 ==> abs_i(c.point.y as int - key_y(r, j)) > tol)
            ==> snap_rect_y(Some(c), r, tol, prev) == prev,
        (exists|j: int| 0 <= j < 9 && abs_i(c.point.y as int - key_y(r, j)) <= tol) ==> (
        snap_rect_y(Some(c), r, tol, prev) matches Some(v) && exists|j: int|
            0 <= j < 9 && key_y(r, j) == v && abs_i(c.point.y as int - v) <= tol),
{
    let py = c.point.y as int;
    if exists|j: int| 0 <= j < 9 && abs_i(py - key_y(r, j)) <= tol {
        let m = snap_rect_y(Some(c), r, tol, prev);
        assert(exists|j: int| 0 <= j < 9 && key_y(r, j) == m->Some_0 && abs_i(py - m->Some_0)
            <= tol && m is Some) by {
            if abs_i(py - key_y(r, 8)) <= tol {
                assert(m == Some(key_y(r, 8)));
            } else if abs_i(py - key_y(r, 7)) <= tol {
                assert(m == Some(key_y(r, 7)));
            } else if abs_i(py - key_y(r, 6)) <= tol {
                assert(m == Some(key_y(r, 6)));
            } else if abs_i(py - key_y(r, 5)) <= tol {
                assert(m == Some(key_y(r, 5)));
            } else if abs_i(py - key_y(r, 4)) <= tol {
                assert(m == Some(key_y(r, 4)));
            } else if abs_i(py - key_y(r, 3)) <= tol {
                assert(m == Some(key_y(r, 3)));
            } else if abs_i(py - key_y(r, 2)) <= tol {
                assert(m == Some(key_y(r, 2)));
            } else if abs_i(py - key_y(r, 1)) <= tol {
                assert(m == Some(key_y(r, 1)));
            } else {
                assert(m == Some(key_y(r, 0)));
            }
        }
    }
}

proof fn lemma_snap_rects_x_char(c: Candidate, rects: Seq<Rect>, tol: int, prev: Option<int>)
    requires
        allows_x(c.mode),
    ensures
        !has_x_match(c.point.x as int, rects, tol) ==> snap_rects_x(Some(c), rects, tol, prev)
            == prev,
        has_x_match(c.point.x as int, rects, tol) ==> (snap_rects_x(Some(c), rects, tol, prev)
            matches Some(v) && abs_i(c.point.x as int - v) <= tol && exists|i: int, j: int|
            x_match_at(c.point.x as int, rects, tol, i, j) && key_x(rects[i], j) == v),
    decreases rects.len(),
{
    let px = c.point.x as int;
    if rects.len() > 0 {
        let first = rects[0];
        let rest = rects.skip(1);
        let prev1 = snap_rect_x(Some(c), first, tol, prev);
        let m = snap_rects_x(Some(c), rects, tol, prev);
        lemma_snap_rect_x_char(c, first, tol, prev);
        lemma_snap_rects_x_char(c, rest, tol, prev1);
        assert(m == snap_rects_x(Some(c), rest, tol, prev1));
        if has_x_match(px, rects, tol) {
            if has_x_match(px, rest, tol) {
                let v = m->Some_0;
                let (i, j) = choose|i: int, j: int|
                    x_match_at(px, rest, tol, i, j) && key_x(rest[i], j) == v;
                assert(rest[i] == rects[i + 1]);
                assert(x_match_at(px, rects, tol, i + 1, j) && key_x(rects[i + 1], j) == v);
            } else {
                let (i0, j0) = choose|i: int, j: int| x_match_at(px, rects, tol, i, j);
                if i0 >= 1 {
                    assert(rest[i0 - 1] == rects[i0]);
                    assert(x_match_at(px, rest, tol, i0 - 1, j0));
                }
                assert(i0 == 0);
                assert(exists|j: int| 0 <= j < 9 && abs_i(px - key_x(first, j)) <= tol);
                assert(m == prev1);
                let v = prev1->Some_0;
                let jj = choose|j: int|
                    0 <= j < 9 && key_x(first, j) == v && abs_i(px - v) <= tol;
                assert(x_match_at(px, rects, tol, 0, jj) && key_x(rects[0], jj) == v);
            }
        } else {
            assert forall|j: int| 0 <= j < 9 implies abs_i(px - key_x(first, j)) > tol by {
                assert(!x_match_at(px, rects, tol, 0, j));
            }
            assert(prev1 == prev);
            assert(!has_x_match(px, rest, tol)) by {
                if has_x_match(px, rest, tol) {
                    let (i, j) = choose|i: int, j: int| x_match_at(px, rest, tol, i, j);
                    assert(rest[i] == rects[i + 1]);
                    assert(x_match_at(px, rects, tol, i + 1, j));
                }
            }
        }
    }
}

proof fn lemma_snap_rects_y_char(c: Candidate, rects: Seq<Rect>, tol: int, prev: Option<int>)
    requires
        allows_y(c.mode),
    ensures
        !has_y_match(c.point.y as int, rects, tol) ==> snap_rects_y(Some(c), rects, tol, prev)
            == prev,
        has_y_match(c.point.y as int, rects, tol) ==> (snap_rects_y(Some(c), rects, tol, prev)
            matches Some(v) && abs_i(c.point.y as int - v) <= tol && exists|i: int, j: int|
            y_match_at(c.point.y as int, rects, tol, i, j) && key_y(rects[i], j) == v),
    decreases rects.len(),
{
    let py = c.point.y as int;
    if rects.len() > 0 {
        let first = rects[0];
        let rest = rects.skip(1);
        let prev1 = snap_rect_y(Some(c), first, tol, prev);
        let m = snap_rects_y(Some(c), rects, tol, prev);
        lemma_snap_rect_y_char(c, first, tol, prev);
        lemma_snap_rects_y_char(c, rest, tol, prev1);
        assert(m == snap_rects_y(Some(c), rest, tol, prev1));
        if has_y_match(py, rects, tol) {
            if has_y_match(py, rest, tol) {
                let v = m->Some_0;
                let (i, j) = choose|i: int, j: int|
                    y_match_at(py, rest, tol, i, j) && key_y(rest[i], j) == v;
                assert(rest[i] == rects[i + 1]);
                assert(y_match_at(py, rects, tol, i + 1, j) && key_y(rects[i + 1], j) == v);
            } else {
                let (i0, j0) = choose|i: int, j: int| y_match_at(py, rects, tol, i, j);
                if i0 >= 1 {
                    assert(rest[i0 - 1] == rects[i0]);
                    assert(y_match_at(py, rest, tol, i0 - 1, j0));
                }
                assert(i0 == 0);
                assert(exists|j: int| 0 <= j < 9 && abs_i(py - key_y(first, j)) <= tol);
                assert(m == prev1);
                let v = prev1->Some_0;
                let jj = choose|j: int|
                    0 <= j < 9 && key_y(first, j) == v && abs_i(py - v) <= tol;
                assert(y_match_at(py, rects, tol, 0, jj) && key_y(rects[0], jj) == v);
            }
        } else {
            assert forall|j: int| 0 <= j < 9 implies abs_i(py - key_y(first, j)) > tol by {
                assert(!y_match_at(py, rects, tol, 0, j));
            }
            assert(prev1 == prev);
            assert(!has_y_match(py, rest, tol)) by {
                if has_y_match(py, rest, tol) {
                    let (i, j) = choose|i: int, j: int| y_match_at(py, rest, tol, i, j);
                    assert(rest[i] == rects[i + 1]);
                    assert(y_match_at(py, rects, tol, i + 1, j));
                }
            }
        }
    }
}

/// Snapping jumps to a key coordinate exactly, never to an interpolated
/// value: a candidate whose mode permits an axis snaps on that axis if and
/// only if some key point lies within the tolerance, and the returned
/// coordinate is that key point's own coordinate.
pub proof fn lemma_snap_symmetry(c: Candidate, rects: Seq<Rect>, tol: int)
    requires
        c.mode is Both,
    ensures
        has_x_match(c.point.x as int, rects, tol) <==> snap_x(Some(c), rects, tol) is Some,
        snap_x(Some(c), rects, tol) matches Some(v) ==> abs_i(c.point.x as int - v) <= tol
            && exists|i: int, j: int|
            x_match_at(c.point.x as int, rects, tol, i, j) && key_x(rects[i], j) == v,
        has_y_match(c.point.y as int, rects, tol) <==> snap_y(Some(c), rects, tol) is Some,
        snap_y(Some(c), rects, tol) matches Some(v) ==> abs_i(c.point.y as int - v) <= tol
            && exists|i: int, j: int|
            y_match_at(c.point.y as int, rects, tol, i, j) && key_y(rects[i], j) == v,
{
    lemma_snap_rects_x_char(c, rects, tol, None);
    lemma_snap_rects_y_char(c, rects, tol, None);
}

proof fn lemma_snap_rects_y_inert(c: Candidate, rects: Seq<Rect>, tol: int, prev: Option<int>)
    requires
        c.mode is X,
    ensures
        snap_rects_y(Some(c), rects, tol, prev) == prev,
    decreases rects.len(),
{
    if rects.len() > 0 {
        lemma_snap_rects_y_inert(c, rects.skip(1), tol, snap_rect_y(Some(c), rects[0], tol, prev));
    }
}

proof fn lemma_snap_rects_x_inert(c: Candidate, rects: Seq<Rect>, tol: int, prev: Option<int>)
    requires
        c.mode is Y,
    ensures
        snap_rects_x(Some(c), rects, tol, prev) == prev,
    decreases rects.len(),
{
    if rects.len() > 0 {
        lemma_snap_rects_x_inert(c, rects.skip(1), tol, snap_rect_x(Some(c), rects[0], tol, prev));
    }
}

/// Mode gating: a candidate restricted to one axis never yields a result on
/// the other axis.
pub proof fn lemma_mode_gating(c: Candidate, rects: Seq<Rect>, tol: int)
    ensures
        c.mode is X ==> snap_y(Some(c), rects, tol) is None,
        c.mode is Y ==> snap_x(Some(c), rects, tol) is None,
{
    if c.mode is X {
        lemma_snap_rects_y_inert(c, rects, tol, None);
    }
    if c.mode is Y {
        lemma_snap_rects_x_inert(c, rects, tol, None);
    }
}


/// Every key point of an in-range rectangle is in range.
pub proof fn lemma_key_bounds(r: Rect, j: int)
    requires
        r.fits_wide_spec(),
    ensures
        crate::geom::fits_wide(key_x(r, j)),
        crate::geom::fits_wide(key_y(r, j)),
{
    vstd::arithmetic::div_mod::lemma_div_is_ordered(
        r.min.x + r.max.x,
        0x80_0000_0000_0000,
        2,
    );
    vstd::arithmetic::div_mod::lemma_div_is_ordered(
        -0x80_0000_0000_0000,
        r.min.x + r.max.x,
        2,
    );
    vstd::arithmetic::div_mod::lemma_div_is_ordered(
        r.min.y + r.max.y,
        0x80_0000_0000_0000,
        2,
    );
    vstd::arithmetic::div_mod::lemma_div_is_ordered(
        -0x80_0000_0000_0000,
        r.min.y + r.max.y,
        2,
    );
}

/// A candidate that may snap only ever receives a key coordinate of one of
/// the in-range rectangles; any result is therefore in range.
pub proof fn lemma_snap_output_bounds(c: Candidate, rects: Seq<Rect>, tol: int)
    requires
        !(c.mode is DisplayOnly),
        forall|i: int| 0 <= i < rects.len() ==> (#[trigger] rects[i]).fits_wide_spec(),
    ensures
        snap_x(Some(c), rects, tol) matches Some(v) ==> crate::geom::fits_wide(v),
        snap_y(Some(c), rects, tol) matches Some(v) ==> crate::geom::fits_wide(v),
{
    if allows_x(c.mode) {
        lemma_snap_rects_x_char(c, rects, tol, None);
        if snap_x(Some(c), rects, tol) is Some {
            let v = snap_x(Some(c), rects, tol)->Some_0;
            let (i, j) = choose|i: int, j: int|
                x_match_at(c.point.x as int, rects, tol, i, j) && key_x(rects[i], j) == v;
            lemma_key_bounds(rects[i], j);
        }
    } else {
        lemma_snap_rects_x_inert(c, rects, tol, None);
    }
    if allows_y(c.mode) {
        lemma_snap_rects_y_char(c, rects, tol, None);
        if snap_y(Some(c), rects, tol) is Some {
            let v = snap_y(Some(c), rects, tol)->Some_0;
            let (i, j) = choose|i: int, j: int|
                y_match_at(c.point.y as int, rects, tol, i, j) && key_y(rects[i], j) == v;
            lemma_key_bounds(rects[i], j);
        }
    } else {
        lemma_snap_rects_y_inert(c, rects, tol, None);
    }
}

proof fn lemma_snap_rects_none_x(rects: Seq<Rect>, tol: int, prev: Option<int>)
    ensures
        snap_rects_x(None, rects, tol, prev) == prev,
    decreases rects.len(),
{
    if rects.len() > 0 {
        lemma_snap_rects_none_x(rects.skip(1), tol, snap_rect_x(None, rects[0], tol, prev));
    }
}

proof fn lemma_snap_rects_none_y(rects: Seq<Rect>, tol: int, prev: Option<int>)
    ensures
        snap_rects_y(None, rects, tol, prev) == prev,
    decreases rects.len(),
{
    if rects.len() > 0 {
        lemma_snap_rects_none_y(rects.skip(1), tol, snap_rect_y(None, rects[0], tol, prev));
    }
}

/// An absent candidate yields no result on either axis.
pub proof fn lemma_snap_none(rects: Seq<Rect>, tol: int)
    ensures
        snap_x(None, rects, tol) is None,
        snap_y(None, rects, tol) is None,
{
    lemma_snap_rects_none_x(rects, tol, None);
    lemma_snap_rects_none_y(rects, tol, None);
}

} // verus!
