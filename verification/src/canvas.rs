//! The edit orchestrator: the per-frame pipeline that turns one frame of
//! pointer input on the active slot position into committed slot geometry.
//!
//! Per frame and per position the steps run in a fixed order: axis
//! restriction (move only), ratio lock (resize only), snapping with
//! edge-fit correction, the guide-line display pass, the commit back to
//! doll-local integer pixels, multi-position sync, and the anchor commit.

use vstd::prelude::*;

verus! {

use crate::geom::{
    abs_i, fits, fits_wide, round_div, scale_spec, unscale_spec, Point, Rect, Scale,
    COORD_LIMIT,
};
use crate::control::RatioKeepOptions;

/// What the canvas is doing this frame; consumed by the status bar to show
/// contextual hints.
#[derive(Clone, Copy, PartialEq, Eq, Structural, Debug)]
pub enum CanvasState {
    Idle,
    ActivedSlotHover,
    Dragging,
    DraggingAnchor,
    DraggingSlot,
    ResizingSlot,
}

impl Default for CanvasState {
    fn default() -> (s: CanvasState)
        ensures
            s is Idle,
    {
        CanvasState::Idle
    }
}

/// Which axis a ctrl-restricted move is locked to.
#[derive(Clone, Copy, PartialEq, Eq, Structural, Debug)]
pub enum DragRestrict {
    Free,
    Horizontal,
    Vertical,
}

/// A temporary alignment guide line, in screen coordinates.
#[derive(Clone, Copy, PartialEq, Eq, Structural, Debug)]
pub enum AuxiliaryLine {
    Horizontal(i64),
    Vertical(i64),
}

/// The memoized state of a move gesture: every position of the slot at
/// drag-start, and the pointer-to-position offset at drag-start, in
/// doll-local pixels.  Rebuilt fresh from these each frame, the gesture
/// accumulates no rounding error.
#[derive(Clone, Debug)]
pub struct DragGesture {
    pub origins: Vec<Point>,
    pub drag_offset: Point,
}

impl DragGesture {
    /// Origins and offset are in range, and stay so when combined.
    pub open spec fn wf(&self) -> bool {
        &&& forall|i: int|
            0 <= i < self.origins@.len() ==> fits(
                (#[trigger] self.origins@[i]).x + self.drag_offset.x,
            ) && fits(self.origins@[i].y + self.drag_offset.y) && self.origins@[i].fits_spec()
        &&& self.drag_offset.fits_spec()
    }
}

/// Which axis dominates the offset from the gesture origin: the restriction
/// the rest of this drag is locked to.  Recomputed from the drag-start
/// origin every frame, so the lock cannot drift.
pub open spec fn restrict_spec(
    pointer: Point,
    doll_min: Point,
    origin: Point,
    drag_offset: Point,
    s: Scale,
) -> DragRestrict {
    let xo = pointer.x - doll_min.x - scale_spec(origin.x + drag_offset.x, s);
    let yo = pointer.y - doll_min.y - scale_spec(origin.y + drag_offset.y, s);
    if abs_i(xo) > abs_i(yo) {
        DragRestrict::Horizontal
    } else {
        DragRestrict::Vertical
    }
}

/// Compares the horizontal and vertical offset since drag-start and locks
/// movement to the dominant axis.
pub fn restrict_direction(
    pointer: Point,
    doll_min: Point,
    origin: Point,
    drag_offset: Point,
    s: Scale,
) -> (r: DragRestrict)
    requires
        s.wf(),
        pointer.fits_spec(),
        doll_min.fits_spec(),
        fits(origin.x + drag_offset.x),
        fits(origin.y + drag_offset.y),
    ensures
        r == restrict_spec(pointer, doll_min, origin, drag_offset, s),
{
    let sx = crate::geom::scale_value(origin.x + drag_offset.x, s);
    let sy = crate::geom::scale_value(origin.y + drag_offset.y, s);
    let xo = crate::geom::abs64(pointer.x - doll_min.x - sx);
    let yo = crate::geom::abs64(pointer.y - doll_min.y - sy);
    if xo > yo {
        DragRestrict::Horizontal
    } else {
        DragRestrict::Vertical
    }
}

/// The `min.y` a ratio-locked top-left drag solves for.
pub open spec fn ratio_min_y(min: Point, max: Point, width: int, height: int) -> int {
    max.y - round_div((max.x - min.x) * height, width)
}

/// The `max.x` a ratio-locked vertical-edge drag solves for.
pub open spec fn ratio_max_x(min: Point, max: Point, width: int, height: int) -> int {
    min.x + round_div((max.y - min.y) * width, height)
}

/// The `max.y` a ratio-locked horizontal-edge drag solves for.
pub open spec fn ratio_max_y(min: Point, max: Point, width: int, height: int) -> int {
    min.y + round_div((max.x - min.x) * height, width)
}

/// The corners after the ratio lock re-derives the non-dragged dimension
/// from the dragged one, using the slot's aspect ratio `width / height`.
pub open spec fn ratio_keep_spec(
    opt: RatioKeepOptions,
    min: Point,
    max: Point,
    width: int,
    height: int,
) -> (Point, Point) {
    match opt {
        RatioKeepOptions::MinY => (
            Point { x: min.x, y: ratio_min_y(min, max, width, height) as i64 },
            max,
        ),
        RatioKeepOptions::MaxX => (
            min,
            Point { x: ratio_max_x(min, max, width, height) as i64, y: max.y },
        ),
        RatioKeepOptions::MaxY => (
            min,
            Point { x: max.x, y: ratio_max_y(min, max, width, height) as i64 },
        ),
        _ => (min, max),
    }
}

/// Whether the coordinate the ratio lock rewrites stays in range.
pub open spec fn ratio_keep_fits(
    opt: RatioKeepOptions,
    min: Point,
    max: Point,
    width: int,
    height: int,
) -> bool {
    match opt {
        RatioKeepOptions::MinY => fits_wide(ratio_min_y(min, max, width, height)),
        RatioKeepOptions::MaxX => fits_wide(ratio_max_x(min, max, width, height)),
        RatioKeepOptions::MaxY => fits_wide(ratio_max_y(min, max, width, height)),
        _ => true,
    }
}

/// Applies the ratio lock to the proposed corners.
pub fn apply_ratio_keep(
    opt: RatioKeepOptions,
    min: Point,
    max: Point,
    width: i64,
    height: i64,
) -> (r: (Point, Point))
    requires
        min.fits_wide_spec(),
        max.fits_wide_spec(),
        1 <= width <= COORD_LIMIT,
        1 <= height <= COORD_LIMIT,
        ratio_keep_fits(opt, min, max, width as int, height as int),
    ensures
        r == ratio_keep_spec(opt, min, max, width as int, height as int),
{
    proof {
        assert(forall|a: int, b: int|
            -0x80_0000_0000_0000 <= a <= 0x80_0000_0000_0000 && -0x100_0000_0000 <= b
                <= 0x100_0000_0000 ==> -0x8_0000_0000_0000_0000_0000_0000 <= #[trigger] (a * b)
                <= 0x8_0000_0000_0000_0000_0000_0000) by (nonlinear_arith);
    }
    match opt {
        RatioKeepOptions::MinY => {
            let num: i128 = (max.x as i128 - min.x as i128) * height as i128;
            let q = crate::geom::round_div_i(num, width as i128);
            let y = max.y as i128 - q;
            (Point { x: min.x, y: y as i64 }, max)
        },
        RatioKeepOptions::MaxX => {
            let num: i128 = (max.y as i128 - min.y as i128) * width as i128;
            let q = crate::geom::round_div_i(num, height as i128);
            let x = min.x as i128 + q;
            (min, Point { x: x as i64, y: max.y })
        },
        RatioKeepOptions::MaxY => {
            let num: i128 = (max.x as i128 - min.x as i128) * height as i128;
            let q = crate::geom::round_div_i(num, width as i128);
            let y = min.y as i128 + q;
            (min, Point { x: max.x, y: y as i64 })
        },
        _ => (min, max),
    }
}


/// Pointer-modifier state for the current frame.
#[derive(Clone, Copy, PartialEq, Eq, Structural, Debug)]
pub struct Modifiers {
    pub ctrl: bool,
    pub shift: bool,
    pub alt: bool,
}

/// One axis after the snap results are applied: `min` and `max` are
/// overridden independently, then a snapped center overrides both while
/// keeping the pre-drag size.
pub open spec fn applied_axis(
    min1: int,
    max1: int,
    half: int,
    size: int,
    omin: Option<int>,
    omax: Option<int>,
    ocen: Option<int>,
) -> (int, int) {
    let a = if omin is Some {
        omin->Some_0
    } else {
        min1
    };
    let b = if omax is Some {
        omax->Some_0
    } else {
        max1
    };
    if ocen is Some {
        (ocen->Some_0 - half, ocen->Some_0 - half + size)
    } else {
        (a, b)
    }
}

/// Edge-fit correction: when only one edge snapped and the size no longer
/// matches, the other edge is re-derived from the snapped one plus the
/// original size; when both edges snapped, both are kept, accepting the
/// changed size.
pub open spec fn edge_fit_axis(
    ab: (int, int),
    size: int,
    omin: Option<int>,
    omax: Option<int>,
) -> (int, int) {
    let a = ab.0;
    let b = ab.1;
    if b - a == size {
        (a, b)
    } else if omin is Some && omax is Some {
        (a, b)
    } else if omax is Some {
        (b - size, b)
    } else if omin is Some {
        (a, a + size)
    } else {
        (a, b)
    }
}

/// Every intermediate value of one move frame, in the order the pipeline
/// produces them.  Spec-level only.
pub struct MoveComputation {
    pub size_x: int,
    pub size_y: int,
    pub half_x: int,
    pub half_y: int,
    pub min1x: int,
    pub min1y: int,
    pub max1x: int,
    pub max1y: int,
    pub restrict: DragRestrict,
    pub cmin: crate::snap::Candidate,
    pub cmax: crate::snap::Candidate,
    pub ccen: crate::snap::Candidate,
    pub omin_x: Option<int>,
    pub omin_y: Option<int>,
    pub omax_x: Option<int>,
    pub omax_y: Option<int>,
    pub ocen_x: Option<int>,
    pub ocen_y: Option<int>,
    pub fin_min_x: int,
    pub fin_max_x: int,
    pub fin_min_y: int,
    pub fin_max_y: int,
    pub tl_x: int,
    pub tl_y: int,
}

/// The whole-rectangle move pipeline of one frame: raw proposal from the
/// memoized gesture, axis restriction, snapping with edge-fit, and the
/// commit back to doll-local pixels.
pub open spec fn move_compute(
    slot: crate::slot::Slot,
    idx: int,
    pointer: Point,
    mods: Modifiers,
    doll_min: Point,
    rects: Seq<Rect>,
    gesture: DragGesture,
    s: Scale,
    tol: int,
) -> MoveComputation {
    let size_x = scale_spec(slot.width as int, s);
    let size_y = scale_spec(slot.height as int, s);
    let half_x = size_x / 2;
    let half_y = size_y / 2;
    let min1x = pointer.x - scale_spec(gesture.drag_offset.x as int, s);
    let min1y = pointer.y - scale_spec(gesture.drag_offset.y as int, s);
    let max1x = min1x + size_x;
    let max1y = min1y + size_y;
    let restrict = if mods.ctrl {
        restrict_spec(pointer, doll_min, gesture.origins@[idx], gesture.drag_offset, s)
    } else {
        DragRestrict::Free
    };
    let cmin = crate::snap::Candidate {
        point: Point { x: min1x as i64, y: min1y as i64 },
        mode: crate::snap::SnapType::Both,
    };
    let cmax = crate::snap::Candidate {
        point: Point { x: max1x as i64, y: max1y as i64 },
        mode: crate::snap::SnapType::Both,
    };
    let ccen = crate::snap::Candidate {
        point: Point { x: (min1x + half_x) as i64, y: (min1y + half_y) as i64 },
        mode: crate::snap::SnapType::Both,
    };
    let omin_x = crate::snap::snap_x(Some(cmin), rects, tol);
    let omin_y = crate::snap::snap_y(Some(cmin), rects, tol);
    let omax_x = crate::snap::snap_x(Some(cmax), rects, tol);
    let omax_y = crate::snap::snap_y(Some(cmax), rects, tol);
    let ocen_x = crate::snap::snap_x(Some(ccen), rects, tol);
    let ocen_y = crate::snap::snap_y(Some(ccen), rects, tol);
    let finx = if mods.alt || restrict is Vertical {
        (min1x, max1x)
    } else {
        edge_fit_axis(
            applied_axis(min1x, max1x, half_x, size_x, omin_x, omax_x, ocen_x),
            size_x,
            omin_x,
            omax_x,
        )
    };
    let finy = if mods.alt || restrict is Horizontal {
        (min1y, max1y)
    } else {
        edge_fit_axis(
            applied_axis(min1y, max1y, half_y, size_y, omin_y, omax_y, ocen_y),
            size_y,
            omin_y,
            omax_y,
        )
    };
    let tl_x = if restrict is Vertical {
        gesture.origins@[idx].x as int
    } else {
        unscale_spec(finx.0 - doll_min.x, s)
    };
    let tl_y = if restrict is Horizontal {
        gesture.origins@[idx].y as int
    } else {
        unscale_spec(finy.0 - doll_min.y, s)
    };
    MoveComputation {
        size_x,
        size_y,
        half_x,
        half_y,
        min1x,
        min1y,
        max1x,
        max1y,
        restrict,
        cmin,
        cmax,
        ccen,
        omin_x,
        omin_y,
        omax_x,
        omax_y,
        ocen_x,
        ocen_y,
        fin_min_x: finx.0,
        fin_max_x: finx.1,
        fin_min_y: finy.0,
        fin_max_y: finy.1,
        tl_x,
        tl_y,
    }
}

/// The positions after a move commit: the edited position takes the
/// committed corner; with shift held every other position moves by the same
/// delta.
pub open spec fn moved_positions(
    positions: Seq<Point>,
    idx: int,
    tl: Point,
    shift: bool,
) -> Seq<Point> {
    Seq::new(
        positions.len(),
        |k: int|
            if k == idx {
                tl
            } else if shift {
                Point {
                    x: (positions[k].x + tl.x - positions[idx].x) as i64,
                    y: (positions[k].y + tl.y - positions[idx].y) as i64,
                }
            } else {
                positions[k]
            },
    )
}

/// Appends a vertical guide line when a display match was found.
pub open spec fn push_line_v(s: Seq<AuxiliaryLine>, o: Option<int>) -> Seq<AuxiliaryLine> {
    if o is Some {
        s.push(AuxiliaryLine::Vertical(o->Some_0 as i64))
    } else {
        s
    }
}

/// Appends a horizontal guide line when a display match was found.
pub open spec fn push_line_h(s: Seq<AuxiliaryLine>, o: Option<int>) -> Seq<AuxiliaryLine> {
    if o is Some {
        s.push(AuxiliaryLine::Horizontal(o->Some_0 as i64))
    } else {
        s
    }
}

/// The guide lines of one frame, from the display-only snap results of the
/// finalized `min`, `max` and `center` points, in that order.
pub open spec fn lines_of(
    od_min_x: Option<int>,
    od_min_y: Option<int>,
    od_max_x: Option<int>,
    od_max_y: Option<int>,
    od_cen_x: Option<int>,
    od_cen_y: Option<int>,
) -> Seq<AuxiliaryLine> {
    let s0 = push_line_v(Seq::empty(), od_min_x);
    let s1 = push_line_h(s0, od_min_y);
    let s2 = push_line_v(s1, od_max_x);
    let s3 = push_line_h(s2, od_max_y);
    let s4 = push_line_v(s3, od_cen_x);
    push_line_h(s4, od_cen_y)
}

/// The display-only candidates of the guide-line pass after a move or
/// resize frame, from the finalized corners.
pub open spec fn display_candidates(
    fin_min_x: int,
    fin_min_y: int,
    fin_max_x: int,
    fin_max_y: int,
    half_x: int,
    half_y: int,
) -> (crate::snap::Candidate, crate::snap::Candidate, crate::snap::Candidate) {
    (
        crate::snap::Candidate {
            point: Point { x: fin_min_x as i64, y: fin_min_y as i64 },
            mode: crate::snap::SnapType::DisplayOnly,
        },
        crate::snap::Candidate {
            point: Point { x: fin_max_x as i64, y: fin_max_y as i64 },
            mode: crate::snap::SnapType::DisplayOnly,
        },
        crate::snap::Candidate {
            point: Point { x: (fin_min_x + half_x) as i64, y: (fin_min_y + half_y) as i64 },
            mode: crate::snap::SnapType::DisplayOnly,
        },
    )
}

/// The guide lines a finished move or resize frame reports.
pub open spec fn frame_lines(
    fin_min_x: int,
    fin_min_y: int,
    fin_max_x: int,
    fin_max_y: int,
    half_x: int,
    half_y: int,
    rects: Seq<Rect>,
    tol: int,
) -> Seq<AuxiliaryLine> {
    let cands = display_candidates(fin_min_x, fin_min_y, fin_max_x, fin_max_y, half_x, half_y);
    lines_of(
        crate::snap::snap_x(Some(cands.0), rects, tol),
        crate::snap::snap_y(Some(cands.0), rects, tol),
        crate::snap::snap_x(Some(cands.1), rects, tol),
        crate::snap::snap_y(Some(cands.1), rects, tol),
        crate::snap::snap_x(Some(cands.2), rects, tol),
        crate::snap::snap_y(Some(cands.2), rects, tol),
    )
}

/// The bounds a move frame's commit must respect: the committed corner and
/// every synced position stay in the working range.
pub open spec fn move_commit_fits(
    slot: crate::slot::Slot,
    idx: int,
    pointer: Point,
    mods: Modifiers,
    doll_min: Point,
    rects: Seq<Rect>,
    gesture: DragGesture,
    s: Scale,
    tol: int,
) -> bool {
    let mc = move_compute(slot, idx, pointer, mods, doll_min, rects, gesture, s, tol);
    &&& fits(mc.tl_x)
    &&& fits(mc.tl_y)
    &&& (mods.shift ==> forall|k: int|
        0 <= k < slot.positions@.len() ==> fits(
            (#[trigger] slot.positions@[k]).x + mc.tl_x - slot.positions@[idx].x,
        ) && fits(slot.positions@[k].y + mc.tl_y - slot.positions@[idx].y))
}

/// Applies the snap output and the edge-fit correction to one axis.
fn resolve_axis(
    min1: i64,
    max1: i64,
    half: i64,
    size: i64,
    omin: Option<i64>,
    omax: Option<i64>,
    ocen: Option<i64>,
) -> (r: (i64, i64))
    requires
        -0x40_0000_0000_0000 <= min1 <= 0x40_0000_0000_0000,
        -0x40_0000_0000_0000 <= max1 <= 0x40_0000_0000_0000,
        0 <= half <= 0x40_0000_0000_0000,
        0 <= size <= 0x40_0000_0000_0000,
        omin matches Some(v) ==> fits_wide(v as int),
        omax matches Some(v) ==> fits_wide(v as int),
        ocen matches Some(v) ==> fits_wide(v as int),
    ensures
        ({
            let fin = edge_fit_axis(
                applied_axis(
                    min1 as int,
                    max1 as int,
                    half as int,
                    size as int,
                    crate::snap::opt_int(omin),
                    crate::snap::opt_int(omax),
                    crate::snap::opt_int(ocen),
                ),
                size as int,
                crate::snap::opt_int(omin),
                crate::snap::opt_int(omax),
            );
            r.0 == fin.0 && r.1 == fin.1 && -0x200_0000_0000_0000 <= r.0 <= 0x200_0000_0000_0000
                && -0x200_0000_0000_0000 <= r.1 <= 0x200_0000_0000_0000
        }),
{
    let mut a: i64 = match omin {
        Some(v) => v,
        None => min1,
    };
    let mut b: i64 = match omax {
        Some(v) => v,
        None => max1,
    };
    match ocen {
        Some(c) => {
            a = c - half;
            b = c - half + size;
        },
        None => {},
    }
    if b - a != size {
        if omin.is_some() && omax.is_some() {
        } else if omax.is_some() {
            a = b - size;
        } else if omin.is_some() {
            b = a + size;
        }
    }
    (a, b)
}


/// One frame of a whole-rectangle move drag on position `idx` of `slot`:
/// axis restriction, snapping with edge-fit, commit, and multi-position
/// sync.  Returns the guide lines to draw.
pub fn move_slot_frame(
    slot: &mut crate::slot::Slot,
    idx: usize,
    pointer: Point,
    mods: Modifiers,
    doll_rect: Rect,
    s: Scale,
    basis_rects: &Vec<Rect>,
    gesture: &DragGesture,
    tolerance: i64,
) -> (lines: Vec<AuxiliaryLine>)
    requires
        old(slot).wf(),
        idx < old(slot).positions@.len(),
        gesture.wf(),
        gesture.origins@.len() == old(slot).positions@.len(),
        s.wf(),
        pointer.fits_spec(),
        doll_rect.fits_spec(),
        forall|i: int| 0 <= i < basis_rects@.len() ==> (#[trigger] basis_rects@[i]).fits_wide_spec(),
        move_commit_fits(
            *old(slot),
            idx as int,
            pointer,
            mods,
            doll_rect.min,
            basis_rects@,
            *gesture,
            s,
            tolerance as int,
        ),
    ensures
        ({
            let mc = move_compute(
                *old(slot),
                idx as int,
                pointer,
                mods,
                doll_rect.min,
                basis_rects@,
                *gesture,
                s,
                tolerance as int,
            );
            &&& final(slot).positions@ == moved_positions(
                old(slot).positions@,
                idx as int,
                (Point { x: mc.tl_x as i64, y: mc.tl_y as i64 }),
                mods.shift,
            )
            &&& final(slot).width == old(slot).width
            &&& final(slot).height == old(slot).height
            &&& final(slot).anchor == old(slot).anchor
            &&& final(slot).constrainted == old(slot).constrainted
            &&& final(slot).required == old(slot).required
            &&& final(slot).candidates@ == old(slot).candidates@
            &&& final(slot).wf()
            &&& lines@ == if mods.alt {
                Seq::<AuxiliaryLine>::empty()
            } else {
                frame_lines(
                    mc.fin_min_x,
                    mc.fin_min_y,
                    mc.fin_max_x,
                    mc.fin_max_y,
                    mc.half_x,
                    mc.half_y,
                    basis_rects@,
                    tolerance as int,
                )
            }
        }),
{
    let ghost mc = move_compute(
        *old(slot),
        idx as int,
        pointer,
        mods,
        doll_rect.min,
        basis_rects@,
        *gesture,
        s,
        tolerance as int,
    );
    let sx = crate::geom::scale_value(slot.width, s);
    let sy = crate::geom::scale_value(slot.height, s);
    let hx = ((sx as u64) / 2) as i64;
    let hy = ((sy as u64) / 2) as i64;
    proof {
        assert(hx == mc.half_x && hy == mc.half_y);
    }
    let m1x = pointer.x - crate::geom::scale_value(gesture.drag_offset.x, s);
    let m1y = pointer.y - crate::geom::scale_value(gesture.drag_offset.y, s);
    let mx1 = m1x + sx;
    let my1 = m1y + sy;
    proof {
        assert(gesture.origins@[idx as int].fits_spec() && fits(
            gesture.origins@[idx as int].x + gesture.drag_offset.x,
        ) && fits(gesture.origins@[idx as int].y + gesture.drag_offset.y));
    }
    let restrict = if mods.ctrl {
        restrict_direction(pointer, doll_rect.min, gesture.origins[idx], gesture.drag_offset, s)
    } else {
        DragRestrict::Free
    };
    proof {
        assert(restrict == mc.restrict);
    }
    let cmin = crate::snap::Candidate {
        point: Point { x: m1x, y: m1y },
        mode: crate::snap::SnapType::Both,
    };
    let cmax = crate::snap::Candidate {
        point: Point { x: mx1, y: my1 },
        mode: crate::snap::SnapType::Both,
    };
    let ccen = crate::snap::Candidate {
        point: Point { x: m1x + hx, y: m1y + hy },
        mode: crate::snap::SnapType::Both,
    };
    proof {
        assert(cmin == mc.cmin && cmax == mc.cmax && ccen == mc.ccen);
    }
    let (fx, fy): ((i64, i64), (i64, i64)) = if mods.alt {
        ((m1x, mx1), (m1y, my1))
    } else {
        let input = crate::snap::SnapInput {
            min: Some(cmin),
            max: Some(cmax),
            center: Some(ccen),
            anchor: None,
        };
        let out = crate::snap::drag_snap(&input, basis_rects, tolerance);
        proof {
            crate::snap::lemma_snap_output_bounds(cmin, basis_rects@, tolerance as int);
            crate::snap::lemma_snap_output_bounds(cmax, basis_rects@, tolerance as int);
            crate::snap::lemma_snap_output_bounds(ccen, basis_rects@, tolerance as int);
        }
        let fx = if restrict == DragRestrict::Vertical {
            (m1x, mx1)
        } else {
            resolve_axis(m1x, mx1, hx, sx, out.min.x, out.max.x, out.center.x)
        };
        let fy = if restrict == DragRestrict::Horizontal {
            (m1y, my1)
        } else {
            resolve_axis(m1y, my1, hy, sy, out.min.y, out.max.y, out.center.y)
        };
        (fx, fy)
    };
    proof {
        assert(fx.0 == mc.fin_min_x && fx.1 == mc.fin_max_x);
        assert(fy.0 == mc.fin_min_y && fy.1 == mc.fin_max_y);
    }
    let mut lines: Vec<AuxiliaryLine> = Vec::new();
    if !mods.alt {
        let dmin = crate::snap::Candidate {
            point: Point { x: fx.0, y: fy.0 },
            mode: crate::snap::SnapType::DisplayOnly,
        };
        let dmax = crate::snap::Candidate {
            point: Point { x: fx.1, y: fy.1 },
            mode: crate::snap::SnapType::DisplayOnly,
        };
        let dcen = crate::snap::Candidate {
            point: Point { x: fx.0 + hx, y: fy.0 + hy },
            mode: crate::snap::SnapType::DisplayOnly,
        };
        proof {
            let cands = display_candidates(
                mc.fin_min_x,
                mc.fin_min_y,
                mc.fin_max_x,
                mc.fin_max_y,
                mc.half_x,
                mc.half_y,
            );
            assert(dmin == cands.0 && dmax == cands.1 && dcen == cands.2);
        }
        let dinput = crate::snap::SnapInput {
            min: Some(dmin),
            max: Some(dmax),
            center: Some(dcen),
            anchor: None,
        };
        let dout = crate::snap::drag_snap(&dinput, basis_rects, tolerance);
        if let Some(x) = dout.min.x {
            lines.push(AuxiliaryLine::Vertical(x));
        }
        if let Some(y) = dout.min.y {
            lines.push(AuxiliaryLine::Horizontal(y));
        }
        if let Some(x) = dout.max.x {
            lines.push(AuxiliaryLine::Vertical(x));
        }
        if let Some(y) = dout.max.y {
            lines.push(AuxiliaryLine::Horizontal(y));
        }
        if let Some(x) = dout.center.x {
            lines.push(AuxiliaryLine::Vertical(x));
        }
        if let Some(y) = dout.center.y {
            lines.push(AuxiliaryLine::Horizontal(y));
        }
        proof {
            assert(lines@ =~= frame_lines(
                mc.fin_min_x,
                mc.fin_min_y,
                mc.fin_max_x,
                mc.fin_max_y,
                mc.half_x,
                mc.half_y,
                basis_rects@,
                tolerance as int,
            ));
        }
    }
    let tlx = if restrict == DragRestrict::Vertical {
        gesture.origins[idx].x
    } else {
        crate::geom::unscale_value(fx.0 - doll_rect.min.x, s)
    };
    let tly = if restrict == DragRestrict::Horizontal {
        gesture.origins[idx].y
    } else {
        crate::geom::unscale_value(fy.0 - doll_rect.min.y, s)
    };
    proof {
        assert(tlx == mc.tl_x && tly == mc.tl_y);
    }
    let pos0 = slot.positions[idx];
    let dx = tlx - pos0.x;
    let dy = tly - pos0.y;
    let ghost tlp = Point { x: tlx, y: tly };
    let ghost oldpos = old(slot).positions@;
    let n = slot.positions.len();
    let mut k: usize = 0;
    while k < n
        invariant
            n == slot.positions@.len(),
            oldpos.len() == n,
            oldpos == old(slot).positions@,
            0 <= k <= n,
            idx < n,
            tlx as int == mc.tl_x && tly as int == mc.tl_y,
            tlp == (Point { x: tlx, y: tly }),
            dx as int == mc.tl_x - oldpos[idx as int].x,
            dy as int == mc.tl_y - oldpos[idx as int].y,
            fits(mc.tl_x) && fits(mc.tl_y),
            mods.shift ==> forall|j: int|
                0 <= j < oldpos.len() ==> fits(
                    (#[trigger] oldpos[j]).x + mc.tl_x - oldpos[idx as int].x,
                ) && fits(oldpos[j].y + mc.tl_y - oldpos[idx as int].y),
            forall|j: int| 0 <= j < oldpos.len() ==> (#[trigger] oldpos[j]).fits_spec(),
            forall|j: int|
                0 <= j < k ==> slot.positions@[j] == moved_positions(
                    oldpos,
                    idx as int,
                    tlp,
                    mods.shift,
                )[j],
            forall|j: int| k <= j < n ==> slot.positions@[j] == oldpos[j],
            slot.width == old(slot).width,
            slot.height == old(slot).height,
            slot.anchor == old(slot).anchor,
            slot.constrainted == old(slot).constrainted,
            slot.required == old(slot).required,
            slot.candidates@ == old(slot).candidates@,
            1 <= slot.width <= COORD_LIMIT,
            1 <= slot.height <= COORD_LIMIT,
            slot.anchor.fits_spec(),
        decreases n - k,
    {
        if k == idx {
            slot.positions.set(k, Point { x: tlx, y: tly });
        } else if mods.shift {
            let p = slot.positions[k];
            proof {
                assert(slot.positions@[k as int] == oldpos[k as int]);
                assert(fits(oldpos[k as int].x + mc.tl_x - oldpos[idx as int].x));
                assert(fits(oldpos[k as int].y + mc.tl_y - oldpos[idx as int].y));
            }
            slot.positions.set(k, Point { x: p.x + dx, y: p.y + dy });
        }
        k = k + 1;
    }
    proof {
        assert(slot.positions@ =~= moved_positions(oldpos, idx as int, tlp, mods.shift));
        assert forall|j: int| 0 <= j < slot.positions@.len() implies (
        #[trigger] slot.positions@[j]).fits_spec() by {
            assert(slot.positions@[j] == moved_positions(oldpos, idx as int, tlp, mods.shift)[j]);
        }
    }
    lines
}


/// A dimension committed by a resize, clamped to at least one pixel.
pub open spec fn clamp_dim(v: int) -> int {
    if v < 1 {
        1
    } else {
        v
    }
}

/// Every intermediate value of one resize frame.  Spec-level only.
pub struct ResizeComputation {
    pub rect0: Rect,
    pub drag: crate::control::HandleDrag,
    pub min2: Point,
    pub max2: Point,
    pub size_x: int,
    pub size_y: int,
    pub half_x: int,
    pub half_y: int,
    pub omin_x: Option<int>,
    pub omin_y: Option<int>,
    pub omax_x: Option<int>,
    pub omax_y: Option<int>,
    pub ocen_x: Option<int>,
    pub ocen_y: Option<int>,
    pub fin_min_x: int,
    pub fin_max_x: int,
    pub fin_min_y: int,
    pub fin_max_y: int,
    pub tl_x: int,
    pub tl_y: int,
    pub br_x: int,
    pub br_y: int,
    pub new_w: int,
    pub new_h: int,
}

/// The resize pipeline of one frame: the handle's proposal, the ratio lock,
/// snapping (skipped when the ratio lock is engaged or alt is held), and
/// the commit of corner, width and height.
pub open spec fn resize_compute(
    slot: crate::slot::Slot,
    idx: int,
    handle: crate::control::ControlHandle,
    pointer: Point,
    mods: Modifiers,
    doll_min: Point,
    rects: Seq<Rect>,
    s: Scale,
    tol: int,
) -> ResizeComputation {
    let rect0 = crate::basis::screen_rect_spec(
        slot.positions@[idx],
        slot.width as int,
        slot.height as int,
        doll_min,
        s,
    );
    let size_x = rect0.max.x - rect0.min.x;
    let size_y = rect0.max.y - rect0.min.y;
    let half_x = size_x / 2;
    let half_y = size_y / 2;
    let drag = crate::control::handle_drag_spec(handle, pointer, rect0, mods.ctrl);
    let rp = ratio_keep_spec(drag.ratio_keep, drag.min, drag.max, slot.width as int, slot.height as int);
    let min2 = rp.0;
    let max2 = rp.1;
    let omin_x = crate::snap::snap_x(drag.snap.min, rects, tol);
    let omin_y = crate::snap::snap_y(drag.snap.min, rects, tol);
    let omax_x = crate::snap::snap_x(drag.snap.max, rects, tol);
    let omax_y = crate::snap::snap_y(drag.snap.max, rects, tol);
    let ocen_x = crate::snap::snap_x(drag.snap.center, rects, tol);
    let ocen_y = crate::snap::snap_y(drag.snap.center, rects, tol);
    let snapped = !mods.alt && drag.ratio_keep is Idle;
    let finx = if snapped {
        applied_axis(min2.x as int, max2.x as int, half_x, size_x, omin_x, omax_x, ocen_x)
    } else {
        (min2.x as int, max2.x as int)
    };
    let finy = if snapped {
        applied_axis(min2.y as int, max2.y as int, half_y, size_y, omin_y, omax_y, ocen_y)
    } else {
        (min2.y as int, max2.y as int)
    };
    let tl_x = unscale_spec(finx.0 - doll_min.x, s);
    let tl_y = unscale_spec(finy.0 - doll_min.y, s);
    let br_x = unscale_spec(finx.1 - doll_min.x, s);
    let br_y = unscale_spec(finy.1 - doll_min.y, s);
    ResizeComputation {
        rect0,
        drag,
        min2,
        max2,
        size_x,
        size_y,
        half_x,
        half_y,
        omin_x,
        omin_y,
        omax_x,
        omax_y,
        ocen_x,
        ocen_y,
        fin_min_x: finx.0,
        fin_max_x: finx.1,
        fin_min_y: finy.0,
        fin_max_y: finy.1,
        tl_x,
        tl_y,
        br_x,
        br_y,
        new_w: clamp_dim(br_x - tl_x),
        new_h: clamp_dim(br_y - tl_y),
    }
}

/// The bounds a resize frame's commit must respect: the ratio-locked corner,
/// the committed corners and the committed dimensions stay in range.
pub open spec fn resize_commit_fits(
    slot: crate::slot::Slot,
    idx: int,
    handle: crate::control::ControlHandle,
    pointer: Point,
    mods: Modifiers,
    doll_min: Point,
    rects: Seq<Rect>,
    s: Scale,
    tol: int,
) -> bool {
    let rc = resize_compute(slot, idx, handle, pointer, mods, doll_min, rects, s, tol);
    &&& ratio_keep_fits(
        rc.drag.ratio_keep,
        rc.drag.min,
        rc.drag.max,
        slot.width as int,
        slot.height as int,
    )
    &&& fits(rc.tl_x)
    &&& fits(rc.tl_y)
    &&& fits_wide(rc.br_x)
    &&& fits_wide(rc.br_y)
    &&& rc.new_w <= COORD_LIMIT
    &&& rc.new_h <= COORD_LIMIT
}

/// Applies the snap output to one axis of a resize, without edge-fit.
fn apply_axis(
    min1: i64,
    max1: i64,
    half: i64,
    size: i64,
    omin: Option<i64>,
    omax: Option<i64>,
    ocen: Option<i64>,
) -> (r: (i64, i64))
    requires
        -0x40_0000_0000_0000 <= min1 <= 0x40_0000_0000_0000,
        -0x40_0000_0000_0000 <= max1 <= 0x40_0000_0000_0000,
        0 <= half <= 0x40_0000_0000_0000,
        0 <= size <= 0x40_0000_0000_0000,
        omin matches Some(v) ==> fits_wide(v as int),
        omax matches Some(v) ==> fits_wide(v as int),
        ocen matches Some(v) ==> fits_wide(v as int),
    ensures
        ({
            let fin = applied_axis(
                min1 as int,
                max1 as int,
                half as int,
                size as int,
                crate::snap::opt_int(omin),
                crate::snap::opt_int(omax),
                crate::snap::opt_int(ocen),
            );
            r.0 == fin.0 && r.1 == fin.1 && -0x200_0000_0000_0000 <= r.0 <= 0x200_0000_0000_0000
                && -0x200_0000_0000_0000 <= r.1 <= 0x200_0000_0000_0000
        }),
{
    let a: i64 = match omin {
        Some(v) => v,
        None => min1,
    };
    let b: i64 = match omax {
        Some(v) => v,
        None => max1,
    };
    match ocen {
        Some(c) => (c - half, c - half + size),
        None => (a, b),
    }
}

/// One frame of a resize-handle drag on position `idx` of `slot`: the
/// handle's proposal, ratio lock, snapping, and the commit of the corner and
/// the new dimensions.  Returns the guide lines to draw.
pub fn resize_slot_frame(
    slot: &mut crate::slot::Slot,
    idx: usize,
    handle: crate::control::ControlHandle,
    pointer: Point,
    mods: Modifiers,
    doll_rect: Rect,
    s: Scale,
    basis_rects: &Vec<Rect>,
    tolerance: i64,
) -> (lines: Vec<AuxiliaryLine>)
    requires
        old(slot).wf(),
        idx < old(slot).positions@.len(),
        s.wf(),
        pointer.fits_spec(),
        doll_rect.fits_spec(),
        forall|i: int| 0 <= i < basis_rects@.len() ==> (#[trigger] basis_rects@[i]).fits_wide_spec(),
        resize_commit_fits(
            *old(slot),
            idx as int,
            handle,
            pointer,
            mods,
            doll_rect.min,
            basis_rects@,
            s,
            tolerance as int,
        ),
    ensures
        ({
            let rc = resize_compute(
                *old(slot),
                idx as int,
                handle,
                pointer,
                mods,
                doll_rect.min,
                basis_rects@,
                s,
                tolerance as int,
            );
            &&& final(slot).positions@ == old(slot).positions@.update(
                idx as int,
                (Point { x: rc.tl_x as i64, y: rc.tl_y as i64 }),
            )
            &&& final(slot).width == rc.new_w
            &&& final(slot).height == rc.new_h
            &&& final(slot).anchor == old(slot).anchor
            &&& final(slot).constrainted == old(slot).constrainted
            &&& final(slot).required == old(slot).required
            &&& final(slot).candidates@ == old(slot).candidates@
            &&& final(slot).wf()
            &&& lines@ == if mods.alt {
                Seq::<AuxiliaryLine>::empty()
            } else {
                frame_lines(
                    rc.fin_min_x,
                    rc.fin_min_y,
                    rc.fin_max_x,
                    rc.fin_max_y,
                    rc.half_x,
                    rc.half_y,
                    basis_rects@,
                    tolerance as int,
                )
            }
        }),
{
    let ghost rc = resize_compute(
        *old(slot),
        idx as int,
        handle,
        pointer,
        mods,
        doll_rect.min,
        basis_rects@,
        s,
        tolerance as int,
    );
    proof {
        assert(old(slot).positions@[idx as int].fits_spec());
    }
    let rect0 = crate::basis::screen_rect(
        slot.positions[idx],
        slot.width,
        slot.height,
        doll_rect.min,
        s,
    );
    proof {
        assert(rect0 == rc.rect0);
        assert(rect0.min.x <= rect0.max.x && rect0.min.y <= rect0.max.y) by {
            crate::geom::lemma_round_div_nonneg(
                slot.width as int * s.num as int,
                s.den as int,
            );
            crate::geom::lemma_round_div_nonneg(
                slot.height as int * s.num as int,
                s.den as int,
            );
            assert(slot.width as int * s.num as int >= 0 && slot.height as int * s.num as int
                >= 0) by (nonlinear_arith)
                requires
                    slot.width >= 1 && slot.height >= 1 && s.num >= 1,
            ;
        }
    }
    let sx = rect0.max.x - rect0.min.x;
    let sy = rect0.max.y - rect0.min.y;
    let hx = ((sx as u64) / 2) as i64;
    let hy = ((sy as u64) / 2) as i64;
    proof {
        assert(sx == rc.size_x && sy == rc.size_y);
        assert(hx == rc.half_x && hy == rc.half_y);
    }
    let drag = crate::control::resize_with_handle(handle, pointer, rect0, mods.ctrl);
    proof {
        assert(drag == rc.drag);
        assert(drag.min.fits_wide_spec() && drag.max.fits_wide_spec());
    }
    let (min2, max2) = crate::canvas::apply_ratio_keep(
        drag.ratio_keep,
        drag.min,
        drag.max,
        slot.width,
        slot.height,
    );
    proof {
        assert(min2 == rc.min2 && max2 == rc.max2);
    }
    let snapped = !mods.alt && matches!(drag.ratio_keep, RatioKeepOptions::Idle);
    let mut fminx = min2.x;
    let mut fmaxx = max2.x;
    let mut fminy = min2.y;
    let mut fmaxy = max2.y;
    let mut lines: Vec<AuxiliaryLine> = Vec::new();
    if snapped {
        let out = crate::snap::drag_snap(&drag.snap, basis_rects, tolerance);
        proof {
            match drag.snap.min {
                None => {
                    crate::snap::lemma_snap_none(basis_rects@, tolerance as int);
                },
                Some(c) => {
                    crate::snap::lemma_snap_output_bounds(c, basis_rects@, tolerance as int);
                },
            }
            match drag.snap.max {
                None => {
                    crate::snap::lemma_snap_none(basis_rects@, tolerance as int);
                },
                Some(c) => {
                    crate::snap::lemma_snap_output_bounds(c, basis_rects@, tolerance as int);
                },
            }
            match drag.snap.center {
                None => {
                    crate::snap::lemma_snap_none(basis_rects@, tolerance as int);
                },
                Some(c) => {
                    crate::snap::lemma_snap_output_bounds(c, basis_rects@, tolerance as int);
                },
            }
        }
        let fx = apply_axis(min2.x, max2.x, hx, sx, out.min.x, out.max.x, out.center.x);
        let fy = apply_axis(min2.y, max2.y, hy, sy, out.min.y, out.max.y, out.center.y);
        fminx = fx.0;
        fmaxx = fx.1;
        fminy = fy.0;
        fmaxy = fy.1;
    }
    proof {
        assert(fminx == rc.fin_min_x && fmaxx == rc.fin_max_x);
        assert(fminy == rc.fin_min_y && fmaxy == rc.fin_max_y);
    }
    if !mods.alt {
        let dmin = crate::snap::Candidate {
            point: Point { x: fminx, y: fminy },
            mode: crate::snap::SnapType::DisplayOnly,
        };
        let dmax = crate::snap::Candidate {
            point: Point { x: fmaxx, y: fmaxy },
            mode: crate::snap::SnapType::DisplayOnly,
        };
        let dcen = crate::snap::Candidate {
            point: Point { x: fminx + hx, y: fminy + hy },
            mode: crate::snap::SnapType::DisplayOnly,
        };
        proof {
            let cands = display_candidates(
                rc.fin_min_x,
                rc.fin_min_y,
                rc.fin_max_x,
                rc.fin_max_y,
                rc.half_x,
                rc.half_y,
            );
            assert(dmin == cands.0 && dmax == cands.1 && dcen == cands.2);
        }
        let dinput = crate::snap::SnapInput {
            min: Some(dmin),
            max: Some(dmax),
            center: Some(dcen),
            anchor: None,
        };
        let dout = crate::snap::drag_snap(&dinput, basis_rects, tolerance);
        if let Some(x) = dout.min.x {
            lines.push(AuxiliaryLine::Vertical(x));
        }
        if let Some(y) = dout.min.y {
            lines.push(AuxiliaryLine::Horizontal(y));
        }
        if let Some(x) = dout.max.x {
            lines.push(AuxiliaryLine::Vertical(x));
        }
        if let Some(y) = dout.max.y {
            lines.push(AuxiliaryLine::Horizontal(y));
        }
        if let Some(x) = dout.center.x {
            lines.push(AuxiliaryLine::Vertical(x));
        }
        if let Some(y) = dout.center.y {
            lines.push(AuxiliaryLine::Horizontal(y));
        }
        proof {
            assert(lines@ =~= frame_lines(
                rc.fin_min_x,
                rc.fin_min_y,
                rc.fin_max_x,
                rc.fin_max_y,
                rc.half_x,
                rc.half_y,
                basis_rects@,
                tolerance as int,
            ));
        }
    }
    let tlx = crate::geom::unscale_value(fminx - doll_rect.min.x, s);
    let tly = crate::geom::unscale_value(fminy - doll_rect.min.y, s);
    let brx = crate::geom::unscale_value(fmaxx - doll_rect.min.x, s);
    let bry = crate::geom::unscale_value(fmaxy - doll_rect.min.y, s);
    proof {
        assert(tlx == rc.tl_x && tly == rc.tl_y && brx == rc.br_x && bry == rc.br_y);
    }
    let mut w2 = brx - tlx;
    if w2 < 1 {
        w2 = 1;
    }
    let mut h2 = bry - tly;
    if h2 < 1 {
        h2 = 1;
    }
    proof {
        assert(w2 == rc.new_w && h2 == rc.new_h);
    }
    slot.positions.set(idx, Point { x: tlx, y: tly });
    slot.width = w2;
    slot.height = h2;
    proof {
        assert forall|j: int| 0 <= j < slot.positions@.len() implies (
        #[trigger] slot.positions@[j]).fits_spec() by {
            if j != idx as int {
                assert(slot.positions@[j] == old(slot).positions@[j]);
            }
        }
    }
    lines
}


/// Every intermediate value of one anchor-drag frame.  Spec-level only.
pub struct AnchorComputation {
    pub rect0: Rect,
    pub cand: crate::snap::Candidate,
    pub oax: Option<int>,
    pub oay: Option<int>,
    pub px: int,
    pub py: int,
    pub ax: int,
    pub ay: int,
    pub anchor: Point,
}

/// The anchor pipeline of one frame: snap the dragged anchor point (unless
/// alt is held), convert it to slot-local pixels, and restrict it to the
/// dominant axis when ctrl is held, pinning the other coordinate to the
/// anchor's position at drag-start.
pub open spec fn anchor_compute(
    slot: crate::slot::Slot,
    idx: int,
    pointer: Point,
    mods: Modifiers,
    doll_min: Point,
    rects: Seq<Rect>,
    anchor_origin: Point,
    s: Scale,
    tol: int,
) -> AnchorComputation {
    let rect0 = crate::basis::screen_rect_spec(
        slot.positions@[idx],
        slot.width as int,
        slot.height as int,
        doll_min,
        s,
    );
    let cand = crate::snap::Candidate { point: pointer, mode: crate::snap::SnapType::Both };
    let oax = crate::snap::snap_x(Some(cand), rects, tol);
    let oay = crate::snap::snap_y(Some(cand), rects, tol);
    let px = if !mods.alt && oax is Some {
        oax->Some_0
    } else {
        pointer.x as int
    };
    let py = if !mods.alt && oay is Some {
        oay->Some_0
    } else {
        pointer.y as int
    };
    let ax = unscale_spec(px - rect0.min.x, s);
    let ay = unscale_spec(py - rect0.min.y, s);
    let anchor = if mods.ctrl {
        if abs_i(ax - anchor_origin.x) > abs_i(ay - anchor_origin.y) {
            Point { x: ax as i64, y: anchor_origin.y }
        } else {
            Point { x: anchor_origin.x, y: ay as i64 }
        }
    } else {
        Point { x: ax as i64, y: ay as i64 }
    };
    AnchorComputation { rect0, cand, oax, oay, px, py, ax, ay, anchor }
}

/// The guide lines an anchor frame reports: the snapped coordinates, when a
/// snap was applied.
pub open spec fn anchor_lines(ac: AnchorComputation, alt: bool) -> Seq<AuxiliaryLine> {
    if alt {
        Seq::empty()
    } else {
        let s0 = push_line_v(Seq::empty(), if ac.oax is Some { Some(ac.px) } else { None });
        push_line_h(s0, if ac.oay is Some { Some(ac.py) } else { None })
    }
}

/// The bounds an anchor commit must respect.
pub open spec fn anchor_commit_fits(
    slot: crate::slot::Slot,
    idx: int,
    pointer: Point,
    mods: Modifiers,
    doll_min: Point,
    rects: Seq<Rect>,
    anchor_origin: Point,
    s: Scale,
    tol: int,
) -> bool {
    let ac = anchor_compute(slot, idx, pointer, mods, doll_min, rects, anchor_origin, s, tol);
    fits(ac.ax) && fits(ac.ay)
}

/// One frame of an anchor-handle drag on position `idx` of `slot`: snap the
/// pointer, convert to slot-local pixels, apply the ctrl axis restriction
/// against the anchor's drag-start position, and commit the new anchor.
pub fn anchor_drag_frame(
    slot: &mut crate::slot::Slot,
    idx: usize,
    pointer: Point,
    mods: Modifiers,
    doll_rect: Rect,
    s: Scale,
    basis_rects: &Vec<Rect>,
    anchor_origin: Point,
    tolerance: i64,
) -> (lines: Vec<AuxiliaryLine>)
    requires
        old(slot).wf(),
        !old(slot).constrainted,
        idx < old(slot).positions@.len(),
        s.wf(),
        pointer.fits_spec(),
        doll_rect.fits_spec(),
        anchor_origin.fits_spec(),
        forall|i: int| 0 <= i < basis_rects@.len() ==> (#[trigger] basis_rects@[i]).fits_wide_spec(),
        anchor_commit_fits(
            *old(slot),
            idx as int,
            pointer,
            mods,
            doll_rect.min,
            basis_rects@,
            anchor_origin,
            s,
            tolerance as int,
        ),
    ensures
        ({
            let ac = anchor_compute(
                *old(slot),
                idx as int,
                pointer,
                mods,
                doll_rect.min,
                basis_rects@,
                anchor_origin,
                s,
                tolerance as int,
            );
            &&& final(slot).anchor == ac.anchor
            &&& final(slot).positions@ == old(slot).positions@
            &&& final(slot).width == old(slot).width
            &&& final(slot).height == old(slot).height
            &&& final(slot).constrainted == old(slot).constrainted
            &&& final(slot).required == old(slot).required
            &&& final(slot).candidates@ == old(slot).candidates@
            &&& final(slot).wf()
            &&& lines@ == anchor_lines(ac, mods.alt)
        }),
{
    let ghost ac = anchor_compute(
        *old(slot),
        idx as int,
        pointer,
        mods,
        doll_rect.min,
        basis_rects@,
        anchor_origin,
        s,
        tolerance as int,
    );
    proof {
        assert(old(slot).positions@[idx as int].fits_spec());
    }
    let rect0 = crate::basis::screen_rect(
        slot.positions[idx],
        slot.width,
        slot.height,
        doll_rect.min,
        s,
    );
    proof {
        assert(rect0 == ac.rect0);
    }
    let cand = crate::snap::Candidate { point: pointer, mode: crate::snap::SnapType::Both };
    let mut px = pointer.x;
    let mut py = pointer.y;
    let mut lines: Vec<AuxiliaryLine> = Vec::new();
    if !mods.alt {
        let input = crate::snap::SnapInput {
            min: None,
            max: None,
            center: None,
            anchor: Some(cand),
        };
        let out = crate::snap::drag_snap(&input, basis_rects, tolerance);
        proof {
            crate::snap::lemma_snap_output_bounds(cand, basis_rects@, tolerance as int);
        }
        if let Some(x) = out.anchor.x {
            px = x;
            lines.push(AuxiliaryLine::Vertical(x));
        }
        if let Some(y) = out.anchor.y {
            py = y;
            lines.push(AuxiliaryLine::Horizontal(y));
        }
    }
    proof {
        assert(px == ac.px && py == ac.py);
        assert(lines@ =~= anchor_lines(ac, mods.alt));
    }
    let ax = crate::geom::unscale_value(px - rect0.min.x, s);
    let ay = crate::geom::unscale_value(py - rect0.min.y, s);
    proof {
        assert(ax == ac.ax && ay == ac.ay);
    }
    let new_anchor = if mods.ctrl {
        let dx = crate::geom::abs64(ax - anchor_origin.x);
        let dy = crate::geom::abs64(ay - anchor_origin.y);
        if dx > dy {
            Point { x: ax, y: anchor_origin.y }
        } else {
            Point { x: anchor_origin.x, y: ay }
        }
    } else {
        Point { x: ax, y: ay }
    };
    proof {
        assert(new_anchor == ac.anchor);
    }
    slot.anchor = new_anchor;
    lines
}


/// Edge-fit preserves the size when at most one edge snapped: unless both
/// the `min` and the `max` candidate of an axis received a snap, the
/// rectangle a move frame finalizes has exactly the pre-drag size on that
/// axis.
pub proof fn lemma_move_preserves_size(
    slot: crate::slot::Slot,
    idx: int,
    pointer: Point,
    mods: Modifiers,
    doll_min: Point,
    rects: Seq<Rect>,
    gesture: DragGesture,
    s: Scale,
    tol: int,
)
    ensures
        ({
            let mc = move_compute(slot, idx, pointer, mods, doll_min, rects, gesture, s, tol);
            &&& !(mc.omin_x is Some && mc.omax_x is Some) ==> mc.fin_max_x - mc.fin_min_x
                == mc.size_x
            &&& !(mc.omin_y is Some && mc.omax_y is Some) ==> mc.fin_max_y - mc.fin_min_y
                == mc.size_y
        }),
{
}

/// The ratio lock solves the non-dragged dimension from the dragged one:
/// the corrected rectangle's other dimension is the dragged dimension
/// rescaled by the slot's aspect ratio.
pub proof fn lemma_ratio_keep_solves(
    opt: RatioKeepOptions,
    min: Point,
    max: Point,
    width: int,
    height: int,
)
    requires
        1 <= width,
        1 <= height,
        min.fits_wide_spec(),
        max.fits_wide_spec(),
        ratio_keep_fits(opt, min, max, width, height),
    ensures
        ({
            let rp = ratio_keep_spec(opt, min, max, width, height);
            &&& opt is MinY ==> rp.1.y - rp.0.y == round_div((max.x - min.x) * height, width)
                && rp.0.x == min.x && rp.1 == max
            &&& opt is MaxX ==> rp.1.x - rp.0.x == round_div((max.y - min.y) * width, height)
                && rp.0 == min && rp.1.y == max.y
            &&& opt is MaxY ==> rp.1.y - rp.0.y == round_div((max.x - min.x) * height, width)
                && rp.0 == min && rp.1.x == max.x
        }),
{
}

/// While the ratio lock is engaged, snapping is skipped entirely: the
/// committed geometry of a ctrl-resize frame is the same against any set of
/// reference rectangles and any tolerance.
pub proof fn lemma_ratio_lock_skips_snapping(
    slot: crate::slot::Slot,
    idx: int,
    handle: crate::control::ControlHandle,
    pointer: Point,
    mods: Modifiers,
    doll_min: Point,
    rects1: Seq<Rect>,
    rects2: Seq<Rect>,
    s: Scale,
    tol1: int,
    tol2: int,
)
    requires
        mods.ctrl,
    ensures
        ({
            let r1 = resize_compute(slot, idx, handle, pointer, mods, doll_min, rects1, s, tol1);
            let r2 = resize_compute(slot, idx, handle, pointer, mods, doll_min, rects2, s, tol2);
            &&& r1.fin_min_x == r2.fin_min_x
            &&& r1.fin_max_x == r2.fin_max_x
            &&& r1.fin_min_y == r2.fin_min_y
            &&& r1.fin_max_y == r2.fin_max_y
            &&& r1.tl_x == r2.tl_x && r1.tl_y == r2.tl_y
            &&& r1.new_w == r2.new_w && r1.new_h == r2.new_h
        }),
{
    assert(!(crate::control::handle_ratio_keep(handle) is Idle));
}

/// Multi-position sync: the committed corner lands on the edited position;
/// with shift held every other position moves by the identical delta, and
/// without shift every other position is untouched.
pub proof fn lemma_multi_position_sync(positions: Seq<Point>, idx: int, tl: Point, shift: bool)
    requires
        0 <= idx < positions.len(),
        forall|k: int| 0 <= k < positions.len() ==> (#[trigger] positions[k]).fits_spec(),
        tl.fits_spec(),
        forall|k: int|
            0 <= k < positions.len() ==> fits(
                (#[trigger] positions[k]).x + tl.x - positions[idx].x,
            ) && fits(positions[k].y + tl.y - positions[idx].y),
    ensures
        moved_positions(positions, idx, tl, shift).len() == positions.len(),
        moved_positions(positions, idx, tl, shift)[idx] == tl,
        forall|k: int|
            0 <= k < positions.len() && k != idx && shift ==> (#[trigger] moved_positions(
                positions,
                idx,
                tl,
                shift,
            )[k]).x == positions[k].x + tl.x - positions[idx].x && moved_positions(
                positions,
                idx,
                tl,
                shift,
            )[k].y == positions[k].y + tl.y - positions[idx].y,
        forall|k: int|
            0 <= k < positions.len() && k != idx && !shift ==> #[trigger] moved_positions(
                positions,
                idx,
                tl,
                shift,
            )[k] == positions[k],
{
}

/// Axis restriction is computed from the gesture's drag-start origin, never
/// from the previous frame, and pins the committed coordinate of the locked
/// axis to that origin.
pub proof fn lemma_axis_restriction_pins(
    slot: crate::slot::Slot,
    idx: int,
    pointer: Point,
    mods: Modifiers,
    doll_min: Point,
    rects: Seq<Rect>,
    gesture: DragGesture,
    s: Scale,
    tol: int,
)
    requires
        mods.ctrl,
        0 <= idx < gesture.origins@.len(),
    ensures
        ({
            let mc = move_compute(slot, idx, pointer, mods, doll_min, rects, gesture, s, tol);
            &&& mc.restrict == restrict_spec(
                pointer,
                doll_min,
                gesture.origins@[idx],
                gesture.drag_offset,
                s,
            )
            &&& mc.restrict is Horizontal ==> mc.tl_y == gesture.origins@[idx].y
            &&& mc.restrict is Vertical ==> mc.tl_x == gesture.origins@[idx].x
        }),
{
}

/// The committed corner of a move frame depends only on the pointer, the
/// gesture memo and the slot's dimensions, never on the slot's current
/// positions: re-committing with no further input cannot drift.
pub proof fn lemma_commit_no_drift(
    slot1: crate::slot::Slot,
    slot2: crate::slot::Slot,
    idx: int,
    pointer: Point,
    mods: Modifiers,
    doll_min: Point,
    rects: Seq<Rect>,
    gesture: DragGesture,
    s: Scale,
    tol: int,
)
    requires
        slot1.width == slot2.width,
        slot1.height == slot2.height,
    ensures
        ({
            let m1 = move_compute(slot1, idx, pointer, mods, doll_min, rects, gesture, s, tol);
            let m2 = move_compute(slot2, idx, pointer, mods, doll_min, rects, gesture, s, tol);
            m1.tl_x == m2.tl_x && m1.tl_y == m2.tl_y
        }),
{
}

/// Holding alt leaves the geometry exactly the raw pointer-derived
/// rectangle after rounding, whatever reference rectangles are nearby.
pub proof fn lemma_alt_disables_snapping(
    slot: crate::slot::Slot,
    idx: int,
    pointer: Point,
    mods: Modifiers,
    doll_min: Point,
    rects1: Seq<Rect>,
    rects2: Seq<Rect>,
    gesture: DragGesture,
    s: Scale,
    tol1: int,
    tol2: int,
)
    requires
        mods.alt,
    ensures
        ({
            let m1 = move_compute(slot, idx, pointer, mods, doll_min, rects1, gesture, s, tol1);
            let m2 = move_compute(slot, idx, pointer, mods, doll_min, rects2, gesture, s, tol2);
            &&& m1.fin_min_x == m1.min1x && m1.fin_max_x == m1.max1x
            &&& m1.fin_min_y == m1.min1y && m1.fin_max_y == m1.max1y
            &&& m1.tl_x == m2.tl_x && m1.tl_y == m2.tl_y
            &&& !(m1.restrict is Vertical) ==> m1.tl_x == unscale_spec(
                m1.min1x - doll_min.x,
                s,
            )
            &&& !(m1.restrict is Horizontal) ==> m1.tl_y == unscale_spec(
                m1.min1y - doll_min.y,
                s,
            )
        }),
{
}

/// Holding alt during a resize likewise skips snapping: the committed
/// geometry is the raw handle proposal (after the ratio lock, if engaged),
/// whatever reference rectangles are nearby.
pub proof fn lemma_alt_disables_resize_snapping(
    slot: crate::slot::Slot,
    idx: int,
    handle: crate::control::ControlHandle,
    pointer: Point,
    mods: Modifiers,
    doll_min: Point,
    rects1: Seq<Rect>,
    rects2: Seq<Rect>,
    s: Scale,
    tol1: int,
    tol2: int,
)
    requires
        mods.alt,
    ensures
        ({
            let r1 = resize_compute(slot, idx, handle, pointer, mods, doll_min, rects1, s, tol1);
            let r2 = resize_compute(slot, idx, handle, pointer, mods, doll_min, rects2, s, tol2);
            &&& r1.fin_min_x == r1.min2.x && r1.fin_max_x == r1.max2.x
            &&& r1.fin_min_y == r1.min2.y && r1.fin_max_y == r1.max2.y
            &&& r1.tl_x == r2.tl_x && r1.tl_y == r2.tl_y
            &&& r1.new_w == r2.new_w && r1.new_h == r2.new_h
        }),
{
}


/// The interaction driving this frame for the active slot position.
#[derive(Clone, Copy, PartialEq, Eq, Structural, Debug)]
pub enum Interaction {
    /// Whole-rectangle move: dragging inside the rectangle.
    Move,
    /// Dragging one of the eight resize handles.
    Resize(crate::control::ControlHandle),
    /// Dragging the anchor handle of an unconstrained slot.
    Anchor,
}

/// The transient editor state of one session: the active ids, the alignment
/// and visibility sets, and the two drag-memoization fields, both cleared
/// whenever no drag is in progress.
#[derive(Clone, Debug)]
pub struct EditorSession {
    pub actived_doll: Option<u32>,
    pub actived_slot: Option<u32>,
    pub align_basis_slots: Vec<u32>,
    pub visible_slots: Vec<u32>,
    pub locked_slots: Vec<u32>,
    /// The anchor's position at drag-start, while an anchor drag runs.
    pub canvas_original_pos_anchor: Option<Point>,
    /// All positions and the pointer offset at drag-start, while a move runs.
    pub canvas_original_pos_slot_and_drag_offset: Option<DragGesture>,
}

impl EditorSession {
    /// A fresh session: nothing active, nothing memoized.
    pub fn new() -> (r: EditorSession)
        ensures
            r.actived_doll is None,
            r.actived_slot is None,
            r.align_basis_slots@.len() == 0,
            r.visible_slots@.len() == 0,
            r.locked_slots@.len() == 0,
            r.canvas_original_pos_anchor is None,
            r.canvas_original_pos_slot_and_drag_offset is None,
    {
        EditorSession {
            actived_doll: None,
            actived_slot: None,
            align_basis_slots: Vec::new(),
            visible_slots: Vec::new(),
            locked_slots: Vec::new(),
            canvas_original_pos_anchor: None,
            canvas_original_pos_slot_and_drag_offset: None,
        }
    }

    /// Clears both drag-memoization fields; called whenever no control point
    /// is being dragged.
    pub fn end_drag(&mut self)
        ensures
            final(self).canvas_original_pos_anchor is None,
            final(self).canvas_original_pos_slot_and_drag_offset is None,
            final(self).actived_doll == old(self).actived_doll,
            final(self).actived_slot == old(self).actived_slot,
            final(self).align_basis_slots@ == old(self).align_basis_slots@,
            final(self).visible_slots@ == old(self).visible_slots@,
            final(self).locked_slots@ == old(self).locked_slots@,
    {
        self.canvas_original_pos_anchor = None;
        self.canvas_original_pos_slot_and_drag_offset = None;
    }

    /// Memoizes a starting move gesture: every position of the slot and the
    /// pointer-to-position offset, both in doll-local pixels.  A gesture
    /// already in progress is kept.
    pub fn begin_slot_drag(
        &mut self,
        slot: &crate::slot::Slot,
        idx: usize,
        pointer: Point,
        doll_rect: Rect,
        s: Scale,
    )
        requires
            slot.wf(),
            idx < slot.positions@.len(),
            s.wf(),
            pointer.fits_spec(),
            doll_rect.fits_spec(),
            fits_wide(unscale_spec(pointer.x - doll_rect.min.x, s)),
            fits_wide(unscale_spec(pointer.y - doll_rect.min.y, s)),
        ensures
            old(self).canvas_original_pos_slot_and_drag_offset is Some ==> *final(self) == *old(
                self,
            ),
            old(self).canvas_original_pos_slot_and_drag_offset is None ==> {
                &&& final(self).canvas_original_pos_slot_and_drag_offset matches Some(g)
                    && g.origins@ == slot.positions@ && g.drag_offset == (Point {
                    x: (unscale_spec(pointer.x - doll_rect.min.x, s) - slot.positions@[
                        idx as int].x) as i64,
                    y: (unscale_spec(pointer.y - doll_rect.min.y, s) - slot.positions@[
                        idx as int].y) as i64,
                })
                &&& final(self).canvas_original_pos_anchor == old(self).canvas_original_pos_anchor
                &&& final(self).actived_doll == old(self).actived_doll
                &&& final(self).actived_slot == old(self).actived_slot
                &&& final(self).align_basis_slots@ == old(self).align_basis_slots@
                &&& final(self).visible_slots@ == old(self).visible_slots@
                &&& final(self).locked_slots@ == old(self).locked_slots@
            },
    {
        if self.canvas_original_pos_slot_and_drag_offset.is_none() {
            let lx = crate::geom::unscale_value(pointer.x - doll_rect.min.x, s);
            let ly = crate::geom::unscale_value(pointer.y - doll_rect.min.y, s);
            let p = slot.positions[idx];
            let mut origins: Vec<Point> = Vec::new();
            let n = slot.positions.len();
            let mut i: usize = 0;
            while i < n
                invariant
                    n == slot.positions@.len(),
                    0 <= i <= n,
                    origins@ == slot.positions@.take(i as int),
                decreases n - i,
            {
                origins.push(slot.positions[i]);
                proof {
                    assert(origins@ =~= slot.positions@.take(i + 1));
                }
                i = i + 1;
            }
            proof {
                assert(origins@ =~= slot.positions@);
            }
            let drag_offset = Point { x: lx - p.x, y: ly - p.y };
            self.canvas_original_pos_slot_and_drag_offset = Some(
                DragGesture { origins, drag_offset },
            );
        }
    }

    /// Memoizes the anchor's position at drag-start; an anchor drag already
    /// in progress is kept.
    pub fn begin_anchor_drag(&mut self, slot: &crate::slot::Slot)
        ensures
            old(self).canvas_original_pos_anchor is Some ==> *final(self) == *old(self),
            old(self).canvas_original_pos_anchor is None ==> {
                &&& final(self).canvas_original_pos_anchor == Some(slot.anchor)
                &&& final(self).canvas_original_pos_slot_and_drag_offset == old(
                    self,
                ).canvas_original_pos_slot_and_drag_offset
                &&& final(self).actived_doll == old(self).actived_doll
                &&& final(self).actived_slot == old(self).actived_slot
                &&& final(self).align_basis_slots@ == old(self).align_basis_slots@
                &&& final(self).visible_slots@ == old(self).visible_slots@
                &&& final(self).locked_slots@ == old(self).locked_slots@
            },
    {
        if self.canvas_original_pos_anchor.is_none() {
            self.canvas_original_pos_anchor = Some(slot.anchor);
        }
    }
}

/// The canvas state one frame of interaction reports.
pub fn interaction_state(interaction: Interaction) -> (st: CanvasState)
    ensures
        st == match interaction {
            Interaction::Move => CanvasState::DraggingSlot,
            Interaction::Resize(_) => CanvasState::ResizingSlot,
            Interaction::Anchor => CanvasState::DraggingAnchor,
        },
{
    match interaction {
        Interaction::Move => CanvasState::DraggingSlot,
        Interaction::Resize(_) => CanvasState::ResizingSlot,
        Interaction::Anchor => CanvasState::DraggingAnchor,
    }
}

/// Whether `v` holds `id`.
fn contains_id(v: &Vec<u32>, id: u32) -> (r: bool)
    ensures
        r == v@.contains(id),
{
    let n = v.len();
    let mut i: usize = 0;
    while i < n
        invariant
            n == v@.len(),
            0 <= i <= n,
            forall|k: int| 0 <= k < i ==> v@[k] != id,
        decreases n - i,
    {
        if v[i] == id {
            return true;
        }
        i = i + 1;
    }
    false
}

/// The slot a frame of interaction acts on: the active slot must exist, be
/// unlocked, and still hold the edited position index.
pub open spec fn frame_target(
    project: crate::slot::Project,
    session: EditorSession,
    position_index: int,
) -> Option<(u32, crate::slot::Slot)> {
    match session.actived_slot {
        None => None,
        Some(id) => match crate::slot::find_entry(project.slots@, id) {
            None => None,
            Some(slot) => if session.locked_slots@.contains(id) || position_index
                >= slot.positions@.len() {
                None
            } else {
                Some((id, slot))
            },
        },
    }
}

/// The entries of `news` are those of `olds` with the slot under `id`
/// rewritten and everything else untouched.
pub open spec fn project_slot_replaced(
    olds: Seq<(u32, crate::slot::Slot)>,
    news: Seq<(u32, crate::slot::Slot)>,
    id: u32,
) -> bool {
    &&& news.len() == olds.len()
    &&& forall|j: int| 0 <= j < olds.len() ==> (#[trigger] news[j]).0 == olds[j].0
    &&& forall|j: int| 0 <= j < olds.len() && (#[trigger] olds[j]).0 != id ==> news[j] == olds[j]
}

/// The bounds one frame of `interaction` must respect, phrased over the
/// target slot and the resolved reference rectangles.
pub open spec fn edit_frame_fits(
    project: crate::slot::Project,
    session: EditorSession,
    position_index: int,
    interaction: Interaction,
    pointer: Point,
    mods: Modifiers,
    doll_rect: Rect,
    s: Scale,
    tol: int,
) -> bool {
    match frame_target(project, session, position_index) {
        None => true,
        Some((id, slot)) => {
            let rects = crate::basis::basis_rects_spec(
                doll_rect,
                session.align_basis_slots@,
                project.slots@,
                id,
                position_index,
                s,
            );
            match interaction {
                Interaction::Move => match session.canvas_original_pos_slot_and_drag_offset {
                    None => true,
                    Some(g) => g.wf() && g.origins@.len() == slot.positions@.len()
                        && move_commit_fits(
                        slot,
                        position_index,
                        pointer,
                        mods,
                        doll_rect.min,
                        rects,
                        g,
                        s,
                        tol,
                    ),
                },
                Interaction::Resize(h) => resize_commit_fits(
                    slot,
                    position_index,
                    h,
                    pointer,
                    mods,
                    doll_rect.min,
                    rects,
                    s,
                    tol,
                ),
                Interaction::Anchor => match session.canvas_original_pos_anchor {
                    None => true,
                    Some(a) => slot.constrainted || (a.fits_spec() && anchor_commit_fits(
                        slot,
                        position_index,
                        pointer,
                        mods,
                        doll_rect.min,
                        rects,
                        a,
                        s,
                        tol,
                    )),
                },
            }
        },
    }
}

/// One frame of the edit orchestrator: validates the active slot and the
/// position index, resolves the reference rectangles, runs the interaction's
/// pipeline, and commits the resulting geometry back into the project.
/// Returns the canvas state and the guide lines to draw.
pub fn edit_frame(
    project: &mut crate::slot::Project,
    session: &EditorSession,
    position_index: usize,
    interaction: Interaction,
    pointer: Point,
    mods: Modifiers,
    doll_rect: Rect,
    s: Scale,
    tolerance: i64,
) -> (r: (CanvasState, Vec<AuxiliaryLine>))
    requires
        old(project).wf(),
        s.wf(),
        pointer.fits_spec(),
        doll_rect.fits_spec(),
        edit_frame_fits(
            *old(project),
            *session,
            position_index as int,
            interaction,
            pointer,
            mods,
            doll_rect,
            s,
            tolerance as int,
        ),
    ensures
        final(project).wf(),
        final(project).dolls@ == old(project).dolls@,
        ({
            let tol = tolerance as int;
            match frame_target(*old(project), *session, position_index as int) {
                None => *final(project) == *old(project) && r.0 is Idle && r.1@.len() == 0,
                Some((id, slot)) => {
                    let rects = crate::basis::basis_rects_spec(
                        doll_rect,
                        session.align_basis_slots@,
                        old(project).slots@,
                        id,
                        position_index as int,
                        s,
                    );
                    match interaction {
                        Interaction::Move => match session
                            .canvas_original_pos_slot_and_drag_offset {
                            None => *final(project) == *old(project) && r.0 is Idle && r.1@.len()
                                == 0,
                            Some(g) => {
                                let mc = move_compute(
                                    slot,
                                    position_index as int,
                                    pointer,
                                    mods,
                                    doll_rect.min,
                                    rects,
                                    g,
                                    s,
                                    tol,
                                );
                                &&& r.0 is DraggingSlot
                                &&& project_slot_replaced(
                                    old(project).slots@,
                                    final(project).slots@,
                                    id,
                                )
                                &&& forall|j: int|
                                    0 <= j < old(project).slots@.len() && (#[trigger] old(
                                        project,
                                    ).slots@[j]).0 == id ==> {
                                        let u = final(project).slots@[j].1;
                                        &&& u.positions@ == moved_positions(
                                            slot.positions@,
                                            position_index as int,
                                            (Point { x: mc.tl_x as i64, y: mc.tl_y as i64 }),
                                            mods.shift,
                                        )
                                        &&& u.width == slot.width
                                        &&& u.height == slot.height
                                        &&& u.anchor == slot.anchor
                                    }
                                &&& r.1@ == if mods.alt {
                                    Seq::<AuxiliaryLine>::empty()
                                } else {
                                    frame_lines(
                                        mc.fin_min_x,
                                        mc.fin_min_y,
                                        mc.fin_max_x,
                                        mc.fin_max_y,
                                        mc.half_x,
                                        mc.half_y,
                                        rects,
                                        tol,
                                    )
                                }
                            },
                        },
                        Interaction::Resize(h) => {
                            let rc = resize_compute(
                                slot,
                                position_index as int,
                                h,
                                pointer,
                                mods,
                                doll_rect.min,
                                rects,
                                s,
                                tol,
                            );
                            &&& r.0 is ResizingSlot
                            &&& project_slot_replaced(
                                old(project).slots@,
                                final(project).slots@,
                                id,
                            )
                            &&& forall|j: int|
                                0 <= j < old(project).slots@.len() && (#[trigger] old(
                                    project,
                                ).slots@[j]).0 == id ==> {
                                    let u = final(project).slots@[j].1;
                                    &&& u.positions@ == slot.positions@.update(
                                        position_index as int,
                                        (Point { x: rc.tl_x as i64, y: rc.tl_y as i64 }),
                                    )
                                    &&& u.width == rc.new_w
                                    &&& u.height == rc.new_h
                                    &&& u.anchor == slot.anchor
                                }
                            &&& r.1@ == if mods.alt {
                                Seq::<AuxiliaryLine>::empty()
                            } else {
                                frame_lines(
                                    rc.fin_min_x,
                                    rc.fin_min_y,
                                    rc.fin_max_x,
                                    rc.fin_max_y,
                                    rc.half_x,
                                    rc.half_y,
                                    rects,
                                    tol,
                                )
                            }
                        },
                        Interaction::Anchor => {
                            if slot.constrainted {
                                *final(project) == *old(project) && r.0 is Idle && r.1@.len() == 0
                            } else {
                                match session.canvas_original_pos_anchor {
                                    None => *final(project) == *old(project) && r.0 is Idle
                                        && r.1@.len() == 0,
                                    Some(a) => {
                                        let ac = anchor_compute(
                                            slot,
                                            position_index as int,
                                            pointer,
                                            mods,
                                            doll_rect.min,
                                            rects,
                                            a,
                                            s,
                                            tol,
                                        );
                                        &&& r.0 is DraggingAnchor
                                        &&& project_slot_replaced(
                                            old(project).slots@,
                                            final(project).slots@,
                                            id,
                                        )
                                        &&& forall|j: int|
                                            0 <= j < old(project).slots@.len() && (#[trigger] old(
                                                project,
                                            ).slots@[j]).0 == id ==> {
                                                let u = final(project).slots@[j].1;
                                                &&& u.positions@ == slot.positions@
                                                &&& u.width == slot.width
                                                &&& u.height == slot.height
                                                &&& u.anchor == ac.anchor
                                            }
                                        &&& r.1@ == anchor_lines(ac, mods.alt)
                                    },
                                }
                            }
                        },
                    }
                },
            }
        }),
{
    let active = match session.actived_slot {
        Some(id) => id,
        None => {
            return (CanvasState::Idle, Vec::new());
        },
    };
    if contains_id(&session.locked_slots, active) {
        return (CanvasState::Idle, Vec::new());
    }
    let slot_copy = match project.get_slot(active) {
        Some(found) => found.duplicate(),
        None => {
            return (CanvasState::Idle, Vec::new());
        },
    };
    proof {
        project.lemma_found_slot_wf(active);
        assert(slot_copy.wf());
    }
    if position_index >= slot_copy.positions.len() {
        return (CanvasState::Idle, Vec::new());
    }
    let rects = crate::basis::collect_basis_rects(
        project,
        &session.align_basis_slots,
        active,
        position_index,
        doll_rect,
        s,
    );
    match interaction {
        Interaction::Move => {
            match &session.canvas_original_pos_slot_and_drag_offset {
                None => (CanvasState::Idle, Vec::new()),
                Some(g) => {
                    let mut slot2 = slot_copy;
                    let lines = move_slot_frame(
                        &mut slot2,
                        position_index,
                        pointer,
                        mods,
                        doll_rect,
                        s,
                        &rects,
                        g,
                        tolerance,
                    );
                    project.set_slot(active, slot2);
                    (CanvasState::DraggingSlot, lines)
                },
            }
        },
        Interaction::Resize(h) => {
            let mut slot2 = slot_copy;
            let lines = resize_slot_frame(
                &mut slot2,
                position_index,
                h,
                pointer,
                mods,
                doll_rect,
                s,
                &rects,
                tolerance,
            );
            project.set_slot(active, slot2);
            (CanvasState::ResizingSlot, lines)
        },
        Interaction::Anchor => {
            if slot_copy.constrainted {
                return (CanvasState::Idle, Vec::new());
            }
            match session.canvas_original_pos_anchor {
                None => (CanvasState::Idle, Vec::new()),
                Some(a) => {
                    let mut slot2 = slot_copy;
                    let lines = anchor_drag_frame(
                        &mut slot2,
                        position_index,
                        pointer,
                        mods,
                        doll_rect,
                        s,
                        &rects,
                        a,
                        tolerance,
                    );
                    project.set_slot(active, slot2);
                    (CanvasState::DraggingAnchor, lines)
                },
            }
        },
    }
}

} // verus!
