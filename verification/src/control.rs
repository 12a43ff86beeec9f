//! Control-point interaction: the eight resize handles of the active slot
//! rectangle, the whole-rectangle move, and the anchor handle.  Each
//! interaction turns the pointer's current position into proposed corner
//! coordinates and a snap request; it performs no snapping or commitment
//! itself.

use vstd::prelude::*;

verus! {

use crate::geom::{Point, Rect};
use crate::snap::{Candidate, SnapInput, SnapType};

/// The eight resize handles, at the corners and edge midpoints of the
/// active slot position's screen rectangle.
#[derive(Clone, Copy, PartialEq, Eq, Structural, Debug)]
pub enum ControlHandle {
    TopLeft,
    Top,
    TopRight,
    Right,
    BottomRight,
    Bottom,
    BottomLeft,
    Left,
}

/// The directional resize cursor shown while hovering a handle.
#[derive(Clone, Copy, PartialEq, Eq, Structural, Debug)]
pub enum ResizeCursor {
    NwSe,
    NeSw,
    Vertical,
    Horizontal,
}

/// Which coordinate is re-derived from the aspect ratio while a resize drag
/// holds the ratio lock.
#[derive(Clone, Copy, PartialEq, Eq, Structural, Debug)]
pub enum RatioKeepOptions {
    Idle,
    MinX,
    MinY,
    MaxX,
    MaxY,
}

/// The outcome of one frame of dragging a resize handle: the proposed
/// corners, the snap request, and the ratio-lock choice.
#[derive(Clone, Copy, PartialEq, Eq, Structural, Debug)]
pub struct HandleDrag {
    pub min: Point,
    pub max: Point,
    pub snap: SnapInput,
    pub ratio_keep: RatioKeepOptions,
}

/// Half the size of the pre-drag rectangle, rounded down.
pub open spec fn half_size_spec(rect: Rect) -> Point {
    Point {
        x: ((rect.max.x - rect.min.x) / 2) as i64,
        y: ((rect.max.y - rect.min.y) / 2) as i64,
    }
}

/// The sum of two points, read as vectors.
pub open spec fn point_add(a: Point, b: Point) -> Point {
    Point { x: (a.x + b.x) as i64, y: (a.y + b.y) as i64 }
}

/// The difference of two points, read as vectors.
pub open spec fn point_sub(a: Point, b: Point) -> Point {
    Point { x: (a.x - b.x) as i64, y: (a.y - b.y) as i64 }
}

/// The proposed top-left corner after dragging `h` to `pointer`.
pub open spec fn handle_min_spec(h: ControlHandle, pointer: Point, rect: Rect) -> Point {
    match h {
        ControlHandle::TopLeft => pointer,
        ControlHandle::Top => Point { x: rect.min.x, y: pointer.y },
        ControlHandle::TopRight => Point { x: rect.min.x, y: pointer.y },
        ControlHandle::Right => rect.min,
        ControlHandle::BottomRight => rect.min,
        ControlHandle::Bottom => rect.min,
        ControlHandle::BottomLeft => Point { x: pointer.x, y: rect.min.y },
        ControlHandle::Left => Point { x: pointer.x, y: rect.min.y },
    }
}

/// The proposed bottom-right corner after dragging `h` to `pointer`.
pub open spec fn handle_max_spec(h: ControlHandle, pointer: Point, rect: Rect) -> Point {
    match h {
        ControlHandle::TopLeft => rect.max,
        ControlHandle::Top => rect.max,
        ControlHandle::TopRight => Point { x: pointer.x, y: rect.max.y },
        ControlHandle::Right => Point { x: pointer.x, y: rect.max.y },
        ControlHandle::BottomRight => pointer,
        ControlHandle::Bottom => Point { x: rect.max.x, y: pointer.y },
        ControlHandle::BottomLeft => Point { x: rect.max.x, y: pointer.y },
        ControlHandle::Left => rect.max,
    }
}

/// The snap mode of the `min` candidate for handle `h`, if it is requested.
pub open spec fn handle_min_mode(h: ControlHandle) -> Option<SnapType> {
    match h {
        ControlHandle::TopLeft => Some(SnapType::Both),
        ControlHandle::Top => Some(SnapType::Y),
        ControlHandle::TopRight => Some(SnapType::Y),
        ControlHandle::Right => None,
        ControlHandle::BottomRight => None,
        ControlHandle::Bottom => None,
        ControlHandle::BottomLeft => Some(SnapType::X),
        ControlHandle::Left => Some(SnapType::X),
    }
}

/// The snap mode of the `max` candidate for handle `h`, if it is requested.
pub open spec fn handle_max_mode(h: ControlHandle) -> Option<SnapType> {
    match h {
        ControlHandle::TopLeft => None,
        ControlHandle::Top => None,
        ControlHandle::TopRight => Some(SnapType::X),
        ControlHandle::Right => Some(SnapType::X),
        ControlHandle::BottomRight => Some(SnapType::Both),
        ControlHandle::Bottom => Some(SnapType::Y),
        ControlHandle::BottomLeft => Some(SnapType::Y),
        ControlHandle::Left => None,
    }
}

/// The snap mode of the `center` candidate for handle `h`.
pub open spec fn handle_center_mode(h: ControlHandle) -> SnapType {
    match h {
        ControlHandle::TopLeft => SnapType::Both,
        ControlHandle::Top => SnapType::Y,
        ControlHandle::TopRight => SnapType::Both,
        ControlHandle::Right => SnapType::X,
        ControlHandle::BottomRight => SnapType::Both,
        ControlHandle::Bottom => SnapType::Y,
        ControlHandle::BottomLeft => SnapType::Both,
        ControlHandle::Left => SnapType::X,
    }
}

/// The `center` candidate point: the proposed corner plus or minus half the
/// pre-drag size, so that the candidate tracks the dragged edge.
pub open spec fn handle_center_point(h: ControlHandle, new_min: Point, new_max: Point, half: Point) -> Point {
    match h {
        ControlHandle::BottomRight => point_sub(new_max, half),
        ControlHandle::Bottom => point_sub(new_max, half),
        _ => point_add(new_min, half),
    }
}

/// Which coordinate the ratio lock solves for under handle `h`.
pub open spec fn handle_ratio_keep(h: ControlHandle) -> RatioKeepOptions {
    match h {
        ControlHandle::TopLeft => RatioKeepOptions::MinY,
        ControlHandle::Top => RatioKeepOptions::MaxX,
        ControlHandle::TopRight => RatioKeepOptions::MaxX,
        ControlHandle::Right => RatioKeepOptions::MaxY,
        ControlHandle::BottomRight => RatioKeepOptions::MaxX,
        ControlHandle::Bottom => RatioKeepOptions::MaxX,
        ControlHandle::BottomLeft => RatioKeepOptions::MaxY,
        ControlHandle::Left => RatioKeepOptions::MaxY,
    }
}

/// The full proposal of one resize-handle drag frame.
pub open spec fn handle_drag_spec(h: ControlHandle, pointer: Point, rect: Rect, ctrl: bool) -> HandleDrag {
    let new_min = handle_min_spec(h, pointer, rect);
    let new_max = handle_max_spec(h, pointer, rect);
    let half = half_size_spec(rect);
    HandleDrag {
        min: new_min,
        max: new_max,
        snap: SnapInput {
            min: match handle_min_mode(h) {
                None => None,
                Some(t) => Some(Candidate { point: new_min, mode: t }),
            },
            max: match handle_max_mode(h) {
                None => None,
                Some(t) => Some(Candidate { point: new_max, mode: t }),
            },
            center: Some(
                Candidate { point: handle_center_point(h, new_min, new_max, half), mode: handle_center_mode(h) },
            ),
            anchor: None,
        },
        ratio_keep: if ctrl {
            handle_ratio_keep(h)
        } else {
            RatioKeepOptions::Idle
        },
    }
}

/// Turns one frame of dragging resize handle `h` at `pointer` into the
/// proposed corners, the snap request and the ratio-lock choice.
pub fn resize_with_handle(h: ControlHandle, pointer: Point, rect: Rect, ctrl: bool) -> (d: HandleDrag)
    requires
        pointer.fits_wide_spec(),
        rect.fits_wide_spec(),
        rect.min.x <= rect.max.x,
        rect.min.y <= rect.max.y,
    ensures
        d == handle_drag_spec(h, pointer, rect, ctrl),
{
    let half = half_size(rect);
    let new_min: Point;
    let new_max: Point;
    match h {
        ControlHandle::TopLeft => {
            new_min = pointer;
            new_max = rect.max;
        },
        ControlHandle::Top => {
            new_min = Point { x: rect.min.x, y: pointer.y };
            new_max = rect.max;
        },
        ControlHandle::TopRight => {
            new_min = Point { x: rect.min.x, y: pointer.y };
            new_max = Point { x: pointer.x, y: rect.max.y };
        },
        ControlHandle::Right => {
            new_min = rect.min;
            new_max = Point { x: pointer.x, y: rect.max.y };
        },
        ControlHandle::BottomRight => {
            new_min = rect.min;
            new_max = pointer;
        },
        ControlHandle::Bottom => {
            new_min = rect.min;
            new_max = Point { x: rect.max.x, y: pointer.y };
        },
        ControlHandle::BottomLeft => {
            new_min = Point { x: pointer.x, y: rect.min.y };
            new_max = Point { x: rect.max.x, y: pointer.y };
        },
        ControlHandle::Left => {
            new_min = Point { x: pointer.x, y: rect.min.y };
            new_max = rect.max;
        },
    }
    let center_point = match h {
        ControlHandle::BottomRight => Point { x: new_max.x - half.x, y: new_max.y - half.y },
        ControlHandle::Bottom => Point { x: new_max.x - half.x, y: new_max.y - half.y },
        _ => Point { x: new_min.x + half.x, y: new_min.y + half.y },
    };
    let min_cand: Option<Candidate> = match h {
        ControlHandle::TopLeft => Some(Candidate { point: new_min, mode: SnapType::Both }),
        ControlHandle::Top => Some(Candidate { point: new_min, mode: SnapType::Y }),
        ControlHandle::TopRight => Some(Candidate { point: new_min, mode: SnapType::Y }),
        ControlHandle::Right => None,
        ControlHandle::BottomRight => None,
        ControlHandle::Bottom => None,
        ControlHandle::BottomLeft => Some(Candidate { point: new_min, mode: SnapType::X }),
        ControlHandle::Left => Some(Candidate { point: new_min, mode: SnapType::X }),
    };
    let max_cand: Option<Candidate> = match h {
        ControlHandle::TopLeft => None,
        ControlHandle::Top => None,
        ControlHandle::TopRight => Some(Candidate { point: new_max, mode: SnapType::X }),
        ControlHandle::Right => Some(Candidate { point: new_max, mode: SnapType::X }),
        ControlHandle::BottomRight => Some(Candidate { point: new_max, mode: SnapType::Both }),
        ControlHandle::Bottom => Some(Candidate { point: new_max, mode: SnapType::Y }),
        ControlHandle::BottomLeft => Some(Candidate { point: new_max, mode: SnapType::Y }),
        ControlHandle::Left => None,
    };
    let center_mode = match h {
        ControlHandle::TopLeft => SnapType::Both,
        ControlHandle::Top => SnapType::Y,
        ControlHandle::TopRight => SnapType::Both,
        ControlHandle::Right => SnapType::X,
        ControlHandle::BottomRight => SnapType::Both,
        ControlHandle::Bottom => SnapType::Y,
        ControlHandle::BottomLeft => SnapType::Both,
        ControlHandle::Left => SnapType::X,
    };
    let ratio_keep = if ctrl {
        match h {
            ControlHandle::TopLeft => RatioKeepOptions::MinY,
            ControlHandle::Top => RatioKeepOptions::MaxX,
            ControlHandle::TopRight => RatioKeepOptions::MaxX,
            ControlHandle::Right => RatioKeepOptions::MaxY,
            ControlHandle::BottomRight => RatioKeepOptions::MaxX,
            ControlHandle::Bottom => RatioKeepOptions::MaxX,
            ControlHandle::BottomLeft => RatioKeepOptions::MaxY,
            ControlHandle::Left => RatioKeepOptions::MaxY,
        }
    } else {
        RatioKeepOptions::Idle
    };
    HandleDrag {
        min: new_min,
        max: new_max,
        snap: SnapInput {
            min: min_cand,
            max: max_cand,
            center: Some(Candidate { point: center_point, mode: center_mode }),
            anchor: None,
        },
        ratio_keep,
    }
}

/// Computes half the pre-drag size, rounded down.
pub fn half_size(rect: Rect) -> (h: Point)
    requires
        rect.fits_wide_spec(),
        rect.min.x <= rect.max.x,
        rect.min.y <= rect.max.y,
    ensures
        h == half_size_spec(rect),
        0 <= h.x,
        0 <= h.y,
        h.fits_wide_spec(),
{
    let dx = rect.max.x - rect.min.x;
    let dy = rect.max.y - rect.min.y;
    let hx = ((dx as u64) / 2) as i64;
    let hy = ((dy as u64) / 2) as i64;
    proof {
        vstd::arithmetic::div_mod::lemma_div_pos_is_pos(dx as int, 2);
        vstd::arithmetic::div_mod::lemma_div_pos_is_pos(dy as int, 2);
        vstd::arithmetic::div_mod::lemma_div_is_ordered(dx as int, 0x80_0000_0000_0000, 2);
        vstd::arithmetic::div_mod::lemma_div_is_ordered(dy as int, 0x80_0000_0000_0000, 2);
    }
    Point { x: hx, y: hy }
}

/// The directional cursor shown while hovering handle `h`.
pub fn handle_cursor(h: ControlHandle) -> (c: ResizeCursor)
    ensures
        c == match h {
            ControlHandle::TopLeft => ResizeCursor::NwSe,
            ControlHandle::Top => ResizeCursor::Vertical,
            ControlHandle::TopRight => ResizeCursor::NeSw,
            ControlHandle::Right => ResizeCursor::Horizontal,
            ControlHandle::BottomRight => ResizeCursor::NwSe,
            ControlHandle::Bottom => ResizeCursor::Vertical,
            ControlHandle::BottomLeft => ResizeCursor::NeSw,
            ControlHandle::Left => ResizeCursor::Horizontal,
        },
{
    match h {
        ControlHandle::TopLeft => ResizeCursor::NwSe,
        ControlHandle::Top => ResizeCursor::Vertical,
        ControlHandle::TopRight => ResizeCursor::NeSw,
        ControlHandle::Right => ResizeCursor::Horizontal,
        ControlHandle::BottomRight => ResizeCursor::NwSe,
        ControlHandle::Bottom => ResizeCursor::Vertical,
        ControlHandle::BottomLeft => ResizeCursor::NeSw,
        ControlHandle::Left => ResizeCursor::Horizontal,
    }
}

} // verus!
