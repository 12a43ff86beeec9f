use ppd_editor::canvas::{
    anchor_drag_frame, move_slot_frame, resize_slot_frame, AuxiliaryLine, CanvasState,
    DragGesture, EditorSession, Interaction, Modifiers,
};
use ppd_editor::control::ControlHandle;
use ppd_editor::geom::{Point, Rect, Scale};
use ppd_editor::slot::Slot;

fn pt(x: i64, y: i64) -> Point {
    Point { x, y }
}

fn rect(x0: i64, y0: i64, x1: i64, y1: i64) -> Rect {
    Rect { min: pt(x0, y0), max: pt(x1, y1) }
}

fn one() -> Scale {
    Scale { num: 1, den: 1 }
}

fn mods(ctrl: bool, shift: bool, alt: bool) -> Modifiers {
    Modifiers { ctrl, shift, alt }
}

fn doll() -> Rect {
    rect(0, 0, 400, 400)
}

fn slot_at(positions: &[(i64, i64)], w: i64, h: i64) -> Slot {
    let mut s = Slot::new(w, h);
    s.positions = positions.iter().map(|&(x, y)| pt(x, y)).collect();
    s
}

fn still_gesture(positions: &[(i64, i64)]) -> DragGesture {
    DragGesture {
        origins: positions.iter().map(|&(x, y)| pt(x, y)).collect(),
        drag_offset: pt(0, 0),
    }
}

#[test]
fn edge_fit_keeps_size_when_only_left_edge_snaps() {
    // A slot of width 50 dragged so only its left edge lands within
    // tolerance of a reference edge at x = 100: after edge-fit the committed
    // rectangle still spans 50 pixels, from 100 to 150.
    let mut slot = slot_at(&[(0, 0)], 50, 50);
    let gesture = still_gesture(&[(0, 0)]);
    let rects = vec![rect(100, 300, 260, 350)];
    let lines = move_slot_frame(
        &mut slot,
        0,
        pt(98, 10),
        mods(false, false, false),
        doll(),
        one(),
        &rects,
        &gesture,
        10,
    );
    assert_eq!(slot.positions, vec![pt(100, 10)]);
    assert_eq!(slot.width, 50);
    assert_eq!(slot.height, 50);
    assert_eq!(lines, vec![AuxiliaryLine::Vertical(100)]);
}

#[test]
fn edge_fit_rederives_min_when_only_right_edge_snaps() {
    let mut slot = slot_at(&[(0, 0)], 50, 50);
    let gesture = still_gesture(&[(0, 0)]);
    let rects = vec![rect(150, 300, 300, 350)];
    let lines = move_slot_frame(
        &mut slot,
        0,
        pt(98, 10),
        mods(false, false, false),
        doll(),
        one(),
        &rects,
        &gesture,
        10,
    );
    assert_eq!(slot.positions, vec![pt(100, 10)]);
    assert_eq!(lines, vec![AuxiliaryLine::Vertical(150)]);
}

#[test]
fn both_edges_snapping_are_both_kept() {
    // Two reference edges catch both the left and the right edge at once:
    // both snaps are preferred, which the guide lines make visible.
    let a = rect(100, 300, 100, 300);
    let b = rect(152, 300, 152, 300);
    let mut slot = slot_at(&[(0, 0)], 50, 50);
    let gesture = still_gesture(&[(0, 0)]);
    let lines = move_slot_frame(
        &mut slot,
        0,
        pt(98, 10),
        mods(false, false, false),
        doll(),
        one(),
        &vec![a, b],
        &gesture,
        10,
    );
    assert_eq!(slot.positions, vec![pt(100, 10)]);
    assert_eq!(
        lines,
        vec![AuxiliaryLine::Vertical(100), AuxiliaryLine::Vertical(152)]
    );
}

#[test]
fn ratio_lock_solves_height_from_width_and_skips_snapping() {
    // Width 100, height 50 (ratio 2.0): dragging the top-left handle to
    // width 60 with ctrl held yields height 30, and a reference edge within
    // tolerance of the dragged corner is ignored.
    let mut slot = slot_at(&[(0, 0)], 100, 50);
    let distractor = rect(38, 300, 38, 300);
    let lines = resize_slot_frame(
        &mut slot,
        0,
        ControlHandle::TopLeft,
        pt(40, 35),
        mods(true, false, false),
        doll(),
        one(),
        &vec![distractor],
        10,
    );
    assert_eq!(slot.positions, vec![pt(40, 20)]);
    assert_eq!(slot.width, 60);
    assert_eq!(slot.height, 30);
    assert_eq!(lines, vec![]);
}

#[test]
fn resize_without_ratio_lock_snaps_the_dragged_corner() {
    let mut slot = slot_at(&[(0, 0)], 100, 50);
    let distractor = rect(38, 300, 38, 300);
    let _ = resize_slot_frame(
        &mut slot,
        0,
        ControlHandle::TopLeft,
        pt(40, 8),
        mods(false, false, false),
        doll(),
        one(),
        &vec![distractor],
        10,
    );
    // The dragged corner's x snaps to the reference at 38; its y stays raw
    // since no reference y is within tolerance.
    assert_eq!(slot.positions, vec![pt(38, 8)]);
    assert_eq!(slot.width, 62);
    assert_eq!(slot.height, 42);
}

#[test]
fn shift_moves_every_position_by_the_same_delta() {
    // Positions [(0,0), (100,100)]: moving position 0 by (5,5) with shift
    // held moves both; without shift only position 0 moves.
    let mut with_shift = slot_at(&[(0, 0), (100, 100)], 10, 10);
    let gesture = still_gesture(&[(0, 0), (100, 100)]);
    let rects: Vec<Rect> = Vec::new();
    move_slot_frame(
        &mut with_shift,
        0,
        pt(5, 5),
        mods(false, true, false),
        doll(),
        one(),
        &rects,
        &gesture,
        10,
    );
    assert_eq!(with_shift.positions, vec![pt(5, 5), pt(105, 105)]);

    let mut without_shift = slot_at(&[(0, 0), (100, 100)], 10, 10);
    move_slot_frame(
        &mut without_shift,
        0,
        pt(5, 5),
        mods(false, false, false),
        doll(),
        one(),
        &rects,
        &gesture,
        10,
    );
    assert_eq!(without_shift.positions, vec![pt(5, 5), pt(100, 100)]);
}

#[test]
fn axis_restriction_locks_to_the_dominant_axis_for_the_whole_gesture() {
    // Starting a ctrl-move at (10,10): the frame at (13,10) has a (3,0)
    // offset and locks horizontally; the frame at (13,11) keeps y pinned at
    // 10 because the offset is still measured from the gesture origin.
    let gesture = still_gesture(&[(10, 10)]);
    let rects: Vec<Rect> = Vec::new();
    let mut slot = slot_at(&[(10, 10)], 10, 10);
    move_slot_frame(
        &mut slot,
        0,
        pt(13, 10),
        mods(true, false, false),
        doll(),
        one(),
        &rects,
        &gesture,
        10,
    );
    assert_eq!(slot.positions, vec![pt(13, 10)]);
    move_slot_frame(
        &mut slot,
        0,
        pt(13, 11),
        mods(true, false, false),
        doll(),
        one(),
        &rects,
        &gesture,
        10,
    );
    assert_eq!(slot.positions, vec![pt(13, 10)]);
}

#[test]
fn committing_the_same_drag_twice_gives_identical_output() {
    // The commit is recomputed from the gesture memo and the pointer, never
    // from the previous frame's rounded result: repeating a frame with no
    // further input leaves the geometry untouched.
    let gesture = still_gesture(&[(7, 9)]);
    let rects = vec![rect(100, 300, 260, 350)];
    let mut slot = slot_at(&[(7, 9)], 50, 50);
    move_slot_frame(
        &mut slot,
        0,
        pt(98, 10),
        mods(false, false, false),
        doll(),
        one(),
        &rects,
        &gesture,
        10,
    );
    let after_first = slot.positions.clone();
    move_slot_frame(
        &mut slot,
        0,
        pt(98, 10),
        mods(false, false, false),
        doll(),
        one(),
        &rects,
        &gesture,
        10,
    );
    assert_eq!(slot.positions, after_first);
}

#[test]
fn alt_leaves_the_raw_rectangle_despite_nearby_references() {
    let mut slot = slot_at(&[(0, 0)], 50, 50);
    let gesture = still_gesture(&[(0, 0)]);
    let rects = vec![rect(100, 300, 260, 350)];
    let lines = move_slot_frame(
        &mut slot,
        0,
        pt(98, 10),
        mods(false, false, true),
        doll(),
        one(),
        &rects,
        &gesture,
        10,
    );
    assert_eq!(slot.positions, vec![pt(98, 10)]);
    assert_eq!(lines, vec![]);
}

#[test]
fn alt_resize_leaves_the_raw_corner() {
    let mut slot = slot_at(&[(0, 0)], 100, 50);
    let distractor = rect(38, 300, 38, 300);
    let lines = resize_slot_frame(
        &mut slot,
        0,
        ControlHandle::TopLeft,
        pt(40, 8),
        mods(false, false, true),
        doll(),
        one(),
        &vec![distractor],
        10,
    );
    assert_eq!(slot.positions, vec![pt(40, 8)]);
    assert_eq!(slot.width, 60);
    assert_eq!(slot.height, 42);
    assert_eq!(lines, vec![]);
}

#[test]
fn resize_clamps_dimensions_to_at_least_one_pixel() {
    // Dragging the right edge past the left edge cannot produce a zero or
    // negative width.
    let mut slot = slot_at(&[(50, 50)], 20, 20);
    let rects: Vec<Rect> = Vec::new();
    resize_slot_frame(
        &mut slot,
        0,
        ControlHandle::Right,
        pt(10, 60),
        mods(false, false, true),
        doll(),
        one(),
        &rects,
        10,
    );
    assert_eq!(slot.width, 1);
    assert_eq!(slot.height, 20);
}

#[test]
fn anchor_drag_snaps_and_commits_slot_local() {
    let mut slot = slot_at(&[(0, 0)], 100, 50);
    slot.anchor = pt(10, 10);
    let marker = rect(30, 40, 30, 40);
    let lines = anchor_drag_frame(
        &mut slot,
        0,
        pt(25, 33),
        mods(false, false, false),
        doll(),
        one(),
        &vec![marker],
        pt(10, 10),
        10,
    );
    assert_eq!(slot.anchor, pt(30, 40));
    assert_eq!(
        lines,
        vec![AuxiliaryLine::Vertical(30), AuxiliaryLine::Horizontal(40)]
    );
}

#[test]
fn anchor_ctrl_restricts_to_the_axis_that_changed_more() {
    let mut slot = slot_at(&[(0, 0)], 100, 50);
    slot.anchor = pt(10, 10);
    let marker = rect(30, 40, 30, 40);
    anchor_drag_frame(
        &mut slot,
        0,
        pt(25, 33),
        mods(true, false, false),
        doll(),
        one(),
        &vec![marker],
        pt(10, 10),
        10,
    );
    // The anchor moved 20 horizontally and 30 vertically from its origin:
    // the vertical change dominates, so x is pinned to the origin.
    assert_eq!(slot.anchor, pt(10, 40));
}

#[test]
fn interaction_states_drive_the_status_bar() {
    assert_eq!(
        ppd_editor::canvas::interaction_state(Interaction::Move),
        CanvasState::DraggingSlot
    );
    assert_eq!(
        ppd_editor::canvas::interaction_state(Interaction::Resize(ControlHandle::Top)),
        CanvasState::ResizingSlot
    );
    assert_eq!(
        ppd_editor::canvas::interaction_state(Interaction::Anchor),
        CanvasState::DraggingAnchor
    );
    assert_eq!(CanvasState::default(), CanvasState::Idle);
}

#[test]
fn session_memoizes_a_gesture_once_and_clears_it_on_release() {
    let mut session = EditorSession::new();
    let slot = slot_at(&[(7, 9)], 50, 50);
    session.begin_slot_drag(&slot, 0, pt(98, 10), doll(), one());
    {
        let g = session
            .canvas_original_pos_slot_and_drag_offset
            .as_ref()
            .unwrap();
        assert_eq!(g.origins, vec![pt(7, 9)]);
        assert_eq!(g.drag_offset, pt(91, 1));
    }
    // A second frame of the same gesture keeps the original memo.
    session.begin_slot_drag(&slot, 0, pt(120, 40), doll(), one());
    {
        let g = session
            .canvas_original_pos_slot_and_drag_offset
            .as_ref()
            .unwrap();
        assert_eq!(g.drag_offset, pt(91, 1));
    }
    session.begin_anchor_drag(&slot);
    assert_eq!(session.canvas_original_pos_anchor, Some(pt(0, 0)));
    session.end_drag();
    assert!(session.canvas_original_pos_slot_and_drag_offset.is_none());
    assert!(session.canvas_original_pos_anchor.is_none());
}

#[test]
fn center_snap_moves_both_edges_and_keeps_the_size() {
    // The dragged rectangle's center lands within tolerance of a reference
    // point at (125, 35): both edges follow the center, the size stays 50.
    let mut slot = slot_at(&[(0, 0)], 50, 50);
    let gesture = still_gesture(&[(0, 0)]);
    let marker = rect(125, 35, 125, 35);
    let lines = move_slot_frame(
        &mut slot,
        0,
        pt(98, 10),
        mods(false, false, false),
        doll(),
        one(),
        &vec![marker],
        &gesture,
        10,
    );
    assert_eq!(slot.positions, vec![pt(100, 10)]);
    assert_eq!(slot.width, 50);
    assert_eq!(
        lines,
        vec![AuxiliaryLine::Vertical(125), AuxiliaryLine::Horizontal(35)]
    );
}

#[test]
fn vertical_restriction_pins_x_and_ignores_horizontal_snaps() {
    let mut slot = slot_at(&[(10, 10)], 10, 10);
    let gesture = still_gesture(&[(10, 10)]);
    let distractor = rect(13, 300, 13, 300);
    move_slot_frame(
        &mut slot,
        0,
        pt(11, 20),
        mods(true, false, false),
        doll(),
        one(),
        &vec![distractor],
        &gesture,
        10,
    );
    // The vertical offset (10) dominates the horizontal one (1): x stays at
    // the gesture origin even though a reference edge sits 2 pixels away.
    assert_eq!(slot.positions, vec![pt(10, 20)]);
}

#[test]
fn commit_divides_by_the_zoom_and_rounds_to_the_nearest_pixel() {
    let mut slot = slot_at(&[(0, 0)], 50, 50);
    let gesture = still_gesture(&[(0, 0)]);
    let rects: Vec<Rect> = Vec::new();
    move_slot_frame(
        &mut slot,
        0,
        pt(31, 7),
        mods(false, false, false),
        doll(),
        Scale { num: 2, den: 1 },
        &rects,
        &gesture,
        10,
    );
    // Screen (31, 7) at zoom 2 commits to doll-local (16, 4): 15.5 and 3.5
    // round away from zero.
    assert_eq!(slot.positions, vec![pt(16, 4)]);
}
