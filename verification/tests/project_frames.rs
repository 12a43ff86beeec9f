use ppd_editor::basis::collect_basis_rects;
use ppd_editor::control::{handle_cursor, ControlHandle, ResizeCursor};
use ppd_editor::canvas::{CanvasState, DragGesture, EditorSession, Interaction, Modifiers};
use ppd_editor::geom::{Point, Rect, Scale};
use ppd_editor::slot::{Doll, Project, Slot};

fn pt(x: i64, y: i64) -> Point {
    Point { x, y }
}

fn rect(x0: i64, y0: i64, x1: i64, y1: i64) -> Rect {
    Rect { min: pt(x0, y0), max: pt(x1, y1) }
}

fn slot_at(positions: &[(i64, i64)], w: i64, h: i64) -> Slot {
    let mut s = Slot::new(w, h);
    s.positions = positions.iter().map(|&(x, y)| pt(x, y)).collect();
    s
}

fn project_with_two_slots() -> Project {
    let mut project = Project::new();
    project.slots.push((1, slot_at(&[(0, 0)], 50, 50)));
    project.slots.push((2, slot_at(&[(200, 200)], 20, 20)));
    project.dolls.push((1, Doll::new(400, 400)));
    project
}

#[test]
fn project_lookup_finds_by_id() {
    let project = project_with_two_slots();
    assert_eq!(project.get_slot(2).unwrap().width, 20);
    assert!(project.get_slot(9).is_none());
    assert_eq!(project.get_doll(1).unwrap().width, 400);
    assert!(project.get_doll(2).is_none());
}

#[test]
fn basis_rects_start_with_the_doll_and_scale_positions() {
    let project = project_with_two_slots();
    let doll_rect = rect(0, 0, 800, 800);
    let rects = collect_basis_rects(
        &project,
        &vec![2],
        1,
        0,
        doll_rect,
        Scale { num: 2, den: 1 },
    );
    assert_eq!(rects.len(), 2);
    assert_eq!(rects[0], doll_rect);
    assert_eq!(rects[1], rect(400, 400, 440, 440));
}

#[test]
fn basis_excludes_the_edited_position_itself() {
    let project = project_with_two_slots();
    let doll_rect = rect(0, 0, 800, 800);
    let rects = collect_basis_rects(
        &project,
        &vec![2],
        2,
        0,
        doll_rect,
        Scale { num: 1, den: 1 },
    );
    assert_eq!(rects.len(), 1);
    assert_eq!(rects[0], doll_rect);
}

#[test]
fn basis_skips_unknown_slot_ids() {
    let project = project_with_two_slots();
    let doll_rect = rect(0, 0, 800, 800);
    let rects = collect_basis_rects(
        &project,
        &vec![77],
        1,
        0,
        doll_rect,
        Scale { num: 1, den: 1 },
    );
    assert_eq!(rects.len(), 1);
}

fn session_for_slot(id: u32, gesture: Option<DragGesture>) -> EditorSession {
    let mut session = EditorSession::new();
    session.actived_doll = Some(1);
    session.actived_slot = Some(id);
    session.canvas_original_pos_slot_and_drag_offset = gesture;
    session
}

#[test]
fn edit_frame_commits_a_move_into_the_project() {
    let mut project = project_with_two_slots();
    let gesture = DragGesture { origins: vec![pt(0, 0)], drag_offset: pt(0, 0) };
    let session = session_for_slot(1, Some(gesture));
    let (state, _lines) = ppd_editor::canvas::edit_frame(
        &mut project,
        &session,
        0,
        Interaction::Move,
        pt(30, 40),
        Modifiers { ctrl: false, shift: false, alt: true },
        rect(0, 0, 400, 400),
        Scale { num: 1, den: 1 },
        10,
    );
    assert_eq!(state, CanvasState::DraggingSlot);
    assert_eq!(project.get_slot(1).unwrap().positions, vec![pt(30, 40)]);
    // The other slot is untouched.
    assert_eq!(project.get_slot(2).unwrap().positions, vec![pt(200, 200)]);
}

#[test]
fn edit_frame_is_a_no_op_for_a_locked_slot() {
    let mut project = project_with_two_slots();
    let gesture = DragGesture { origins: vec![pt(0, 0)], drag_offset: pt(0, 0) };
    let mut session = session_for_slot(1, Some(gesture));
    session.locked_slots = vec![1];
    let (state, lines) = ppd_editor::canvas::edit_frame(
        &mut project,
        &session,
        0,
        Interaction::Move,
        pt(30, 40),
        Modifiers { ctrl: false, shift: false, alt: true },
        rect(0, 0, 400, 400),
        Scale { num: 1, den: 1 },
        10,
    );
    assert_eq!(state, CanvasState::Idle);
    assert!(lines.is_empty());
    assert_eq!(project.get_slot(1).unwrap().positions, vec![pt(0, 0)]);
}

#[test]
fn edit_frame_cancels_on_a_stale_position_index() {
    // The slot has one position; an index left over from a removed position
    // cancels the drag for this frame instead of committing anything.
    let mut project = project_with_two_slots();
    let gesture = DragGesture { origins: vec![pt(0, 0)], drag_offset: pt(0, 0) };
    let session = session_for_slot(1, Some(gesture));
    let (state, _) = ppd_editor::canvas::edit_frame(
        &mut project,
        &session,
        5,
        Interaction::Move,
        pt(30, 40),
        Modifiers { ctrl: false, shift: false, alt: true },
        rect(0, 0, 400, 400),
        Scale { num: 1, den: 1 },
        10,
    );
    assert_eq!(state, CanvasState::Idle);
    assert_eq!(project.get_slot(1).unwrap().positions, vec![pt(0, 0)]);
}

#[test]
fn edit_frame_without_an_active_slot_is_idle() {
    let mut project = project_with_two_slots();
    let session = EditorSession::new();
    let (state, lines) = ppd_editor::canvas::edit_frame(
        &mut project,
        &session,
        0,
        Interaction::Move,
        pt(30, 40),
        Modifiers { ctrl: false, shift: false, alt: false },
        rect(0, 0, 400, 400),
        Scale { num: 1, den: 1 },
        10,
    );
    assert_eq!(state, CanvasState::Idle);
    assert!(lines.is_empty());
}

#[test]
fn edit_frame_resizes_and_writes_the_shared_dimensions() {
    let mut project = project_with_two_slots();
    let session = session_for_slot(1, None);
    let (state, _) = ppd_editor::canvas::edit_frame(
        &mut project,
        &session,
        0,
        Interaction::Resize(ControlHandle::BottomRight),
        pt(64, 33),
        Modifiers { ctrl: false, shift: false, alt: true },
        rect(0, 0, 400, 400),
        Scale { num: 1, den: 1 },
        10,
    );
    assert_eq!(state, CanvasState::ResizingSlot);
    let updated = project.get_slot(1).unwrap();
    assert_eq!(updated.positions, vec![pt(0, 0)]);
    assert_eq!(updated.width, 64);
    assert_eq!(updated.height, 33);
}

#[test]
fn edit_frame_anchor_on_a_constrained_slot_is_idle() {
    let mut project = Project::new();
    let mut slot = slot_at(&[(0, 0)], 50, 50);
    slot.constrainted = true;
    project.slots.push((1, slot));
    let mut session = session_for_slot(1, None);
    session.canvas_original_pos_anchor = Some(pt(0, 0));
    let (state, _) = ppd_editor::canvas::edit_frame(
        &mut project,
        &session,
        0,
        Interaction::Anchor,
        pt(30, 40),
        Modifiers { ctrl: false, shift: false, alt: false },
        rect(0, 0, 400, 400),
        Scale { num: 1, den: 1 },
        10,
    );
    assert_eq!(state, CanvasState::Idle);
}

#[test]
fn edit_frame_commits_an_anchor_drag() {
    let mut project = project_with_two_slots();
    let mut session = session_for_slot(1, None);
    session.canvas_original_pos_anchor = Some(pt(0, 0));
    let (state, _) = ppd_editor::canvas::edit_frame(
        &mut project,
        &session,
        0,
        Interaction::Anchor,
        pt(30, 40),
        Modifiers { ctrl: false, shift: false, alt: true },
        rect(0, 0, 400, 400),
        Scale { num: 1, den: 1 },
        10,
    );
    assert_eq!(state, CanvasState::DraggingAnchor);
    assert_eq!(project.get_slot(1).unwrap().anchor, pt(30, 40));
}

#[test]
fn snap_in_doll_resolves_the_basis_and_snaps() {
    // Slot 1's corner dragged near slot 2's rectangle at (200,200)-(220,220).
    let project = project_with_two_slots();
    let input = ppd_editor::snap::SnapInput {
        min: Some(ppd_editor::snap::Candidate {
            point: pt(198, 222),
            mode: ppd_editor::snap::SnapType::Both,
        }),
        max: None,
        center: None,
        anchor: None,
    };
    let out = ppd_editor::basis::snap_in_doll(
        &input,
        &project,
        &vec![2],
        1,
        0,
        rect(0, 0, 400, 400),
        Scale { num: 1, den: 1 },
        10,
    );
    assert_eq!(out.min.x, Some(200));
    assert_eq!(out.min.y, Some(220));
}

#[test]
fn resize_handles_report_directional_cursors() {
    assert_eq!(handle_cursor(ControlHandle::TopLeft), ResizeCursor::NwSe);
    assert_eq!(handle_cursor(ControlHandle::TopRight), ResizeCursor::NeSw);
    assert_eq!(handle_cursor(ControlHandle::Top), ResizeCursor::Vertical);
    assert_eq!(handle_cursor(ControlHandle::Left), ResizeCursor::Horizontal);
}

#[test]
fn set_slot_rewrites_only_the_matching_entry() {
    let mut project = project_with_two_slots();
    let replacement = slot_at(&[(9, 9)], 11, 12);
    assert!(project.set_slot(2, replacement));
    assert_eq!(project.get_slot(2).unwrap().positions, vec![pt(9, 9)]);
    assert_eq!(project.get_slot(1).unwrap().positions, vec![pt(0, 0)]);
    let replacement2 = slot_at(&[(1, 1)], 2, 2);
    assert!(!project.set_slot(42, replacement2));
}
