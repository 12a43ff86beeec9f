//! The basis resolver: the reference rectangles a slot position snaps
//! against.  These are always the doll rectangle itself, plus the screen
//! rectangle of every position of every slot flagged as an alignment basis,
//! excluding the position currently being edited.

use vstd::prelude::*;

verus! {

use crate::geom::{scale_spec, Point, Rect, Scale};
use crate::slot::{find_entry, Project, Slot};
use crate::snap::{drag_snap, snap_x, snap_y, opt_int, SnapInput, SnapOutput};

/// The screen rectangle of one slot position: the doll origin plus the
/// scaled position, spanning the scaled slot size.
pub open spec fn screen_rect_spec(
    pos: Point,
    width: int,
    height: int,
    doll_min: Point,
    s: Scale,
) -> Rect {
    let minx = doll_min.x + scale_spec(pos.x as int, s);
    let miny = doll_min.y + scale_spec(pos.y as int, s);
    Rect {
        min: Point { x: minx as i64, y: miny as i64 },
        max: Point {
            x: (minx + scale_spec(width, s)) as i64,
            y: (miny + scale_spec(height, s)) as i64,
        },
    }
}

/// The reference rectangles contributed by the first `upto` positions of one
/// basis slot, excluding the active position of the active slot.
pub open spec fn slot_basis_rects(
    slot: Slot,
    id: u32,
    active_slot: u32,
    active_index: int,
    doll_min: Point,
    s: Scale,
    upto: int,
) -> Seq<Rect>
    decreases upto,
{
    if upto <= 0 {
        Seq::empty()
    } else {
        let prefix = slot_basis_rects(slot, id, active_slot, active_index, doll_min, s, upto - 1);
        if id == active_slot && upto - 1 == active_index {
            prefix
        } else {
            prefix.push(
                screen_rect_spec(
                    slot.positions@[upto - 1],
                    slot.width as int,
                    slot.height as int,
                    doll_min,
                    s,
                ),
            )
        }
    }
}

/// The reference rectangles contributed by a list of basis slot ids; ids
/// that resolve to no slot contribute nothing.
pub open spec fn ids_basis_rects(
    ids: Seq<u32>,
    slots: Seq<(u32, Slot)>,
    active_slot: u32,
    active_index: int,
    doll_min: Point,
    s: Scale,
) -> Seq<Rect>
    decreases ids.len(),
{
    if ids.len() <= 0 {
        Seq::empty()
    } else {
        let head = match find_entry(slots, ids[0]) {
            None => Seq::<Rect>::empty(),
            Some(slot) => slot_basis_rects(
                slot,
                ids[0],
                active_slot,
                active_index,
                doll_min,
                s,
                slot.positions@.len() as int,
            ),
        };
        head + ids_basis_rects(ids.skip(1), slots, active_slot, active_index, doll_min, s)
    }
}

/// The full basis list: the doll rectangle first, then every basis slot's
/// rectangles in order.
pub open spec fn basis_rects_spec(
    doll_rect: Rect,
    ids: Seq<u32>,
    slots: Seq<(u32, Slot)>,
    active_slot: u32,
    active_index: int,
    s: Scale,
) -> Seq<Rect> {
    seq![doll_rect] + ids_basis_rects(ids, slots, active_slot, active_index, doll_rect.min, s)
}

/// Computes the screen rectangle of one slot position.
pub fn screen_rect(pos: Point, width: i64, height: i64, doll_min: Point, s: Scale) -> (r: Rect)
    requires
        s.wf(),
        pos.fits_spec(),
        doll_min.fits_spec(),
        0 <= width <= crate::geom::COORD_LIMIT,
        0 <= height <= crate::geom::COORD_LIMIT,
    ensures
        r == screen_rect_spec(pos, width as int, height as int, doll_min, s),
        r.fits_wide_spec(),
        r.min.x <= r.max.x,
        r.min.y <= r.max.y,
        0 <= r.max.x - r.min.x <= 0x4_0000_0000_0000,
        0 <= r.max.y - r.min.y <= 0x4_0000_0000_0000,
        r.max.x - r.min.x == scale_spec(width as int, s),
        r.max.y - r.min.y == scale_spec(height as int, s),
{
    let minx = doll_min.x + crate::geom::scale_value(pos.x, s);
    let miny = doll_min.y + crate::geom::scale_value(pos.y, s);
    let sw = crate::geom::scale_value(width, s);
    let sh = crate::geom::scale_value(height, s);
    let maxx = minx + sw;
    let maxy = miny + sh;
    Rect { min: Point { x: minx, y: miny }, max: Point { x: maxx, y: maxy } }
}

/// Collects the reference rectangles for editing `active_index` of slot
/// `active_slot`: the doll rectangle, then the rectangles of every position
/// of every basis slot, skipping the edited position itself.
pub fn collect_basis_rects(
    project: &Project,
    basis_ids: &Vec<u32>,
    active_slot: u32,
    active_index: usize,
    doll_rect: Rect,
    s: Scale,
) -> (rects: Vec<Rect>)
    requires
        project.wf(),
        s.wf(),
        doll_rect.fits_spec(),
    ensures
        rects@ == basis_rects_spec(
            doll_rect,
            basis_ids@,
            project.slots@,
            active_slot,
            active_index as int,
            s,
        ),
        forall|k: int| 0 <= k < rects@.len() ==> (#[trigger] rects@[k]).fits_wide_spec(),
{
    let ghost ids = basis_ids@;
    let ghost slots = project.slots@;
    let ghost doll_min = doll_rect.min;
    let mut rects: Vec<Rect> = Vec::new();
    rects.push(doll_rect);
    proof {
        assert(ids.skip(0) =~= ids);
        assert(rects@ =~= seq![doll_rect]);
    }
    let n = basis_ids.len();
    let mut i: usize = 0;
    while i < n
        invariant
            ids == basis_ids@,
            slots == project.slots@,
            doll_min == doll_rect.min,
            project.wf(),
            s.wf(),
            doll_rect.fits_spec(),
            n == ids.len(),
            0 <= i <= n,
            rects@ + ids_basis_rects(
                ids.skip(i as int),
                slots,
                active_slot,
                active_index as int,
                doll_min,
                s,
            ) == basis_rects_spec(
                doll_rect,
                ids,
                slots,
                active_slot,
                active_index as int,
                s,
            ),
            forall|k: int| 0 <= k < rects@.len() ==> (#[trigger] rects@[k]).fits_wide_spec(),
        decreases n - i,
    {
        let id = basis_ids[i];
        proof {
            assert(ids.skip(i as int)[0] == ids[i as int]);
            assert(ids.skip(i as int).skip(1) =~= ids.skip(i + 1));
        }
        match project.get_slot(id) {
            None => {
                proof {
                    assert(ids_basis_rects(
                        ids.skip(i as int),
                        slots,
                        active_slot,
                        active_index as int,
                        doll_min,
                        s,
                    ) =~= Seq::<Rect>::empty() + ids_basis_rects(
                        ids.skip(i + 1),
                        slots,
                        active_slot,
                        active_index as int,
                        doll_min,
                        s,
                    ));
                }
            },
            Some(slot) => {
                proof {
                    project.lemma_found_slot_wf(id);
                }
                let ghost rects_before = rects@;
                let m = slot.positions.len();
                let mut pi: usize = 0;
                while pi < m
                    invariant
                        slot.wf(),
                        s.wf(),
                        doll_min == doll_rect.min,
                        doll_rect.fits_spec(),
                        m == slot.positions@.len(),
                        0 <= pi <= m,
                        rects@ == rects_before + slot_basis_rects(
                            *slot,
                            id,
                            active_slot,
                            active_index as int,
                            doll_min,
                            s,
                            pi as int,
                        ),
                        forall|k: int|
                            0 <= k < rects@.len() ==> (#[trigger] rects@[k]).fits_wide_spec(),
                    decreases m - pi,
                {
                    if !(id == active_slot && pi == active_index) {
                        let r = screen_rect(
                            slot.positions[pi],
                            slot.width,
                            slot.height,
                            doll_rect.min,
                            s,
                        );
                        rects.push(r);
                    }
                    pi = pi + 1;
                }
                proof {
                    assert(find_entry(slots, id) == Some(*slot));
                    assert(ids_basis_rects(
                        ids.skip(i as int),
                        slots,
                        active_slot,
                        active_index as int,
                        doll_min,
                        s,
                    ) == slot_basis_rects(
                        *slot,
                        id,
                        active_slot,
                        active_index as int,
                        doll_min,
                        s,
                        m as int,
                    ) + ids_basis_rects(
                        ids.skip(i + 1),
                        slots,
                        active_slot,
                        active_index as int,
                        doll_min,
                        s,
                    ));
                    assert(rects@ + ids_basis_rects(
                        ids.skip(i + 1),
                        slots,
                        active_slot,
                        active_index as int,
                        doll_min,
                        s,
                    ) =~= (rects_before + slot_basis_rects(
                        *slot,
                        id,
                        active_slot,
                        active_index as int,
                        doll_min,
                        s,
                        m as int,
                    )) + ids_basis_rects(
                        ids.skip(i + 1),
                        slots,
                        active_slot,
                        active_index as int,
                        doll_min,
                        s,
                    ));
                    assert((rects_before + slot_basis_rects(
                        *slot,
                        id,
                        active_slot,
                        active_index as int,
                        doll_min,
                        s,
                        m as int,
                    )) + ids_basis_rects(
                        ids.skip(i + 1),
                        slots,
                        active_slot,
                        active_index as int,
                        doll_min,
                        s,
                    ) =~= rects_before + (slot_basis_rects(
                        *slot,
                        id,
                        active_slot,
                        active_index as int,
                        doll_min,
                        s,
                        m as int,
                    ) + ids_basis_rects(
                        ids.skip(i + 1),
                        slots,
                        active_slot,
                        active_index as int,
                        doll_min,
                        s,
                    )));
                }
            },
        }
        i = i + 1;
    }
    proof {
        assert(ids.skip(n as int) =~= Seq::<u32>::empty());
        assert(rects@ + Seq::<Rect>::empty() =~= rects@);
    }
    rects
}

/// Resolves the basis rectangles and runs the snap engine against them: the
/// snap request of one frame of editing inside a doll.
pub fn snap_in_doll(
    input: &SnapInput,
    project: &Project,
    basis_ids: &Vec<u32>,
    active_slot: u32,
    active_index: usize,
    doll_rect: Rect,
    s: Scale,
    tolerance: i64,
) -> (output: SnapOutput)
    requires
        project.wf(),
        s.wf(),
        doll_rect.fits_spec(),
    ensures
        ({
            let rects = basis_rects_spec(
                doll_rect,
                basis_ids@,
                project.slots@,
                active_slot,
                active_index as int,
                s,
            );
            &&& opt_int(output.min.x) == snap_x(input.min, rects, tolerance as int)
            &&& opt_int(output.min.y) == snap_y(input.min, rects, tolerance as int)
            &&& opt_int(output.max.x) == snap_x(input.max, rects, tolerance as int)
            &&& opt_int(output.max.y) == snap_y(input.max, rects, tolerance as int)
            &&& opt_int(output.center.x) == snap_x(input.center, rects, tolerance as int)
            &&& opt_int(output.center.y) == snap_y(input.center, rects, tolerance as int)
            &&& opt_int(output.anchor.x) == snap_x(input.anchor, rects, tolerance as int)
            &&& opt_int(output.anchor.y) == snap_y(input.anchor, rects, tolerance as int)
        }),
{
    let rects = collect_basis_rects(project, basis_ids, active_slot, active_index, doll_rect, s);
    drag_snap(input, &rects, tolerance)
}

} // verus!
