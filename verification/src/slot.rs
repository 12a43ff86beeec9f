//! The geometry records the editor reads and rewrites: slots, dolls, and the
//! project store that holds them by id.

use vstd::prelude::*;

verus! {

use crate::geom::{Point, COORD_LIMIT};

/// One rectangular placement region of a doll.  A slot may occupy several
/// positions at once; all of them share the slot's width, height and anchor.
#[derive(Clone, Debug)]
pub struct Slot {
    /// Top-left corner of each occurrence, in doll-local pixels.
    pub positions: Vec<Point>,
    /// Shared width of every occurrence, in doll-local pixels.
    pub width: i64,
    /// Shared height of every occurrence, in doll-local pixels.
    pub height: i64,
    /// Where a fragment's pivot is aligned, in slot-local pixels; meaningful
    /// only when the slot is not constrained.
    pub anchor: Point,
    /// When set, the displayed fragment is stretched to fill the slot
    /// rectangle and the anchor is ignored.
    pub constrainted: bool,
    /// Whether the viewer insists on a fragment being assigned.
    pub required: bool,
    /// The fragment ids eligible for this slot, in display order.
    pub candidates: Vec<u32>,
}

impl Slot {
    /// A slot always occupies at least one position, and its dimensions are
    /// at least one pixel and within the editor's working range.
    pub open spec fn wf(&self) -> bool {
        &&& self.positions@.len() >= 1
        &&& forall|i: int|
            0 <= i < self.positions@.len() ==> (#[trigger] self.positions@[i]).fits_spec()
        &&& 1 <= self.width <= COORD_LIMIT
        &&& 1 <= self.height <= COORD_LIMIT
        &&& self.anchor.fits_spec()
    }

    /// A fresh slot of the given size with a single position at the origin.
    pub fn new(width: i64, height: i64) -> (s: Slot)
        requires
            1 <= width <= COORD_LIMIT,
            1 <= height <= COORD_LIMIT,
        ensures
            s.wf(),
            s.width == width,
            s.height == height,
            s.positions@.len() == 1,
            s.positions@[0] == (Point { x: 0, y: 0 }),
            s.anchor == (Point { x: 0, y: 0 }),
            !s.constrainted,
            !s.required,
            s.candidates@.len() == 0,
    {
        let mut positions: Vec<Point> = Vec::new();
        positions.push(Point { x: 0, y: 0 });
        Slot {
            positions,
            width,
            height,
            anchor: Point { x: 0, y: 0 },
            constrainted: false,
            required: false,
            candidates: Vec::new(),
        }
    }
}

impl Slot {
    /// An exact copy of this slot's geometry and candidates.
    pub fn duplicate(&self) -> (s: Slot)
        ensures
            s.positions@ == self.positions@,
            s.width == self.width,
            s.height == self.height,
            s.anchor == self.anchor,
            s.constrainted == self.constrainted,
            s.required == self.required,
            s.candidates@ == self.candidates@,
    {
        let mut positions: Vec<Point> = Vec::new();
        let mut i: usize = 0;
        let n = self.positions.len();
        while i < n
            invariant
                n == self.positions@.len(),
                0 <= i <= n,
                positions@ == self.positions@.take(i as int),
            decreases n - i,
        {
            positions.push(self.positions[i]);
            proof {
                assert(positions@ =~= self.positions@.take(i + 1));
            }
            i = i + 1;
        }
        let mut candidates: Vec<u32> = Vec::new();
        let mut j: usize = 0;
        let m = self.candidates.len();
        while j < m
            invariant
                m == self.candidates@.len(),
                0 <= j <= m,
                candidates@ == self.candidates@.take(j as int),
            decreases m - j,
        {
            candidates.push(self.candidates[j]);
            proof {
                assert(candidates@ =~= self.candidates@.take(j + 1));
            }
            j = j + 1;
        }
        proof {
            assert(positions@ =~= self.positions@);
            assert(candidates@ =~= self.candidates@);
        }
        Slot {
            positions,
            width: self.width,
            height: self.height,
            anchor: self.anchor,
            constrainted: self.constrainted,
            required: self.required,
            candidates,
        }
    }
}

/// A base canvas onto which slots are placed.  The order of `slots` is the
/// z-order: later ids are drawn on top.
#[derive(Clone, Debug)]
pub struct Doll {
    pub width: i64,
    pub height: i64,
    /// Placement of the background image, in doll-local pixels.
    pub offset: Point,
    /// The ids of the slots placed on this doll, bottom first.
    pub slots: Vec<u32>,
}

impl Doll {
    pub open spec fn wf(&self) -> bool {
        &&& 0 <= self.width <= COORD_LIMIT
        &&& 0 <= self.height <= COORD_LIMIT
        &&& self.offset.fits_spec()
    }

    /// A fresh doll of the given size with no slots.
    pub fn new(width: i64, height: i64) -> (d: Doll)
        requires
            0 <= width <= COORD_LIMIT,
            0 <= height <= COORD_LIMIT,
        ensures
            d.wf(),
            d.width == width,
            d.height == height,
            d.offset == (Point { x: 0, y: 0 }),
            d.slots@.len() == 0,
    {
        Doll { width, height, offset: Point { x: 0, y: 0 }, slots: Vec::new() }
    }
}

/// The first entry of `s` keyed by `id`, searched front to back.
pub open spec fn find_entry<T>(s: Seq<(u32, T)>, id: u32) -> Option<T>
    decreases s.len(),
{
    if s.len() <= 0 {
        None
    } else if s[0].0 == id {
        Some(s[0].1)
    } else {
        find_entry(s.skip(1), id)
    }
}

/// The project data store: slot and doll records, readable by id.
#[derive(Clone, Debug)]
pub struct Project {
    pub slots: Vec<(u32, Slot)>,
    pub dolls: Vec<(u32, Doll)>,
}

impl Project {
    /// Every slot is well formed and every id appears at most once.
    pub open spec fn wf(&self) -> bool {
        &&& forall|i: int| 0 <= i < self.slots@.len() ==> (#[trigger] self.slots@[i]).1.wf()
        &&& forall|i: int, j: int|
            0 <= i < j < self.slots@.len() ==> self.slots@[i].0 != self.slots@[j].0
        &&& forall|i: int| 0 <= i < self.dolls@.len() ==> (#[trigger] self.dolls@[i]).1.wf()
        &&& forall|i: int, j: int|
            0 <= i < j < self.dolls@.len() ==> self.dolls@[i].0 != self.dolls@[j].0
    }

    /// An empty project.
    pub fn new() -> (p: Project)
        ensures
            p.wf(),
            p.slots@.len() == 0,
            p.dolls@.len() == 0,
    {
        Project { slots: Vec::new(), dolls: Vec::new() }
    }

    /// Looks a slot up by id.
    pub fn get_slot(&self, id: u32) -> (r: Option<&Slot>)
        ensures
            match r {
                Some(slot) => find_entry(self.slots@, id) == Some(*slot),
                None => find_entry(self.slots@, id) is None,
            },
    {
        let ghost entries = self.slots@;
        proof {
            assert(entries.skip(0) =~= entries);
        }
        let n = self.slots.len();
        let mut i: usize = 0;
        while i < n
            invariant
                entries == self.slots@,
                n == entries.len(),
                0 <= i <= n,
                find_entry(entries.skip(i as int), id) == find_entry(entries, id),
            decreases n - i,
        {
            proof {
                assert(entries.skip(i as int)[0] == entries[i as int]);
                assert(entries.skip(i as int).skip(1) =~= entries.skip(i + 1));
            }
            if self.slots[i].0 == id {
                return Some(&self.slots[i].1);
            }
            i = i + 1;
        }
        proof {
            assert(entries.skip(n as int) =~= Seq::<(u32, Slot)>::empty());
        }
        None
    }

    /// Looks a doll up by id.
    pub fn get_doll(&self, id: u32) -> (r: Option<&Doll>)
        ensures
            match r {
                Some(doll) => find_entry(self.dolls@, id) == Some(*doll),
                None => find_entry(self.dolls@, id) is None,
            },
    {
        let ghost entries = self.dolls@;
        proof {
            assert(entries.skip(0) =~= entries);
        }
        let n = self.dolls.len();
        let mut i: usize = 0;
        while i < n
            invariant
                entries == self.dolls@,
                n == entries.len(),
                0 <= i <= n,
                find_entry(entries.skip(i as int), id) == find_entry(entries, id),
            decreases n - i,
        {
            proof {
                assert(entries.skip(i as int)[0] == entries[i as int]);
                assert(entries.skip(i as int).skip(1) =~= entries.skip(i + 1));
            }
            if self.dolls[i].0 == id {
                return Some(&self.dolls[i].1);
            }
            i = i + 1;
        }
        proof {
            assert(entries.skip(n as int) =~= Seq::<(u32, Doll)>::empty());
        }
        None
    }

    /// Rewrites the slot stored under `id`; a miss changes nothing.
    pub fn set_slot(&mut self, id: u32, slot: Slot) -> (ok: bool)
        requires
            old(self).wf(),
            slot.wf(),
        ensures
            final(self).wf(),
            final(self).dolls@ == old(self).dolls@,
            final(self).slots@.len() == old(self).slots@.len(),
            forall|j: int|
                0 <= j < old(self).slots@.len() ==> (#[trigger] final(self).slots@[j]).0 == old(
                    self,
                ).slots@[j].0,
            forall|j: int|
                0 <= j < old(self).slots@.len() && (#[trigger] old(self).slots@[j]).0 != id
                    ==> final(self).slots@[j] == old(self).slots@[j],
            forall|j: int|
                0 <= j < old(self).slots@.len() && (#[trigger] old(self).slots@[j]).0 == id
                    ==> final(self).slots@[j].1 == slot,
            ok == (find_entry(old(self).slots@, id) is Some),
    {
        let ghost entries = self.slots@;
        proof {
            assert(entries.skip(0) =~= entries);
        }
        let n = self.slots.len();
        let mut i: usize = 0;
        while i < n
            invariant
                old(self).wf(),
                slot.wf(),
                entries == old(self).slots@,
                self.slots@ == entries,
                self.dolls@ == old(self).dolls@,
                n == entries.len(),
                0 <= i <= n,
                forall|k: int| 0 <= k < i ==> (#[trigger] entries[k]).0 != id,
                find_entry(entries.skip(i as int), id) == find_entry(entries, id),
            decreases n - i,
        {
            proof {
                assert(entries.skip(i as int)[0] == entries[i as int]);
                assert(entries.skip(i as int).skip(1) =~= entries.skip(i + 1));
            }
            if self.slots[i].0 == id {
                self.slots.set(i, (id, slot));
                proof {
                    assert forall|j: int|
                        0 <= j < old(self).slots@.len() && (#[trigger] old(self).slots@[j]).0
                            == id implies self.slots@[j].1 == slot by {
                        if j < i as int {
                            assert(entries[j].0 != id);
                        }
                        if j > i as int {
                            assert(old(self).slots@[i as int].0 != old(self).slots@[j].0);
                        }
                        assert(j == i as int);
                    }
                    assert forall|j: int|
                        0 <= j < self.slots@.len() implies (#[trigger] self.slots@[j]).1.wf() by {
                        if j != i as int {
                            assert(self.slots@[j] == old(self).slots@[j]);
                        }
                    }
                    assert forall|j: int, k: int|
                        0 <= j < k < self.slots@.len() implies self.slots@[j].0 != self.slots@[
                        k].0 by {
                        assert(self.slots@[j].0 == old(self).slots@[j].0);
                        assert(self.slots@[k].0 == old(self).slots@[k].0);
                    }
                }
                return true;
            }
            i = i + 1;
        }
        proof {
            assert(entries.skip(n as int) =~= Seq::<(u32, Slot)>::empty());
        }
        false
    }

    /// A found slot is well formed.
    pub proof fn lemma_found_slot_wf(&self, id: u32)
        requires
            self.wf(),
            find_entry(self.slots@, id) is Some,
        ensures
            find_entry(self.slots@, id)->Some_0.wf(),
    {
        lemma_find_entry_is_entry(self.slots@, id);
        let i = choose|i: int|
            0 <= i < self.slots@.len() && self.slots@[i].0 == id && find_entry(self.slots@, id)
                == Some(self.slots@[i].1);
        assert(self.slots@[i].1.wf());
    }
}

/// A successful lookup returns the payload of some entry with that key.
pub proof fn lemma_find_entry_is_entry<T>(s: Seq<(u32, T)>, id: u32)
    requires
        find_entry(s, id) is Some,
    ensures
        exists|i: int|
            0 <= i < s.len() && (#[trigger] s[i]).0 == id && find_entry(s, id) == Some(s[i].1),
    decreases s.len(),
{
    if s.len() > 0 {
        if s[0].0 == id {
            assert(s[0].0 == id && find_entry(s, id) == Some(s[0].1));
        } else {
            lemma_find_entry_is_entry(s.skip(1), id);
            let i = choose|i: int|
                0 <= i < s.skip(1).len() && (#[trigger] s.skip(1)[i]).0 == id && find_entry(
                    s.skip(1),
                    id,
                ) == Some(s.skip(1)[i].1);
            assert(s[i + 1] == s.skip(1)[i]);
        }
    }
}

} // verus!
