//! Reordering of id lists: candidates within a slot and slots within a
//! doll's z-order move one step or all the way in either direction.

use vstd::prelude::*;

verus! {

/// The index of the first occurrence of `v` in `s`, front to back.
pub open spec fn find_index(s: Seq<u32>, v: u32) -> Option<int>
    decreases s.len(),
{
    if s.len() <= 0 {
        None
    } else if s[0] == v {
        Some(0)
    } else {
        match find_index(s.skip(1), v) {
            None => None,
            Some(i) => Some(i + 1),
        }
    }
}

proof fn lemma_find_index_at(s: Seq<u32>, v: u32, i: int)
    requires
        0 <= i < s.len(),
        s[i] == v,
        forall|k: int| 0 <= k < i ==> s[k] != v,
    ensures
        find_index(s, v) == Some(i),
    decreases i,
{
    if i == 0 {
    } else {
        assert(forall|k: int| 0 <= k < i - 1 ==> s.skip(1)[k] == s[k + 1]);
        lemma_find_index_at(s.skip(1), v, i - 1);
    }
}

proof fn lemma_find_index_none(s: Seq<u32>, v: u32)
    requires
        forall|k: int| 0 <= k < s.len() ==> s[k] != v,
    ensures
        find_index(s, v) is None,
    decreases s.len(),
{
    if s.len() > 0 {
        assert(forall|k: int| 0 <= k < s.skip(1).len() ==> s.skip(1)[k] == s[k + 1]);
        lemma_find_index_none(s.skip(1), v);
    }
}

/// Finds the first occurrence of `element`, returning its index.
fn position_of(vec: &Vec<u32>, element: u32) -> (r: Option<usize>)
    ensures
        match r {
            Some(i) => i < vec@.len() && find_index(vec@, element) == Some(i as int),
            None => find_index(vec@, element) is None,
        },
{
    let n = vec.len();
    let mut i: usize = 0;
    while i < n
        invariant
            n == vec@.len(),
            0 <= i <= n,
            forall|k: int| 0 <= k < i ==> vec@[k] != element,
        decreases n - i,
    {
        if vec[i] == element {
            proof {
                lemma_find_index_at(vec@, element, i as int);
            }
            return Some(i);
        }
        i = i + 1;
    }
    proof {
        lemma_find_index_none(vec@, element);
    }
    None
}

/// The sequence with the entries at `i` and `i + 1` exchanged.
pub open spec fn swapped_next(s: Seq<u32>, i: int) -> Seq<u32> {
    s.update(i, s[i + 1]).update(i + 1, s[i])
}

/// Moves `element` one step toward the end of `vec`; the last occurrence
/// position and absent elements are left alone.
pub fn lower_in_vec(element: u32, vec: &mut Vec<u32>)
    ensures
        final(vec)@ == match find_index(old(vec)@, element) {
            Some(i) => if i < old(vec)@.len() - 1 {
                swapped_next(old(vec)@, i)
            } else {
                old(vec)@
            },
            None => old(vec)@,
        },
{
    match position_of(vec, element) {
        Some(position) => {
            if position < vec.len() - 1 {
                let a = vec[position];
                let b = vec[position + 1];
                vec.set(position, b);
                vec.set(position + 1, a);
            } else {
                proof {
                    assert(vec@ =~= old(vec)@);
                }
            }
        },
        None => {},
    }
}

/// Moves `element` to the very end of `vec`.
pub fn lower_bottom_in_vec(element: u32, vec: &mut Vec<u32>)
    ensures
        final(vec)@ == match find_index(old(vec)@, element) {
            Some(i) => if i < old(vec)@.len() - 1 {
                old(vec)@.remove(i).push(old(vec)@[i])
            } else {
                old(vec)@
            },
            None => old(vec)@,
        },
{
    match position_of(vec, element) {
        Some(position) => {
            if position < vec.len() - 1 {
                let id = vec.remove(position);
                vec.push(id);
            } else {
                proof {
                    assert(vec@ =~= old(vec)@);
                }
            }
        },
        None => {},
    }
}

/// Moves `element` one step toward the front of `vec`.
pub fn raise_in_vec(element: u32, vec: &mut Vec<u32>)
    ensures
        final(vec)@ == match find_index(old(vec)@, element) {
            Some(i) => if i > 0 {
                swapped_next(old(vec)@, i - 1)
            } else {
                old(vec)@
            },
            None => old(vec)@,
        },
{
    match position_of(vec, element) {
        Some(position) => {
            if position > 0 {
                let a = vec[position - 1];
                let b = vec[position];
                vec.set(position - 1, b);
                vec.set(position, a);
            } else {
                proof {
                    assert(vec@ =~= old(vec)@);
                }
            }
        },
        None => {},
    }
}

/// Moves `element` to the very front of `vec`.
pub fn raise_top_in_vec(element: u32, vec: &mut Vec<u32>)
    ensures
        final(vec)@ == match find_index(old(vec)@, element) {
            Some(i) => if i > 0 {
                old(vec)@.remove(i).insert(0, old(vec)@[i])
            } else {
                old(vec)@
            },
            None => old(vec)@,
        },
{
    match position_of(vec, element) {
        Some(position) => {
            if position > 0 {
                let id = vec.remove(position);
                vec.insert(0, id);
            } else {
                proof {
                    assert(vec@ =~= old(vec)@);
                }
            }
        },
        None => {},
    }
}

} // verus!
