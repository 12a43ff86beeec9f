//! A most-recently-used list with a fixed capacity: pushing an element moves
//! it to the front, removing any earlier occurrence, and drops elements past
//! the capacity from the back.

use vstd::prelude::*;

verus! {

use vstd::std_specs::cmp::PartialEqSpec;

/// The index of the first element of `s` equal to `v`, under the type's own
/// equality.
pub open spec fn find_eq_index<T: PartialEq>(s: Seq<T>, v: T) -> Option<int>
    decreases s.len(),
{
    if s.len() <= 0 {
        None
    } else if s[0].eq_spec(&v) {
        Some(0)
    } else {
        match find_eq_index(s.skip(1), v) {
            None => None,
            Some(i) => Some(i + 1),
        }
    }
}

proof fn lemma_find_eq_index_at<T: PartialEq>(s: Seq<T>, v: T, i: int)
    requires
        0 <= i < s.len(),
        s[i].eq_spec(&v),
        forall|k: int| 0 <= k < i ==> !(#[trigger] s[k]).eq_spec(&v),
    ensures
        find_eq_index(s, v) == Some(i),
    decreases i,
{
    if i == 0 {
    } else {
        assert(forall|k: int| 0 <= k < i - 1 ==> s.skip(1)[k] == s[k + 1]);
        lemma_find_eq_index_at(s.skip(1), v, i - 1);
    }
}

proof fn lemma_find_eq_index_none<T: PartialEq>(s: Seq<T>, v: T)
    requires
        forall|k: int| 0 <= k < s.len() ==> !(#[trigger] s[k]).eq_spec(&v),
    ensures
        find_eq_index(s, v) is None,
    decreases s.len(),
{
    if s.len() > 0 {
        assert(forall|k: int| 0 <= k < s.skip(1).len() ==> s.skip(1)[k] == s[k + 1]);
        lemma_find_eq_index_none(s.skip(1), v);
    }
}

/// The contents after a push: the value at the front, any earlier equal
/// element removed, and the whole truncated to the capacity.
pub open spec fn pushed<T: PartialEq>(s: Seq<T>, v: T, cap: int) -> Seq<T> {
    let cleaned = match find_eq_index(s, v) {
        None => s,
        Some(i) => s.remove(i),
    };
    let joined = seq![v] + cleaned;
    if joined.len() <= cap {
        joined
    } else {
        joined.take(cap)
    }
}

/// A list that keeps at most `capacity` elements, most recent first.
#[derive(Clone, Debug)]
pub struct FixedVec<T: PartialEq + Clone> {
    pub capacity: usize,
    pub data: Vec<T>,
}

impl<T> FixedVec<T> where T: PartialEq + Clone {
    /// An empty list that will keep at most `capacity` elements.
    pub fn new(capacity: usize) -> (r: FixedVec<T>)
        ensures
            r.capacity == capacity,
            r.data@.len() == 0,
    {
        FixedVec { capacity, data: Vec::new() }
    }

    /// Removes every element.
    pub fn clear(&mut self)
        ensures
            final(self).capacity == old(self).capacity,
            final(self).data@.len() == 0,
    {
        self.data.clear();
    }

    /// The elements in order, most recent first.
    pub fn iter(&self) -> (r: &Vec<T>)
        ensures
            r@ == self.data@,
    {
        &self.data
    }

    /// How many elements are held.
    pub fn len(&self) -> (r: usize)
        ensures
            r == self.data@.len(),
    {
        self.data.len()
    }

    /// Finds the first element equal to `value`.
    fn find_eq(&self, value: &T) -> (r: Option<usize>)
        ensures
            r matches Some(i) ==> i < self.data@.len(),
            T::obeys_eq_spec() ==> match r {
                Some(i) => find_eq_index(self.data@, *value) == Some(i as int),
                None => find_eq_index(self.data@, *value) is None,
            },
    {
        let n = self.data.len();
        let mut i: usize = 0;
        while i < n
            invariant
                n == self.data@.len(),
                0 <= i <= n,
                T::obeys_eq_spec() ==> forall|k: int|
                    0 <= k < i ==> !(#[trigger] self.data@[k]).eq_spec(value),
            decreases n - i,
        {
            if self.data[i].eq(value) {
                proof {
                    if T::obeys_eq_spec() {
                        lemma_find_eq_index_at(self.data@, *value, i as int);
                    }
                }
                return Some(i);
            }
            i = i + 1;
        }
        proof {
            if T::obeys_eq_spec() {
                lemma_find_eq_index_none(self.data@, *value);
            }
        }
        None
    }

    /// Puts `value` at the front, removing any earlier equal element, and
    /// drops elements past the capacity from the back.
    pub fn push(&mut self, value: T)
        ensures
            final(self).capacity == old(self).capacity,
            final(self).data@.len() <= old(self).capacity,
            T::obeys_eq_spec() ==> final(self).data@ == pushed(
                old(self).data@,
                value,
                old(self).capacity as int,
            ),
    {
        let found = self.find_eq(&value);
        match found {
            Some(position) => {
                self.data.remove(position);
            },
            None => {},
        }
        self.data.insert(0, value);
        self.data.truncate(self.capacity);
        proof {
            if T::obeys_eq_spec() {
                assert(final(self).data@ =~= pushed(
                    old(self).data@,
                    value,
                    old(self).capacity as int,
                ));
            }
        }
    }

    /// Changes the capacity, dropping elements from the back if there are
    /// now too many; `fill` is never kept, since the list only shrinks.
    pub fn resize(&mut self, size: usize, fill: T)
        ensures
            final(self).capacity == size,
            final(self).data@ == if old(self).data@.len() > size {
                old(self).data@.take(size as int)
            } else {
                old(self).data@
            },
    {
        self.capacity = size;
        if self.data.len() > size {
            self.data.resize(size, fill);
        }
        proof {
            if old(self).data@.len() > size {
                assert(final(self).data@ =~= old(self).data@.take(size as int));
            }
        }
    }
}

} // verus!
