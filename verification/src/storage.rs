//! Session storage the host persists between runs: the recently opened
//! files, most recent first.

use vstd::prelude::*;

verus! {

use crate::fixed_vec::FixedVec;

/// How many recent files are remembered.
pub const RECENT_FILE_COUNT: usize = 5;

/// What the editor keeps in the host's persistent storage.
#[derive(Clone, Debug)]
pub struct Storage {
    /// Paths of recently opened documents, most recent first.
    pub recent_files: FixedVec<String>,
}

impl Default for Storage {
    fn default() -> (s: Storage)
        ensures
            s.recent_files.capacity == RECENT_FILE_COUNT,
            s.recent_files.data@.len() == 0,
    {
        Storage { recent_files: FixedVec::new(RECENT_FILE_COUNT) }
    }
}

} // verus!
