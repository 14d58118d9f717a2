//! What every task of a run shares.

use crate::cache::Cache;
use vstd::prelude::*;

verus! {

/// How many files are open at a time at most.
pub const FILE_PERMITS: usize = 100;

/// What every task of a run shares: the cache, and the sizes of the two
/// pools of permits.
pub struct Context {
    pub cache: Cache,
    /// The size of the pool that bounds the open files.
    pub file_permits: usize,
    /// The size of the pool that bounds the running children.
    pub process_permits: usize,
}

impl Context {
    /// The context of a run on a host of the given parallelism: as many
    /// children at a time as the host runs in parallel.
    pub fn new(cache: Cache, parallelism: usize) -> (context: Self)
        ensures
            context.cache == cache,
            context.file_permits == FILE_PERMITS,
            context.process_permits == parallelism,
    {
        Context { cache, file_permits: FILE_PERMITS, process_permits: parallelism }
    }
}

} // verus!
