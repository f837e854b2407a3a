use vstd::prelude::*;

verus! {

/// Limits on the work that the loader starts.
///
/// A limit of zero is valid and makes the loader inert in that respect: with
/// `max_pending_load_tasks == 0` no batch is ever submitted, with
/// `load_batch_size == 0` every submitted batch is empty.
#[derive(Clone, Copy, Debug, PartialEq, Eq)]
pub struct LoaderConfig {
    /// The number of chunks to start loading in a single batch.
    pub load_batch_size: usize,
    /// The maximum number of pending load tasks.
    pub max_pending_load_tasks: usize,
}

impl LoaderConfig {
    /// Whether a queue of `outstanding` tasks leaves room for one more batch.
    pub open spec fn admits(self, outstanding: nat) -> bool {
        outstanding < self.max_pending_load_tasks
    }

    /// Whether a queue of `outstanding` tasks leaves room for one more batch.
    pub fn has_room(&self, outstanding: usize) -> (room: bool)
        ensures
            room == self.admits(outstanding as nat),
    {
        outstanding < self.max_pending_load_tasks
    }
}

impl Default for LoaderConfig {
    fn default() -> (config: Self)
        ensures
            config.load_batch_size == 256,
            config.max_pending_load_tasks == 16,
    {
        LoaderConfig { load_batch_size: 256, max_pending_load_tasks: 16 }
    }
}

} // verus!
