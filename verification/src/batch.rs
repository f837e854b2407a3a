use vstd::prelude::*;

verus! {

/// The address of a node of the chunk index: a level of the hierarchy and the
/// node's coordinates at that level.
///
/// The loader never looks inside an address. It only carries addresses from the
/// search to the background task and from the task's result to the index.
#[derive(Clone, Copy, Debug, PartialEq, Eq, Hash, Structural)]
pub struct NodeKey {
    pub level: u8,
    pub x: i32,
    pub y: i32,
    pub z: i32,
}

/// What one background task has read: for each address of its batch, in the
/// order of the batch, the chunk that storage holds for it.
///
/// `None` is a result like any other. It says that storage has nothing for the
/// address, and the index is told so.
#[derive(Clone, Debug, PartialEq, Eq)]
pub struct LoadedBatch<C> {
    pub reads: Vec<(NodeKey, Option<C>)>,
}

impl<C> View for LoadedBatch<C> {
    type V = Seq<(NodeKey, Option<C>)>;

    open spec fn view(&self) -> Seq<(NodeKey, Option<C>)> {
        self.reads@
    }
}

/// What a read from storage counts as: a read that failed counts as one that
/// found nothing, so that the address is still resolved in the index.
pub open spec fn read_outcome<C, E>(read: Result<Option<C>, E>) -> Option<C> {
    match read {
        Ok(chunk) => chunk,
        Err(_) => None,
    }
}

impl<C> LoadedBatch<C> {
    /// A batch with nothing read yet.
    pub fn new() -> (batch: Self)
        ensures
            batch@ == Seq::<(NodeKey, Option<C>)>::empty(),
    {
        LoadedBatch { reads: Vec::new() }
    }

    /// Appends what storage answered for `key`. A failed read is recorded as
    /// an address without data and its error is handed back to be reported;
    /// no address is ever left out of the batch.
    pub fn record<E>(&mut self, key: NodeKey, read: Result<Option<C>, E>) -> (failure: Option<E>)
        ensures
            final(self)@ == old(self)@.push((key, read_outcome(read))),
            failure == match read {
                Ok(_) => None,
                Err(error) => Some(error),
            },
    {
        match read {
            Ok(chunk) => {
                self.reads.push((key, chunk));
                None
            },
            Err(error) => {
                self.reads.push((key, None));
                Some(error)
            },
        }
    }
}

/// The addresses of the first `limit` candidates, or of all of them where there
/// are fewer. A candidate is an address with its nearest known ancestor.
pub open spec fn batch_prefix(candidates: Seq<(NodeKey, NodeKey)>, limit: nat) -> Seq<NodeKey> {
    Seq::new(
        if limit <= candidates.len() { limit } else { candidates.len() },
        |i: int| candidates[i].0,
    )
}

/// Fixes the contents of a batch: the addresses of the closest `limit`
/// candidates, in the order of the search.
pub fn select_batch(candidates: &Vec<(NodeKey, NodeKey)>, limit: usize) -> (keys: Vec<NodeKey>)
    ensures
        keys@ == batch_prefix(candidates@, limit as nat),
{
    let n: usize = if limit <= candidates.len() { limit } else { candidates.len() };
    let mut keys: Vec<NodeKey> = Vec::new();
    let mut i: usize = 0;
    while i < n
        invariant
            i <= n <= candidates.len(),
            keys@ == Seq::new(i as nat, |j: int| candidates@[j].0),
        decreases n - i,
    {
        keys.push(candidates[i].0);
        i += 1;
    }
    keys
}

/// A batch never holds more addresses than the limit, nor more than the search
/// gave, and holds them in the order of the search.
pub proof fn batch_is_bounded_prefix(candidates: Seq<(NodeKey, NodeKey)>, limit: nat)
    ensures
        batch_prefix(candidates, limit).len() <= limit,
        batch_prefix(candidates, limit).len() <= candidates.len(),
        batch_prefix(candidates, limit).len() == limit || batch_prefix(candidates, limit).len()
            == candidates.len(),
        forall|i: int|
            0 <= i < batch_prefix(candidates, limit).len() ==> #[trigger] batch_prefix(
                candidates,
                limit,
            )[i] == candidates[i].0,
{
}

} // verus!
