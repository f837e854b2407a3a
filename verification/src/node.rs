use vstd::prelude::*;

verus! {

/// What the index knows of one address, as far as loading drives it:
/// `Unloaded`, then `Pending` once the broad phase has marked it, then
/// `Loaded` or `Empty` once a batch has resolved it.
#[derive(Clone, Debug, PartialEq, Eq)]
pub enum NodeState<C> {
    /// Nothing is known and nothing has been asked for.
    Unloaded,
    /// Marked for loading; a batch will resolve it.
    Pending,
    /// Storage held this chunk.
    Loaded(C),
    /// Storage held nothing.
    Empty,
}

/// The state after a read for the address has been committed: what was read
/// replaces whatever the state was.
pub open spec fn fulfilled<C>(state: NodeState<C>, chunk: Option<C>) -> NodeState<C> {
    match chunk {
        Some(chunk) => NodeState::Loaded(chunk),
        None => NodeState::Empty,
    }
}

/// The state after the broad phase has found the address in range: an
/// unloaded address becomes pending, any other stays as it is.
pub open spec fn marked<C>(state: NodeState<C>) -> NodeState<C> {
    match state {
        NodeState::Unloaded => NodeState::Pending,
        _ => state,
    }
}

impl<C> NodeState<C> {
    /// Marks the address for loading, unless it is resolved or marked already.
    pub fn mark_pending(self) -> (state: Self)
        ensures
            state == marked(self),
    {
        match self {
            NodeState::Unloaded => NodeState::Pending,
            other => other,
        }
    }

    /// Resolves the address with what was read for it. The marker is cleared
    /// also where nothing was read.
    pub fn fulfill_pending_load(self, chunk: Option<C>) -> (state: Self)
        ensures
            state == fulfilled(self, chunk),
    {
        match chunk {
            Some(chunk) => NodeState::Loaded(chunk),
            None => NodeState::Empty,
        }
    }
}

/// Fulfilling an address a second time with the same data changes nothing, so
/// batches of witnesses whose searches overlap may name the same address. A
/// fulfilled address is never left pending, and a later mark does not make it
/// pending again.
pub proof fn fulfillment_is_idempotent<C>(state: NodeState<C>, chunk: Option<C>)
    ensures
        fulfilled(fulfilled(state, chunk), chunk) == fulfilled(state, chunk),
        fulfilled(marked(state), chunk) == fulfilled(state, chunk),
        marked(fulfilled(state, chunk)) == fulfilled(state, chunk),
        !(fulfilled(state, chunk) is Pending),
        !(fulfilled(state, chunk) is Unloaded),
{
}

} // verus!
