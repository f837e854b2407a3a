use crate::batch::{batch_prefix, select_batch, LoadedBatch, NodeKey};
use crate::config::LoaderConfig;
use crate::queue::PendingLoadTasks;
use crate::units::VoxelUnits;
use vstd::prelude::*;

verus! {

/// An observer whose movement drives loading: where it is now and where it was
/// a tick ago. A witness that has just appeared has no previous position.
#[derive(Clone, Copy, Debug, PartialEq, Eq)]
pub struct Witness<P> {
    pub position: VoxelUnits<P>,
    pub previous_position: Option<VoxelUnits<P>>,
}

/// What a poll of a task found. A task that is still running is handed back.
#[derive(Debug, PartialEq, Eq)]
pub enum TaskPoll<T, C> {
    Pending(T),
    Ready(LoadedBatch<C>),
}

/// What the host reports to the loader.
#[derive(Debug, PartialEq, Eq)]
pub enum LoaderEvent<T, C> {
    /// The tick begins, or the commit or the marking that the loader last asked
    /// for has been carried out.
    Resumed,
    /// The task that the loader handed out has been polled, without blocking.
    Polled(TaskPoll<T, C>),
    /// The near-phase search gave these candidates, closest first: each an
    /// address with its nearest known ancestor.
    Searched(Vec<(NodeKey, NodeKey)>),
    /// The batch has been submitted and runs under the handle given.
    Spawned(T),
}

/// What the loader asks the host to do next.
#[derive(Debug, PartialEq, Eq)]
pub enum LoaderAction<T, C, P> {
    /// Poll the handle once, without blocking.
    Poll(T),
    /// Tell the index what was read, pair by pair and in this order, also
    /// where nothing was read for an address.
    Fulfill(Vec<(NodeKey, Option<C>)>),
    /// Mark what came into range on the way from the first position to the
    /// second as pending.
    BroadPhase(VoxelUnits<P>, VoxelUnits<P>),
    /// Search for load candidates near the position, and take this many at most.
    NearPhase(VoxelUnits<P>, usize),
    /// Submit one background task that reads these addresses, in this order.
    Spawn(Vec<NodeKey>),
    /// The tick is over.
    Finished,
}

/// A `LoaderAction` as a mathematical value.
pub enum ActionView<T, C, P> {
    Poll(T),
    Fulfill(Seq<(NodeKey, Option<C>)>),
    BroadPhase(VoxelUnits<P>, VoxelUnits<P>),
    NearPhase(VoxelUnits<P>, usize),
    Spawn(Seq<NodeKey>),
    Finished,
}

impl<T, C, P> View for LoaderAction<T, C, P> {
    type V = ActionView<T, C, P>;

    open spec fn view(&self) -> ActionView<T, C, P> {
        match *self {
            LoaderAction::Poll(task) => ActionView::Poll(task),
            LoaderAction::Fulfill(reads) => ActionView::Fulfill(reads@),
            LoaderAction::BroadPhase(from, to) => ActionView::BroadPhase(from, to),
            LoaderAction::NearPhase(position, limit) => ActionView::NearPhase(position, limit),
            LoaderAction::Spawn(keys) => ActionView::Spawn(keys@),
            LoaderAction::Finished => ActionView::Finished,
        }
    }
}

/// Where in a tick the loader stands, which is also what it waits for.
#[derive(Clone, Copy, Debug, PartialEq, Eq, Structural)]
pub enum LoaderPhase {
    /// Committing finished batches; waits for `Resumed`.
    Draining,
    /// A task is out for polling; waits for `Polled`.
    Polling,
    /// The broad phase runs for the witness of this index; waits for `Resumed`.
    Marking(usize),
    /// The near phase runs for the witness of this index; waits for `Searched`.
    Searching(usize),
    /// The batch of the witness of this index is being submitted; waits for
    /// `Spawned`.
    Spawning(usize),
    /// The tick is over.
    Idle,
}

/// A tick in progress: the queue, the phase, and the action just handed out.
pub struct Step<T, C, P> {
    pub tasks: Seq<T>,
    pub phase: LoaderPhase,
    pub action: ActionView<T, C, P>,
}

/// Whether the witness of index `i` exists and has moved.
pub open spec fn has_moved<P>(witnesses: Seq<Witness<P>>, i: int) -> bool {
    0 <= i < witnesses.len() && witnesses[i].previous_position is Some
}

/// The index of the first witness at or after `from` that has a previous
/// position; the number of witnesses where there is none.
pub open spec fn next_moved<P>(witnesses: Seq<Witness<P>>, from: nat) -> nat
    decreases witnesses.len() - from,
{
    if from >= witnesses.len() {
        witnesses.len()
    } else if witnesses[from as int].previous_position is Some {
        from
    } else {
        next_moved(witnesses, from + 1)
    }
}

/// The tick ends here, with the queue as it is.
pub open spec fn finish<T, C, P>(tasks: Seq<T>) -> Step<T, C, P> {
    Step { tasks, phase: LoaderPhase::Idle, action: ActionView::Finished }
}

/// Turns to the first witness at or after `from` that has moved and asks for
/// its broad phase; ends the tick where there is none.
pub open spec fn turn_to<T, C, P>(witnesses: Seq<Witness<P>>, tasks: Seq<T>, from: nat) -> Step<
    T,
    C,
    P,
> {
    let i = next_moved(witnesses, from);
    if i < witnesses.len() {
        Step {
            tasks,
            phase: LoaderPhase::Marking(i as usize),
            action: ActionView::BroadPhase(
                witnesses[i as int].previous_position->Some_0,
                witnesses[i as int].position,
            ),
        }
    } else {
        finish(tasks)
    }
}

/// What an event that the phase does not wait for leads to: the tick ends, and
/// a task that the event carries is kept, a polled one in front and a new one
/// behind. A batch or a list of candidates that comes out of turn is not acted
/// on.
pub open spec fn out_of_turn<T, C, P>(tasks: Seq<T>, event: LoaderEvent<T, C>) -> Step<T, C, P> {
    match event {
        LoaderEvent::Polled(TaskPoll::Pending(task)) => finish(seq![task] + tasks),
        LoaderEvent::Spawned(task) => finish(tasks.push(task)),
        _ => finish(tasks),
    }
}

/// One step of a tick: from the queue, the phase and what the host reports to
/// the new queue, the new phase and the next action.
///
/// While draining, the oldest task goes out for polling. A finished one has its
/// batch committed and the drain goes on; one that still runs goes back to the
/// front and ends the drain, whatever stands behind it. After the drain each
/// witness that has moved gets its broad phase and then, while the queue is
/// under the limit, a search and one batch of its closest candidates, which is
/// queued behind all others.
pub open spec fn loader_step<T, C, P>(
    config: LoaderConfig,
    witnesses: Seq<Witness<P>>,
    tasks: Seq<T>,
    phase: LoaderPhase,
    event: LoaderEvent<T, C>,
) -> Step<T, C, P> {
    match (phase, event) {
        (LoaderPhase::Draining, LoaderEvent::Resumed) => {
            if tasks.len() > 0 {
                Step {
                    tasks: tasks.skip(1),
                    phase: LoaderPhase::Polling,
                    action: ActionView::Poll(tasks[0]),
                }
            } else {
                turn_to(witnesses, tasks, 0)
            }
        },
        (LoaderPhase::Polling, LoaderEvent::Polled(TaskPoll::Ready(batch))) => Step {
            tasks,
            phase: LoaderPhase::Draining,
            action: ActionView::Fulfill(batch@),
        },
        (LoaderPhase::Polling, LoaderEvent::Polled(TaskPoll::Pending(task))) => turn_to(
            witnesses,
            seq![task] + tasks,
            0,
        ),
        (LoaderPhase::Marking(i), LoaderEvent::Resumed) => {
            if !has_moved(witnesses, i as int) {
                finish(tasks)
            } else if config.admits(tasks.len()) {
                Step {
                    tasks,
                    phase: LoaderPhase::Searching(i),
                    action: ActionView::NearPhase(
                        witnesses[i as int].position,
                        config.load_batch_size,
                    ),
                }
            } else {
                turn_to(witnesses, tasks, (i + 1) as nat)
            }
        },
        (LoaderPhase::Searching(i), LoaderEvent::Searched(candidates)) => {
            if !has_moved(witnesses, i as int) {
                finish(tasks)
            } else {
                Step {
                    tasks,
                    phase: LoaderPhase::Spawning(i),
                    action: ActionView::Spawn(
                        batch_prefix(candidates@, config.load_batch_size as nat),
                    ),
                }
            }
        },
        (LoaderPhase::Spawning(i), LoaderEvent::Spawned(task)) => {
            if !has_moved(witnesses, i as int) {
                finish(tasks.push(task))
            } else {
                turn_to(witnesses, tasks.push(task), (i + 1) as nat)
            }
        },
        _ => out_of_turn(tasks, event),
    }
}

/// Turns to the first witness at or after `from` that has moved.
fn turn_to_witness<T, C, P: Copy>(witnesses: &Vec<Witness<P>>, from: usize) -> (next: (
    LoaderPhase,
    LoaderAction<T, C, P>,
))
    ensures
        next.0 == turn_to::<T, C, P>(witnesses@, Seq::<T>::empty(), from as nat).phase,
        next.1@ == turn_to::<T, C, P>(witnesses@, Seq::<T>::empty(), from as nat).action,
{
    let mut i: usize = from;
    while i < witnesses.len()
        invariant
            from <= i,
            next_moved(witnesses@, i as nat) == next_moved(witnesses@, from as nat),
        decreases witnesses.len() - i,
    {
        match witnesses[i].previous_position {
            Some(previous) => {
                return (
                    LoaderPhase::Marking(i),
                    LoaderAction::BroadPhase(previous, witnesses[i].position),
                );
            },
            None => {},
        }
        i += 1;
    }
    (LoaderPhase::Idle, LoaderAction::Finished)
}

/// Advances the tick by one step: takes what the host reports, updates the
/// queue, and returns the new phase with the next action for the host.
///
/// A tick starts in `LoaderPhase::Draining` with `LoaderEvent::Resumed` and is
/// over when the action is `LoaderAction::Finished`.
pub fn loader_system<T, C, P: Copy>(
    config: &LoaderConfig,
    witnesses: &Vec<Witness<P>>,
    load_tasks: &mut PendingLoadTasks<T>,
    phase: LoaderPhase,
    event: LoaderEvent<T, C>,
) -> (next: (LoaderPhase, LoaderAction<T, C, P>))
    ensures
        final(load_tasks)@ == loader_step::<T, C, P>(
            *config,
            witnesses@,
            old(load_tasks)@,
            phase,
            event,
        ).tasks,
        next.0 == loader_step::<T, C, P>(*config, witnesses@, old(load_tasks)@, phase, event).phase,
        next.1@ == loader_step::<T, C, P>(
            *config,
            witnesses@,
            old(load_tasks)@,
            phase,
            event,
        ).action,
{
    match (phase, event) {
        (LoaderPhase::Draining, LoaderEvent::Resumed) => {
            match load_tasks.pop() {
                Some(task) => (LoaderPhase::Polling, LoaderAction::Poll(task)),
                None => turn_to_witness(witnesses, 0),
            }
        },
        (LoaderPhase::Polling, LoaderEvent::Polled(TaskPoll::Ready(batch))) => {
            (LoaderPhase::Draining, LoaderAction::Fulfill(batch.reads))
        },
        (LoaderPhase::Polling, LoaderEvent::Polled(TaskPoll::Pending(task))) => {
            load_tasks.restore(task);
            turn_to_witness(witnesses, 0)
        },
        (LoaderPhase::Marking(i), LoaderEvent::Resumed) => {
            if i >= witnesses.len() || witnesses[i].previous_position.is_none() {
                (LoaderPhase::Idle, LoaderAction::Finished)
            } else if config.has_room(load_tasks.num_tasks()) {
                (
                    LoaderPhase::Searching(i),
                    LoaderAction::NearPhase(witnesses[i].position, config.load_batch_size),
                )
            } else {
                turn_to_witness(witnesses, i + 1)
            }
        },
        (LoaderPhase::Searching(i), LoaderEvent::Searched(candidates)) => {
            if i >= witnesses.len() || witnesses[i].previous_position.is_none() {
                (LoaderPhase::Idle, LoaderAction::Finished)
            } else {
                (
                    LoaderPhase::Spawning(i),
                    LoaderAction::Spawn(select_batch(&candidates, config.load_batch_size)),
                )
            }
        },
        (LoaderPhase::Spawning(i), LoaderEvent::Spawned(task)) => {
            load_tasks.push(task);
            if i >= witnesses.len() || witnesses[i].previous_position.is_none() {
                (LoaderPhase::Idle, LoaderAction::Finished)
            } else {
                turn_to_witness(witnesses, i + 1)
            }
        },
        (_, LoaderEvent::Polled(TaskPoll::Pending(task))) => {
            load_tasks.restore(task);
            (LoaderPhase::Idle, LoaderAction::Finished)
        },
        (_, LoaderEvent::Spawned(task)) => {
            load_tasks.push(task);
            (LoaderPhase::Idle, LoaderAction::Finished)
        },
        _ => (LoaderPhase::Idle, LoaderAction::Finished),
    }
}

} // verus!
