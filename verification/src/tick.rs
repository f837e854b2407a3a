use crate::batch::batch_prefix;
use crate::config::LoaderConfig;
use crate::loader::{
    has_moved, loader_step, next_moved, ActionView, LoaderEvent, LoaderPhase, TaskPoll, Witness,
};
use vstd::prelude::*;

verus! {

/// The actions that the loader hands out, one for each of `events`, when it
/// starts from `tasks` in `phase`.
pub open spec fn run_actions<T, C, P>(
    config: LoaderConfig,
    witnesses: Seq<Witness<P>>,
    tasks: Seq<T>,
    phase: LoaderPhase,
    events: Seq<LoaderEvent<T, C>>,
) -> Seq<ActionView<T, C, P>>
    decreases events.len(),
{
    if events.len() == 0 {
        Seq::empty()
    } else {
        let step = loader_step::<T, C, P>(config, witnesses, tasks, phase, events[0]);
        seq![step.action] + run_actions(config, witnesses, step.tasks, step.phase, events.skip(1))
    }
}

/// The tasks that `actions` send out for polling, in that order.
pub open spec fn polled<T, C, P>(actions: Seq<ActionView<T, C, P>>) -> Seq<T>
    decreases actions.len(),
{
    if actions.len() == 0 {
        Seq::empty()
    } else {
        match actions[0] {
            ActionView::Poll(task) => seq![task] + polled(actions.skip(1)),
            _ => polled(actions.skip(1)),
        }
    }
}

/// Whether `event` reports a finished task.
pub open spec fn is_ready<T, C>(event: LoaderEvent<T, C>) -> bool {
    event matches LoaderEvent::Polled(TaskPoll::Ready(_))
}

/// Whether `action` starts, or is, the submission of a batch.
pub open spec fn submits<T, C, P>(action: ActionView<T, C, P>) -> bool {
    action is NearPhase || action is Spawn
}

/// Whether `action` touches the index or storage for a witness.
pub open spec fn serves_witness<T, C, P>(action: ActionView<T, C, P>) -> bool {
    action is BroadPhase || action is NearPhase || action is Spawn
}

/// `next_moved` finds the first witness at or after `from` that has moved.
pub proof fn next_moved_is_first<P>(witnesses: Seq<Witness<P>>, from: nat)
    ensures
        from <= witnesses.len() ==> from <= next_moved(witnesses, from) <= witnesses.len(),
        from > witnesses.len() ==> next_moved(witnesses, from) == witnesses.len(),
        next_moved(witnesses, from) < witnesses.len() ==> has_moved(
            witnesses,
            next_moved(witnesses, from) as int,
        ),
        forall|i: int|
            from <= i < next_moved(witnesses, from) ==> !#[trigger] has_moved(witnesses, i),
    decreases witnesses.len() - from,
{
    if from < witnesses.len() && !(witnesses[from as int].previous_position is Some) {
        next_moved_is_first(witnesses, from + 1);
    }
}

/// Every step commits, polls and submits only in its turn: a task goes out for
/// polling only while draining and is then the oldest of the queue; a batch is
/// committed only as the answer to a poll that found it ready, and is that
/// batch; a search is asked for only while the queue is under the limit; a
/// batch is the bounded prefix of the candidates just reported; and the queue
/// grows only by a task that the event brought.
pub proof fn step_acts_in_turn<T, C, P>(
    config: LoaderConfig,
    witnesses: Seq<Witness<P>>,
    tasks: Seq<T>,
    phase: LoaderPhase,
    event: LoaderEvent<T, C>,
)
    ensures
        ({
            let step = loader_step::<T, C, P>(config, witnesses, tasks, phase, event);
            &&& step.action matches ActionView::Poll(task) ==> {
                &&& phase == LoaderPhase::Draining
                &&& tasks.len() > 0
                &&& task == tasks[0]
                &&& step.tasks == tasks.skip(1)
            }
            &&& step.action matches ActionView::Fulfill(reads) ==> {
                &&& phase == LoaderPhase::Polling
                &&& step.tasks == tasks
                &&& event matches LoaderEvent::Polled(TaskPoll::Ready(batch)) && reads == batch@
            }
            &&& step.action matches ActionView::NearPhase(_, limit) ==> {
                &&& tasks.len() < config.max_pending_load_tasks
                &&& limit == config.load_batch_size
                &&& step.tasks == tasks
            }
            &&& step.action matches ActionView::Spawn(keys) ==> {
                &&& keys.len() <= config.load_batch_size
                &&& step.tasks == tasks
                &&& event matches LoaderEvent::Searched(candidates) && keys.len()
                    <= candidates@.len() && keys == batch_prefix(
                    candidates@,
                    config.load_batch_size as nat,
                )
            }
            &&& step.tasks.len() <= tasks.len() + 1
            &&& step.tasks.len() > tasks.len() ==> {
                ||| event is Spawned
                ||| event matches LoaderEvent::Polled(TaskPoll::Pending(_))
            }
        }),
{
    next_moved_is_first(witnesses, 0);
    if let LoaderPhase::Marking(i) = phase {
        next_moved_is_first(witnesses, (i + 1) as nat);
    }
    if let LoaderPhase::Spawning(i) = phase {
        next_moved_is_first(witnesses, (i + 1) as nat);
    }
}

/// A witness without a previous position is passed over: whatever a step asks
/// of the index or of storage, it asks for a witness that has moved, the broad
/// phase from that witness's previous position to its present one and the
/// search at its present one.
pub proof fn step_serves_moved_witness<T, C, P>(
    config: LoaderConfig,
    witnesses: Seq<Witness<P>>,
    tasks: Seq<T>,
    phase: LoaderPhase,
    event: LoaderEvent<T, C>,
)
    requires
        witnesses.len() <= usize::MAX,
    ensures
        ({
            let step = loader_step::<T, C, P>(config, witnesses, tasks, phase, event);
            &&& step.action matches ActionView::BroadPhase(from, to) ==> exists|i: usize|
                #![trigger has_moved(witnesses, i as int)]
                {
                    &&& has_moved(witnesses, i as int)
                    &&& step.phase == LoaderPhase::Marking(i)
                    &&& witnesses[i as int].previous_position == Some(from)
                    &&& witnesses[i as int].position == to
                }
            &&& step.action matches ActionView::NearPhase(position, _) ==> exists|i: usize|
                #![trigger has_moved(witnesses, i as int)]
                {
                    &&& has_moved(witnesses, i as int)
                    &&& phase == LoaderPhase::Marking(i)
                    &&& witnesses[i as int].position == position
                }
            &&& step.action is Spawn ==> exists|i: usize|
                #![trigger has_moved(witnesses, i as int)]
                has_moved(witnesses, i as int) && phase == LoaderPhase::Searching(i)
        }),
{
    let step = loader_step::<T, C, P>(config, witnesses, tasks, phase, event);
    next_moved_is_first(witnesses, 0);
    if let LoaderPhase::Marking(i) = phase {
        next_moved_is_first(witnesses, (i + 1) as nat);
        if step.action is NearPhase {
            assert(has_moved(witnesses, i as int));
        }
    }
    if let LoaderPhase::Spawning(i) = phase {
        next_moved_is_first(witnesses, (i + 1) as nat);
    }
    if let LoaderPhase::Searching(i) = phase {
        if step.action is Spawn {
            assert(has_moved(witnesses, i as int));
        }
    }
    if let ActionView::BroadPhase(from, to) = step.action {
        if let LoaderPhase::Marking(j) = step.phase {
            assert(has_moved(witnesses, j as int));
        }
    }
}

/// Where no witness has a previous position, nothing is asked of the index or
/// of storage for any witness, however the tick runs: no broad phase, no
/// search, no batch.
pub proof fn unmoved_witnesses_are_skipped<T, C, P>(
    config: LoaderConfig,
    witnesses: Seq<Witness<P>>,
    tasks: Seq<T>,
    phase: LoaderPhase,
    events: Seq<LoaderEvent<T, C>>,
)
    requires
        forall|i: int| 0 <= i < witnesses.len() ==> witnesses[i].previous_position is None,
    ensures
        forall|k: int|
            0 <= k < events.len() ==> !serves_witness(
                #[trigger] run_actions::<T, C, P>(config, witnesses, tasks, phase, events)[k],
            ),
        run_actions::<T, C, P>(config, witnesses, tasks, phase, events).len() == events.len(),
    decreases events.len(),
{
    if events.len() > 0 {
        let step = loader_step::<T, C, P>(config, witnesses, tasks, phase, events[0]);
        next_moved_is_first(witnesses, 0);
        if let LoaderPhase::Marking(i) = phase {
            next_moved_is_first(witnesses, (i + 1) as nat);
        }
        if let LoaderPhase::Spawning(i) = phase {
            next_moved_is_first(witnesses, (i + 1) as nat);
        }
        assert(!serves_witness(step.action));
        unmoved_witnesses_are_skipped::<T, C, P>(
            config,
            witnesses,
            step.tasks,
            step.phase,
            events.skip(1),
        );
    }
}

/// Batches are committed in the order of their submission. In a tick that
/// starts on the queue `tasks`, the tasks sent out for polling are the oldest
/// ones of the queue, in queue order and each once, whichever of them are
/// ready; every commit answers the poll of the step before it; and once the
/// drain is over nothing more is polled or committed.
pub proof fn commits_follow_queue_order<T, C, P>(
    config: LoaderConfig,
    witnesses: Seq<Witness<P>>,
    tasks: Seq<T>,
    phase: LoaderPhase,
    events: Seq<LoaderEvent<T, C>>,
)
    ensures
        ({
            let actions = run_actions::<T, C, P>(config, witnesses, tasks, phase, events);
            let draining = phase == LoaderPhase::Draining || phase == LoaderPhase::Polling;
            &&& actions.len() == events.len()
            &&& polled(actions).len() <= tasks.len()
            &&& polled(actions) == tasks.take(polled(actions).len() as int)
            &&& !draining ==> polled(actions).len() == 0
            &&& forall|k: int|
                0 <= k < actions.len() && #[trigger] actions[k] is Fulfill ==> (if k == 0 {
                    phase == LoaderPhase::Polling
                } else {
                    actions[k - 1] is Poll
                }) && (events[k] matches LoaderEvent::Polled(TaskPoll::Ready(batch))
                    && actions[k] == ActionView::<T, C, P>::Fulfill(batch@))
            &&& !draining ==> forall|k: int|
                0 <= k < actions.len() ==> !(#[trigger] actions[k] is Fulfill)
        }),
    decreases events.len(),
{
    let actions = run_actions::<T, C, P>(config, witnesses, tasks, phase, events);
    if events.len() == 0 {
        assert(polled(actions) =~= tasks.take(0));
    } else {
        let step = loader_step::<T, C, P>(config, witnesses, tasks, phase, events[0]);
        let rest = run_actions::<T, C, P>(
            config,
            witnesses,
            step.tasks,
            step.phase,
            events.skip(1),
        );
        step_acts_in_turn(config, witnesses, tasks, phase, events[0]);
        next_moved_is_first(witnesses, 0);
        commits_follow_queue_order::<T, C, P>(
            config,
            witnesses,
            step.tasks,
            step.phase,
            events.skip(1),
        );
        assert(actions.skip(1) =~= rest);
        assert(actions[0] == step.action);
        assert forall|k: int| 1 <= k < actions.len() implies actions[k] == rest[k - 1] by {}
        assert forall|k: int| 1 <= k < events.len() implies events[k] == events.skip(1)[k - 1] by {}
        match step.action {
            ActionView::Poll(task) => {
                assert(polled(actions) == seq![task] + polled(rest));
                assert(polled(actions) =~= tasks.take(polled(actions).len() as int));
            },
            _ => {
                assert(polled(actions) == polled(rest));
                if step.phase == LoaderPhase::Draining || step.phase == LoaderPhase::Polling {
                    assert(phase == LoaderPhase::Polling);
                    assert(step.tasks == tasks);
                } else {
                    assert(polled(actions) =~= tasks.take(0));
                }
            },
        }
    }
}

/// The limit on pending tasks holds submissions back. In a tick that starts on
/// a queue of at least `max_pending_load_tasks` tasks of which none is found
/// ready, no search is asked for and no batch is submitted, whatever the
/// witnesses do.
pub proof fn full_queue_submits_nothing<T, C, P>(
    config: LoaderConfig,
    witnesses: Seq<Witness<P>>,
    tasks: Seq<T>,
    events: Seq<LoaderEvent<T, C>>,
)
    requires
        tasks.len() >= config.max_pending_load_tasks,
        forall|k: int| 0 <= k < events.len() ==> !is_ready(#[trigger] events[k]),
    ensures
        forall|k: int|
            0 <= k < events.len() ==> !submits(
                #[trigger] run_actions::<T, C, P>(
                    config,
                    witnesses,
                    tasks,
                    LoaderPhase::Draining,
                    events,
                )[k],
            ),
{
    full_queue_stays_full::<T, C, P>(config, witnesses, tasks, LoaderPhase::Draining, events);
}

/// The induction behind `full_queue_submits_nothing`: from any phase but the
/// two of a submission, with the queue at the limit (counting a task that is
/// out for polling), no step of the run submits.
proof fn full_queue_stays_full<T, C, P>(
    config: LoaderConfig,
    witnesses: Seq<Witness<P>>,
    tasks: Seq<T>,
    phase: LoaderPhase,
    events: Seq<LoaderEvent<T, C>>,
)
    requires
        phase == LoaderPhase::Idle || (phase == LoaderPhase::Polling && tasks.len() + 1
            >= config.max_pending_load_tasks) || ((phase == LoaderPhase::Draining
            || phase is Marking) && tasks.len() >= config.max_pending_load_tasks),
        forall|k: int| 0 <= k < events.len() ==> !is_ready(#[trigger] events[k]),
    ensures
        run_actions::<T, C, P>(config, witnesses, tasks, phase, events).len() == events.len(),
        forall|k: int|
            0 <= k < events.len() ==> !submits(
                #[trigger] run_actions::<T, C, P>(config, witnesses, tasks, phase, events)[k],
            ),
    decreases events.len(),
{
    if events.len() > 0 {
        let step = loader_step::<T, C, P>(config, witnesses, tasks, phase, events[0]);
        assert(!is_ready(events[0]));
        step_acts_in_turn(config, witnesses, tasks, phase, events[0]);
        next_moved_is_first(witnesses, 0);
        if let LoaderPhase::Marking(i) = phase {
            next_moved_is_first(witnesses, (i + 1) as nat);
        }
        assert forall|k: int| 0 <= k < events.skip(1).len() implies !is_ready(
            #[trigger] events.skip(1)[k],
        ) by {
            assert(events.skip(1)[k] == events[k + 1]);
        }
        full_queue_stays_full::<T, C, P>(
            config,
            witnesses,
            step.tasks,
            step.phase,
            events.skip(1),
        );
    }
}

/// The phase always names the action that is out, and a witness is served in
/// order: its broad phase, then its search, then its batch.
pub proof fn phase_names_action<T, C, P>(
    config: LoaderConfig,
    witnesses: Seq<Witness<P>>,
    tasks: Seq<T>,
    phase: LoaderPhase,
    event: LoaderEvent<T, C>,
)
    ensures
        ({
            let step = loader_step::<T, C, P>(config, witnesses, tasks, phase, event);
            &&& step.phase is Polling <==> step.action is Poll
            &&& step.phase is Draining <==> step.action is Fulfill
            &&& step.phase is Marking <==> step.action is BroadPhase
            &&& step.phase is Searching <==> step.action is NearPhase
            &&& step.phase is Spawning <==> step.action is Spawn
            &&& step.phase is Idle <==> step.action is Finished
            &&& step.phase matches LoaderPhase::Searching(i) ==> phase == LoaderPhase::Marking(i)
            &&& step.phase matches LoaderPhase::Spawning(i) ==> phase == LoaderPhase::Searching(i)
        }),
{
}

/// A bound on the steps that a tick still takes: two for every task that may
/// yet be polled and three for every witness that may yet be served.
pub open spec fn steps_left(phase: LoaderPhase, outstanding: nat, witnesses: nat) -> nat {
    match phase {
        LoaderPhase::Draining => 2 * outstanding + 3 * witnesses + 2,
        LoaderPhase::Polling => 2 * outstanding + 3 * witnesses + 3,
        LoaderPhase::Marking(i) => if i < witnesses {
            (3 * (witnesses - i)) as nat
        } else {
            1
        },
        LoaderPhase::Searching(i) => if i < witnesses {
            (3 * (witnesses - i) - 1) as nat
        } else {
            1
        },
        LoaderPhase::Spawning(i) => if i < witnesses {
            (3 * (witnesses - i) - 2) as nat
        } else {
            1
        },
        LoaderPhase::Idle => 0,
    }
}

/// The phase that the loader is in after `events`, when it starts from `tasks`
/// in `phase`.
pub open spec fn run_phase<T, C, P>(
    config: LoaderConfig,
    witnesses: Seq<Witness<P>>,
    tasks: Seq<T>,
    phase: LoaderPhase,
    events: Seq<LoaderEvent<T, C>>,
) -> LoaderPhase
    decreases events.len(),
{
    if events.len() == 0 {
        phase
    } else {
        let step = loader_step::<T, C, P>(config, witnesses, tasks, phase, events[0]);
        run_phase::<T, C, P>(config, witnesses, step.tasks, step.phase, events.skip(1))
    }
}

/// Every step of a tick brings its end nearer, whatever the configuration and
/// whatever the host reports; a tick that is over stays over.
pub proof fn step_nears_the_end<T, C, P>(
    config: LoaderConfig,
    witnesses: Seq<Witness<P>>,
    tasks: Seq<T>,
    phase: LoaderPhase,
    event: LoaderEvent<T, C>,
)
    requires
        witnesses.len() <= usize::MAX,
    ensures
        ({
            let step = loader_step::<T, C, P>(config, witnesses, tasks, phase, event);
            &&& phase != LoaderPhase::Idle ==> steps_left(
                step.phase,
                step.tasks.len(),
                witnesses.len(),
            ) < steps_left(phase, tasks.len(), witnesses.len())
            &&& phase == LoaderPhase::Idle ==> step.phase == LoaderPhase::Idle
        }),
{
    next_moved_is_first(witnesses, 0);
    if let LoaderPhase::Marking(i) = phase {
        next_moved_is_first(witnesses, (i + 1) as nat);
    }
    if let LoaderPhase::Spawning(i) = phase {
        next_moved_is_first(witnesses, (i + 1) as nat);
    }
}

/// No tick runs on for ever: from a queue of `n` tasks and with `w` witnesses
/// it is over after `2n + 3w + 2` steps at most, also where a limit of the
/// configuration is zero.
pub proof fn tick_ends<T, C, P>(
    config: LoaderConfig,
    witnesses: Seq<Witness<P>>,
    tasks: Seq<T>,
    phase: LoaderPhase,
    events: Seq<LoaderEvent<T, C>>,
)
    requires
        witnesses.len() <= usize::MAX,
        events.len() >= steps_left(phase, tasks.len(), witnesses.len()),
    ensures
        run_phase::<T, C, P>(config, witnesses, tasks, phase, events) == LoaderPhase::Idle,
    decreases events.len(),
{
    if events.len() > 0 {
        let step = loader_step::<T, C, P>(config, witnesses, tasks, phase, events[0]);
        step_nears_the_end(config, witnesses, tasks, phase, events[0]);
        tick_ends::<T, C, P>(config, witnesses, step.tasks, step.phase, events.skip(1));
    }
}

} // verus!
