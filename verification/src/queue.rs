use std::collections::VecDeque;
use vstd::prelude::*;

verus! {

/// The load tasks that are in flight, oldest first.
///
/// `T` is the handle of a background task. The queue has no capacity of its
/// own: whoever submits a batch consults [`PendingLoadTasks::num_tasks`] first.
pub struct PendingLoadTasks<T> {
    tasks: VecDeque<T>,
}

impl<T> View for PendingLoadTasks<T> {
    type V = Seq<T>;

    closed spec fn view(&self) -> Seq<T> {
        self.tasks@
    }
}

impl<T> PendingLoadTasks<T> {
    /// A queue with no task in flight.
    pub fn new() -> (queue: Self)
        ensures
            queue@ == Seq::<T>::empty(),
    {
        PendingLoadTasks { tasks: VecDeque::new() }
    }

    /// The number of tasks in flight.
    pub fn num_tasks(&self) -> (n: usize)
        ensures
            n == self@.len(),
    {
        self.tasks.len()
    }

    /// Appends `task` behind every task already in flight.
    pub fn push(&mut self, task: T)
        ensures
            final(self)@ == old(self)@.push(task),
    {
        self.tasks.push_back(task);
    }

    /// Removes the oldest task, if there is one.
    pub fn pop(&mut self) -> (task: Option<T>)
        ensures
            old(self)@.len() == 0 ==> task is None && final(self)@ == old(self)@,
            old(self)@.len() > 0 ==> task == Some(old(self)@[0]) && final(self)@ == old(
                self,
            )@.skip(1),
    {
        let task = self.tasks.pop_front();
        proof {
            if old(self)@.len() > 0 {
                assert(self@ =~= old(self)@.skip(1));
            }
        }
        task
    }

    /// Puts `task` back in front of every task in flight, where `pop` took it.
    pub fn restore(&mut self, task: T)
        ensures
            final(self)@ == seq![task] + old(self)@,
    {
        self.tasks.push_front(task);
    }
}

/// A task that was taken from the front and put back leaves the queue as it was.
pub proof fn restore_undoes_pop<T>(tasks: Seq<T>)
    requires
        tasks.len() > 0,
    ensures
        seq![tasks[0]] + tasks.skip(1) == tasks,
{
    assert(seq![tasks[0]] + tasks.skip(1) =~= tasks);
}

/// Tasks leave the queue in the order in which they were pushed: after pushing
/// `later` behind a non-empty queue, the front is still the task that was in
/// front before.
pub proof fn push_keeps_front<T>(tasks: Seq<T>, later: T)
    requires
        tasks.len() > 0,
    ensures
        tasks.push(later)[0] == tasks[0],
        tasks.push(later).skip(1) == tasks.skip(1).push(later),
{
    assert(tasks.push(later).skip(1) =~= tasks.skip(1).push(later));
}

} // verus!
