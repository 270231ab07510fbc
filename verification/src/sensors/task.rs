//! The polling task: initialise once, then one cycle after another, a fixed
//! wait between them.

use vstd::prelude::*;

verus! {

/// What the polling task does next.
#[derive(Debug, Clone, Copy, PartialEq, Eq, Structural)]
pub enum TaskAction {
    /// Run the sensors' initialisation. Its result does not matter to the
    /// task.
    Initialize,
    /// Run one acquisition cycle and publish its snapshot.
    ReadAndUpdate,
    /// Wait this many ticks of the monotonic clock.
    Wait(u64),
}

/// What follows `previous` in the life of the task; `None` stands for a task
/// that has done nothing yet.
pub open spec fn following(previous: Option<TaskAction>, polling_interval: u64) -> TaskAction {
    match previous {
        None => TaskAction::Initialize,
        Some(TaskAction::Initialize) => TaskAction::ReadAndUpdate,
        Some(TaskAction::ReadAndUpdate) => TaskAction::Wait(polling_interval),
        Some(TaskAction::Wait(_)) => TaskAction::ReadAndUpdate,
    }
}

/// The next action of the polling task, given the one it has just completed.
/// However that one went, the task goes on: it never ends.
pub fn sensor_task(previous: Option<TaskAction>, polling_interval: u64) -> (next: TaskAction)
    ensures
        next == following(previous, polling_interval),
{
    match previous {
        None => TaskAction::Initialize,
        Some(TaskAction::Initialize) => TaskAction::ReadAndUpdate,
        Some(TaskAction::ReadAndUpdate) => TaskAction::Wait(polling_interval),
        Some(TaskAction::Wait(_)) => TaskAction::ReadAndUpdate,
    }
}

/// The action that the task takes at step `n` of its life.
pub open spec fn action_at(n: nat, polling_interval: u64) -> TaskAction
    decreases n,
{
    if n == 0 {
        following(None, polling_interval)
    } else {
        following(Some(action_at((n - 1) as nat, polling_interval)), polling_interval)
    }
}

/// The task initialises exactly once, at its very start; after that, cycles
/// and waits of the one configured length alternate for ever.
pub proof fn lemma_task_schedule(n: nat, polling_interval: u64)
    ensures
        action_at(n, polling_interval) == if n == 0 {
            TaskAction::Initialize
        } else if n % 2 == 1 {
            TaskAction::ReadAndUpdate
        } else {
            TaskAction::Wait(polling_interval)
        },
    decreases n,
{
    if n > 0 {
        lemma_task_schedule((n - 1) as nat, polling_interval);
    }
}

} // verus!
