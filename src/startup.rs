use vstd::prelude::*;
use crate::wait::{wait_value, WaitValue};

verus! {

/// The tick count the demonstration task waits to see exceeded; the demo
/// tick driver stops counting just past it.
pub const T1_TICKS: usize = 1000;

/// The tasks the kernel starts with.
#[derive(Debug, Clone, Copy, PartialEq, Eq, Structural)]
pub enum StartupTask {
    /// Waits until the tick counter exceeds `T1_TICKS`, then reports.
    WaitForT1,
    /// Drives the tick counter.
    Timer,
    /// Awaits a computed number and reports it.
    Example,
}

/// The tasks to spawn at start, in spawn order, before the executor runs.
pub fn init() -> (r: Vec<StartupTask>)
    ensures
        r@ == seq![
            StartupTask::WaitForT1,
            StartupTask::Timer,
            StartupTask::Example,
            StartupTask::Example,
        ],
{
    let mut tasks: Vec<StartupTask> = Vec::new();
    tasks.push(StartupTask::WaitForT1);
    tasks.push(StartupTask::Timer);
    tasks.push(StartupTask::Example);
    tasks.push(StartupTask::Example);
    proof {
        assert(tasks@ =~= seq![
            StartupTask::WaitForT1,
            StartupTask::Timer,
            StartupTask::Example,
            StartupTask::Example,
        ]);
    }
    tasks
}

/// The wait of the demonstration task.
pub fn wait_for_t1() -> (r: WaitValue)
    ensures
        r.threshold_spec() == T1_TICKS,
        !r.is_ready_spec(),
{
    wait_value(T1_TICKS)
}

/// The next value of the demo tick counter: one more, up to just past
/// `T1_TICKS`, where it stays.
pub fn add_t1(ticks: usize) -> (r: usize)
    ensures
        ticks <= T1_TICKS ==> r == ticks + 1,
        ticks > T1_TICKS ==> r == ticks,
{
    if ticks <= T1_TICKS {
        ticks + 1
    } else {
        ticks
    }
}

} // verus!
