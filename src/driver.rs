//! The decisions of a fuzzing worker. Each worker reseeds its engine at the
//! start of every iteration from its own seed and the iteration's index, so
//! that any range of iterations can be replayed exactly; the threads, the
//! clock and the callback live with the caller.

use vstd::prelude::*;

verus! {

/// Whether the workers fuzz until told to stop, or replay a range of
/// iterations.
#[derive(Debug, Clone, Copy, PartialEq, Eq, Structural)]
pub enum DriverMode {
    Reproduce,
    Run,
}

/// What a worker does next.
#[derive(Debug, Clone, Copy, PartialEq, Eq, Structural)]
pub enum WorkerAction {
    /// Stop the worker.
    Exit,
    /// Reseed the engine with `seed` and run one iteration.
    RunIteration { seed: u64 },
}

/// The seed of iteration `iteration` of a worker whose seed is `thread_seed`.
pub open spec fn iteration_seed_spec(thread_seed: u64, iteration: u64) -> u64 {
    ((thread_seed + iteration) % 0x1_0000_0000_0000_0000) as u64
}

/// The seed of iteration `iteration`: the worker's seed plus the index,
/// wrapping.
pub fn iteration_seed(thread_seed: u64, iteration: u64) -> (r: u64)
    ensures
        r == iteration_seed_spec(thread_seed, iteration),
{
    thread_seed.wrapping_add(iteration)
}

/// The worker's next action, given the driver's mode, the number of
/// iterations counted so far, the end of a replayed range and whether an
/// exit was signalled: a replay stops exactly at the end of its range (and
/// ignores the signal); a run stops once signalled.
pub open spec fn next_action_spec(
    mode: DriverMode,
    num_iterations: u64,
    end_iteration: u64,
    exit_requested: bool,
    thread_seed: u64,
) -> WorkerAction {
    let stop = match mode {
        DriverMode::Reproduce => num_iterations == end_iteration,
        DriverMode::Run => exit_requested,
    };
    if stop {
        WorkerAction::Exit
    } else {
        WorkerAction::RunIteration { seed: iteration_seed_spec(thread_seed, num_iterations) }
    }
}

/// Exec form of [`next_action_spec`].
pub fn next_action(
    mode: DriverMode,
    num_iterations: u64,
    end_iteration: u64,
    exit_requested: bool,
    thread_seed: u64,
) -> (r: WorkerAction)
    ensures
        r == next_action_spec(mode, num_iterations, end_iteration, exit_requested, thread_seed),
{
    let stop = match mode {
        DriverMode::Reproduce => num_iterations == end_iteration,
        DriverMode::Run => exit_requested,
    };
    if stop {
        WorkerAction::Exit
    } else {
        WorkerAction::RunIteration { seed: iteration_seed(thread_seed, num_iterations) }
    }
}

/// Replaying `[start, end)` runs every iteration of the range with the seed
/// that a full run, not yet signalled to stop, used for the same iteration;
/// and the replay stops at `end`. As the engine's whole random stream for an
/// iteration comes from that seed, the replayed values are the same.
pub proof fn lemma_replay_matches_run(thread_seed: u64, start: u64, end: u64, i: u64, signalled: bool)
    requires
        start <= i < end,
    ensures
        next_action_spec(DriverMode::Reproduce, i, end, signalled, thread_seed) == next_action_spec(
            DriverMode::Run,
            i,
            end,
            false,
            thread_seed,
        ),
        next_action_spec(DriverMode::Reproduce, i, end, signalled, thread_seed)
            == (WorkerAction::RunIteration { seed: iteration_seed_spec(thread_seed, i) }),
        next_action_spec(DriverMode::Reproduce, end, end, signalled, thread_seed)
            == WorkerAction::Exit,
{
}

/// Whether a worker whose last heartbeat was at `last_update` (seconds) has
/// stalled at time `now`: more than `timeout` seconds have passed. A
/// heartbeat later than `now` is not a stall.
pub fn is_stalled(now: u64, last_update: u64, timeout: u64) -> (r: bool)
    ensures
        r == (last_update <= now && now - last_update > timeout),
{
    if last_update > now {
        return false;
    }
    now - last_update > timeout
}

} // verus!
