//! The sampling loop's decisions: when a cycle extends the history, what is
//! persisted afterwards, and how the loop winds down.
//!
//! The process shell runs the loop itself (reads, sleeps in one-second
//! increments, file writes); every decision it acts on is computed here.

use vstd::prelude::*;

use crate::error::MonitorError;
use crate::metrics::SystemMetrics;
use crate::store::{history_view, Snapshot, SnapshotStore, SnapshotV};

verus! {

/// The lifecycle of the sampling loop.
#[derive(Debug, Clone, Copy, PartialEq, Eq, Structural)]
pub enum SamplerState {
    /// Cycles are running.
    Running,
    /// The shared flag was seen false: no new samples, workers are joined,
    /// the final report is being produced.
    Stopping,
    /// The final report is done.
    Stopped,
}

/// The state after observing the shared running flag (or, in `Stopping`,
/// after the final report completed).
pub open spec fn spec_next_sampler_state(state: SamplerState, running: bool) -> SamplerState {
    match state {
        SamplerState::Running => if running {
            SamplerState::Running
        } else {
            SamplerState::Stopping
        },
        SamplerState::Stopping => SamplerState::Stopped,
        SamplerState::Stopped => SamplerState::Stopped,
    }
}

/// Advances the sampler lifecycle one observation.
pub fn next_sampler_state(state: SamplerState, running: bool) -> (s: SamplerState)
    ensures
        s == spec_next_sampler_state(state, running),
{
    match state {
        SamplerState::Running => if running {
            SamplerState::Running
        } else {
            SamplerState::Stopping
        },
        SamplerState::Stopping => SamplerState::Stopped,
        SamplerState::Stopped => SamplerState::Stopped,
    }
}

/// Whether the snapshot numbered `iteration` triggers a persistence of the
/// whole history: the first one always does, and afterwards every
/// `save_every`-th.
pub open spec fn spec_should_save(iteration: usize, save_every: usize) -> bool
    recommends
        save_every >= 1,
{
    iteration == 1 || iteration as int % save_every as int == 0
}

/// Decides whether the snapshot numbered `iteration` is persisted.
pub fn should_save(iteration: usize, save_every: usize) -> (b: bool)
    requires
        save_every >= 1,
    ensures
        b == spec_should_save(iteration, save_every),
{
    iteration == 1 || iteration % save_every == 0
}

/// What one sampling cycle decided.
#[derive(Debug)]
pub struct CycleOutcome {
    /// Whether the cycle appended a snapshot (a failed collection never
    /// does).
    pub appended: bool,
    /// When this cycle calls for a persistence: a copy of the entire
    /// current history, never a delta.  `None` when nothing is to be
    /// written.
    pub to_save: Option<Vec<Snapshot>>,
    /// The collection failure of a skipped cycle, for the log line.
    pub error: Option<MonitorError>,
}

/// Runs the decisions of one sampling cycle on a collection result stamped
/// `now`.
///
/// On success the reading becomes the next snapshot of the history, and the
/// full history up to and including it is handed back for persistence when
/// its number calls for one.  On failure the history does not advance and
/// nothing is persisted; the error is handed back for the log.
pub fn sampler_cycle(
    store: &mut SnapshotStore,
    collected: Result<SystemMetrics, MonitorError>,
    now: i64,
    save_every: usize,
) -> (outcome: CycleOutcome)
    requires
        old(store).wf(),
        save_every >= 1,
        old(store)@.len() < usize::MAX,
    ensures
        final(store).wf(),
        collected matches Err(e) ==> {
            &&& final(store)@ == old(store)@
            &&& !outcome.appended
            &&& outcome.to_save is None
            &&& outcome.error == Some(e)
        },
        collected matches Ok(m) ==> {
            &&& final(store)@ == old(store)@.push(
                SnapshotV {
                    iteration: (old(store)@.len() + 1) as usize,
                    timestamp: now,
                    metrics: m@,
                },
            )
            &&& outcome.appended
            &&& outcome.error is None
            &&& (outcome.to_save is Some <==> spec_should_save(
                (old(store)@.len() + 1) as usize,
                save_every,
            ))
            &&& (outcome.to_save matches Some(v) ==> history_view(v@) == final(store)@)
        },
{
    match collected {
        Result::Err(e) => CycleOutcome { appended: false, to_save: Option::None, error: Option::Some(e) },
        Result::Ok(metrics) => {
            let iteration = store.len() + 1;
            let snapshot = Snapshot::new(iteration, now, metrics);
            store.append(snapshot);
            let to_save = if should_save(iteration, save_every) {
                Option::Some(store.snapshot())
            } else {
                Option::None
            };
            CycleOutcome { appended: true, to_save, error: Option::None }
        },
    }
}

} // verus!
