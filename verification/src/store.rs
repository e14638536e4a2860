//! The shared snapshot history: an ordered, append-only sequence whose
//! iteration numbers run 1, 2, 3, … with no gaps and no reordering.

use vstd::prelude::*;

use crate::metrics::{SystemMetrics, SystemMetricsV};

verus! {

/// One timestamped, numbered sampling of system metrics.  Immutable once
/// created; owned by the store after being appended.
#[derive(Debug)]
pub struct Snapshot {
    /// Position in the history, starting at 1.
    pub iteration: usize,
    /// Seconds since the Unix epoch.
    pub timestamp: i64,
    pub metrics: SystemMetrics,
}

/// The mathematical value of a `Snapshot`.
pub struct SnapshotV {
    pub iteration: usize,
    pub timestamp: i64,
    pub metrics: SystemMetricsV,
}

impl View for Snapshot {
    type V = SnapshotV;

    open spec fn view(&self) -> SnapshotV {
        SnapshotV { iteration: self.iteration, timestamp: self.timestamp, metrics: self.metrics@ }
    }
}

impl Snapshot {
    /// Builds the snapshot numbered `iteration` for one reading, stamped
    /// `timestamp`.
    pub fn new(iteration: usize, timestamp: i64, metrics: SystemMetrics) -> (s: Snapshot)
        ensures
            s@ == (SnapshotV { iteration, timestamp, metrics: metrics@ }),
    {
        Snapshot { iteration, timestamp, metrics }
    }
}

impl Clone for Snapshot {
    fn clone(&self) -> (r: Self)
        ensures
            r@ == self@,
    {
        Snapshot {
            iteration: self.iteration,
            timestamp: self.timestamp,
            metrics: self.metrics.clone(),
        }
    }
}

/// The mathematical value of a snapshot history.
pub open spec fn history_view(history: Seq<Snapshot>) -> Seq<SnapshotV> {
    history.map_values(|s: Snapshot| s@)
}

/// Iteration numbers form the sequence 1..=N: the snapshot at position `i`
/// carries iteration `i + 1`.
pub open spec fn iterations_contiguous(history: Seq<SnapshotV>) -> bool {
    forall|i: int| 0 <= i < history.len() ==> (#[trigger] history[i]).iteration == i + 1
}

/// The ordered, append-only snapshot history.  The sampler is its only
/// writer; the shutdown path and the report builder read consistent copies.
#[derive(Debug)]
pub struct SnapshotStore {
    history: Vec<Snapshot>,
}

impl View for SnapshotStore {
    type V = Seq<SnapshotV>;

    closed spec fn view(&self) -> Seq<SnapshotV> {
        history_view(self.history@)
    }
}

impl SnapshotStore {
    /// The store's invariant: iterations contiguous from 1.
    pub open spec fn wf(&self) -> bool {
        iterations_contiguous(self@)
    }

    /// An empty history.
    pub fn new() -> (s: SnapshotStore)
        ensures
            s@ =~= Seq::<SnapshotV>::empty(),
            s.wf(),
    {
        let s = SnapshotStore { history: Vec::new() };
        proof {
            assert(s@ =~= Seq::<SnapshotV>::empty());
        }
        s
    }

    /// How many snapshots the history holds.
    pub fn len(&self) -> (n: usize)
        ensures
            n == self@.len(),
    {
        self.history.len()
    }

    /// Appends one snapshot to the end.  The caller numbers it as the next
    /// iteration, which keeps the history contiguous; the store is never
    /// truncated or reordered.
    pub fn append(&mut self, snapshot: Snapshot)
        requires
            old(self).wf(),
            snapshot.iteration == old(self)@.len() + 1,
        ensures
            final(self)@ == old(self)@.push(snapshot@),
            final(self).wf(),
    {
        self.history.push(snapshot);
        proof {
            assert(self@ =~= old(self)@.push(snapshot@));
        }
    }

    /// A consistent point-in-time copy of the full ordered history, for
    /// persistence or reporting.
    pub fn snapshot(&self) -> (copy: Vec<Snapshot>)
        ensures
            history_view(copy@) == self@,
    {
        let copy = clone_history(&self.history);
        copy
    }

    /// Iterations never skip and never reorder: within any well-formed
    /// history, the numbers strictly increase in steps of one, starting
    /// at 1.
    pub proof fn lemma_iterations_form_initial_segment(&self)
        requires
            self.wf(),
        ensures
            self@.len() > 0 ==> self@.first().iteration == 1,
            forall|i: int, j: int|
                0 <= i < j < self@.len() ==> (#[trigger] self@[i]).iteration < (
                #[trigger] self@[j]).iteration,
            forall|i: int|
                0 <= i < self@.len() - 1 ==> (#[trigger] self@[i + 1]).iteration
                    == self@[i].iteration + 1,
    {
    }
}

/// Copies a history element by element, keeping every value.
fn clone_history(history: &Vec<Snapshot>) -> (copy: Vec<Snapshot>)
    ensures
        history_view(copy@) == history_view(history@),
{
    let mut copy: Vec<Snapshot> = Vec::new();
    let mut i: usize = 0;
    while i < history.len()
        invariant
            i <= history@.len(),
            copy@.len() == i as int,
            forall|j: int| 0 <= j < i ==> (#[trigger] copy@[j])@ == history@[j]@,
        decreases history@.len() - i,
    {
        copy.push(history[i].clone());
        i = i + 1;
    }
    proof {
        assert(history_view(copy@) =~= history_view(history@));
    }
    copy
}

} // verus!
