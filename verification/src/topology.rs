//! Reading the active display paths.
//!
//! The system is first asked how large the answer will be, then for the answer. When displays
//! come or go in between, the answer does not fit, and both calls are made again.

use vstd::prelude::*;

use crate::display::{PathTarget, INSUFFICIENT_BUFFER, MAX_TOPOLOGY_SNAPSHOTS, SUCCESS};

verus! {

/// What to do next.
#[derive(Clone, Copy, Debug, PartialEq, Eq, Structural)]
pub enum TopologyStep {
    /// Ask for the sizes.
    QuerySizes,
    /// Ask for the paths, with buffers of the sizes that were told.
    QueryPaths,
    /// The paths were read.
    Ready,
    /// The paths cannot be had.
    Unavailable,
}

/// The reading of the paths: how often it was begun, and what comes next.
#[derive(Clone, Copy, Debug, PartialEq, Eq, Structural)]
pub struct ActivePaths {
    pub snapshots: u32,
    pub step: TopologyStep,
}

/// Begins to read the active paths.
pub fn active_paths() -> (query: ActivePaths)
    ensures
        query == ActivePaths::first(),
        query.wf(),
{
    ActivePaths { snapshots: 1, step: TopologyStep::QuerySizes }
}

impl ActivePaths {
    /// The first snapshot.
    pub open spec fn first() -> ActivePaths {
        ActivePaths { snapshots: 1, step: TopologyStep::QuerySizes }
    }

    /// There are no more snapshots than allowed.
    pub open spec fn wf(self) -> bool {
        1 <= self.snapshots <= MAX_TOPOLOGY_SNAPSHOTS
    }

    /// The reading after a call that returned `status`.
    pub open spec fn next(self, status: u32) -> ActivePaths {
        match self.step {
            TopologyStep::QuerySizes => if status == SUCCESS {
                ActivePaths { step: TopologyStep::QueryPaths, ..self }
            } else {
                ActivePaths { step: TopologyStep::Unavailable, ..self }
            },
            TopologyStep::QueryPaths => if status == SUCCESS {
                ActivePaths { step: TopologyStep::Ready, ..self }
            } else if status == INSUFFICIENT_BUFFER && self.snapshots < MAX_TOPOLOGY_SNAPSHOTS {
                ActivePaths {
                    snapshots: (self.snapshots + 1) as u32,
                    step: TopologyStep::QuerySizes,
                }
            } else {
                ActivePaths { step: TopologyStep::Unavailable, ..self }
            },
            TopologyStep::Ready | TopologyStep::Unavailable => self,
        }
    }

    /// Takes the status of the call that was made last.
    pub fn answer(&mut self, status: u32)
        requires
            old(self).wf(),
        ensures
            *final(self) == old(self).next(status),
            final(self).wf(),
    {
        match self.step {
            TopologyStep::QuerySizes => {
                self.step = if status == SUCCESS {
                    TopologyStep::QueryPaths
                } else {
                    TopologyStep::Unavailable
                };
            },
            TopologyStep::QueryPaths => {
                if status == SUCCESS {
                    self.step = TopologyStep::Ready;
                } else if status == INSUFFICIENT_BUFFER && self.snapshots < MAX_TOPOLOGY_SNAPSHOTS {
                    self.snapshots = self.snapshots + 1;
                    self.step = TopologyStep::QuerySizes;
                } else {
                    self.step = TopologyStep::Unavailable;
                }
            },
            TopologyStep::Ready | TopologyStep::Unavailable => {},
        }
    }

    /// The reading after a number of calls.
    pub open spec fn after(self, statuses: Seq<u32>) -> ActivePaths
        decreases statuses.len(),
    {
        if statuses.len() == 0 {
            self
        } else {
            self.after(statuses.drop_last()).next(statuses.last())
        }
    }

    /// How many calls the reading can still make.
    pub open spec fn calls_left(self) -> int {
        match self.step {
            TopologyStep::QuerySizes => 2 * (MAX_TOPOLOGY_SNAPSHOTS - self.snapshots) + 2,
            TopologyStep::QueryPaths => 2 * (MAX_TOPOLOGY_SNAPSHOTS - self.snapshots) + 1,
            TopologyStep::Ready | TopologyStep::Unavailable => 0,
        }
    }
}

/// The paths that the system says it returned.
pub open spec fn kept_paths(paths: Seq<PathTarget>, path_count: u32) -> Seq<PathTarget> {
    if path_count <= paths.len() {
        paths.take(path_count as int)
    } else {
        paths
    }
}

/// Keeps the paths that the system says it returned.
pub fn returned_paths(paths: Vec<PathTarget>, path_count: u32) -> (kept: Vec<PathTarget>)
    ensures
        kept@ == kept_paths(paths@, path_count),
        kept@.len() == if path_count <= paths@.len() {
            path_count as int
        } else {
            paths@.len() as int
        },
        forall|i: int| 0 <= i < kept@.len() ==> #[trigger] kept@[i] == paths@[i],
{
    let mut kept = paths;
    let count: usize = path_count as usize;
    if count < kept.len() {
        kept.truncate(count);
    }
    assert(kept@ =~= kept_paths(paths@, path_count));
    kept
}

/// The topology is read three times at most, whatever the system returns: after six calls the
/// reading is over.
pub proof fn topology_is_read_three_times_at_most(statuses: Seq<u32>)
    ensures
        ActivePaths::first().after(statuses).wf(),
        ActivePaths::first().after(statuses).calls_left() <= if statuses.len() <= 6 {
            6 - statuses.len()
        } else {
            0
        },
    decreases statuses.len(),
{
    if statuses.len() > 0 {
        topology_is_read_three_times_at_most(statuses.drop_last());
    }
}

/// A call that succeeds leads on. Only buffers that became too small have both calls made again, and
/// only while fewer than three readings were begun. Any other failure ends the reading.
pub proof fn only_outgrown_buffers_are_read_again(query: ActivePaths, status: u32)
    ensures
        query.step is QuerySizes ==> query.next(status).snapshots == query.snapshots && (if status
            == 0 {
            query.next(status).step is QueryPaths
        } else {
            query.next(status).step is Unavailable
        }),
        query.step is QueryPaths && status == 0 ==> query.next(status).step is Ready,
        query.step is QueryPaths && status == 122 && query.snapshots < 3 ==> query.next(
            status,
        ).step is QuerySizes && query.next(status).snapshots == query.snapshots + 1,
        query.step is QueryPaths && status != 0 && !(status == 122 && query.snapshots < 3)
            ==> query.next(status).step is Unavailable,
        query.step is Ready || query.step is Unavailable ==> query.next(status) == query,
        ActivePaths::first().snapshots == 1 && ActivePaths::first().step is QuerySizes,
{
}

} // verus!
