//! A whole attempt to set or to read the white level. It begins with a fresh reading of the active
//! display paths, and nothing that was read for an earlier attempt is used.

use vstd::prelude::*;

use crate::apply::{apply_sdr_white_level, Apply, ApplyStep, ApplyView, WriteRequest};
use crate::display::{
    ApplyOutcome, DeviceReply, DeviceRequest, PathTarget, ProbeOutcome, TargetLookup,
};
use crate::locate::{
    locate_hdr_target, probe_sdr_white_level, probed, Locator, LocatorView, LookupStep,
};
use crate::topology::{active_paths, kept_paths, returned_paths, ActivePaths, TopologyStep};

verus! {

/// What an attempt is for.
#[derive(Clone, Copy, Debug, PartialEq, Eq, Structural)]
pub enum Purpose {
    /// Set this white level.
    Apply(u32),
    /// Read the white level.
    Probe,
}

/// What to do next.
#[derive(Clone, Copy, Debug, PartialEq, Eq, Structural)]
pub enum AttemptStep {
    /// Ask how large the answer with the active paths will be.
    QuerySizes,
    /// Ask for the active paths, with buffers of the sizes that were told.
    QueryPaths,
    Ask(DeviceRequest),
    Write(WriteRequest),
    Applied(ApplyOutcome),
    Probed(ProbeOutcome),
}

/// What the attempt does at present.
#[derive(Debug)]
enum Work {
    Reading,
    Applying(Apply),
    Locating(Locator),
}

/// An attempt to set or to read the white level.
#[derive(Debug)]
pub struct Attempt {
    purpose: Purpose,
    topology: ActivePaths,
    work: Work,
}

/// What the attempt does at present, as mathematics sees it.
pub enum WorkView {
    /// The active paths are read.
    Reading,
    /// The white level is set.
    Applying(ApplyView),
    /// The panel is searched for.
    Locating(LocatorView),
}

/// An attempt to set or to read the white level, as mathematics sees it.
pub struct AttemptView {
    pub purpose: Purpose,
    pub topology: ActivePaths,
    pub work: WorkView,
}

impl View for Attempt {
    type V = AttemptView;

    closed spec fn view(&self) -> AttemptView {
        AttemptView {
            purpose: self.purpose,
            topology: self.topology,
            work: match self.work {
                Work::Reading => WorkView::Reading,
                Work::Applying(apply) => WorkView::Applying(apply@),
                Work::Locating(locator) => WorkView::Locating(locator@),
            },
        }
    }
}

/// The reply to a call that reads the active paths: its status, and for the second call the paths in
/// the buffer and how many of them the system returned.
pub struct TopologyReply {
    pub status: u32,
    pub paths: Seq<PathTarget>,
    pub path_count: u32,
}

/// Whether a reading of the active paths is over.
pub open spec fn reading_is_over(topology: ActivePaths) -> bool {
    topology.step is Ready || topology.step is Unavailable
}

/// The paths that a reading that is over came to, if `reply` ended it.
pub open spec fn paths_read(topology: ActivePaths, reply: TopologyReply) -> Option<
    Seq<PathTarget>,
> {
    if topology.step is Ready {
        Some(kept_paths(reply.paths, reply.path_count))
    } else {
        None
    }
}

/// The work that begins with the paths.
pub open spec fn begun(purpose: Purpose, paths: Option<Seq<PathTarget>>) -> WorkView {
    match purpose {
        Purpose::Apply(level) => WorkView::Applying(ApplyView::start(level, paths)),
        Purpose::Probe => WorkView::Locating(LocatorView::start(paths)),
    }
}

impl WorkView {
    /// The work after a reply to a question or a write.
    pub open spec fn next(self, reply: DeviceReply) -> WorkView {
        match self {
            WorkView::Reading => WorkView::Reading,
            WorkView::Applying(apply) => WorkView::Applying(apply.next(reply)),
            WorkView::Locating(locator) => WorkView::Locating(locator.next(reply)),
        }
    }
}

impl AttemptView {
    /// The attempt at its start: the active paths are to be read.
    pub open spec fn start(purpose: Purpose) -> AttemptView {
        AttemptView { purpose, topology: ActivePaths::first(), work: WorkView::Reading }
    }

    /// The paths are being read exactly while their reading is not over, and the work is sound.
    pub open spec fn wf(self) -> bool {
        &&& self.topology.wf()
        &&& match self.work {
            WorkView::Reading => !reading_is_over(self.topology),
            WorkView::Applying(apply) => reading_is_over(self.topology) && apply.wf(),
            WorkView::Locating(locator) => reading_is_over(self.topology) && locator.wf(),
        }
    }

    /// What to do next.
    pub open spec fn step(self) -> AttemptStep {
        match self.work {
            WorkView::Reading => if self.topology.step is QuerySizes {
                AttemptStep::QuerySizes
            } else {
                AttemptStep::QueryPaths
            },
            WorkView::Applying(apply) => match apply.step() {
                ApplyStep::Ask(request) => AttemptStep::Ask(request),
                ApplyStep::Write(write) => AttemptStep::Write(write),
                ApplyStep::Done(outcome) => AttemptStep::Applied(outcome),
            },
            WorkView::Locating(locator) => match locator.step() {
                LookupStep::Ask(request) => AttemptStep::Ask(request),
                LookupStep::Done(lookup) => AttemptStep::Probed(probed(lookup)),
            },
        }
    }

    /// The attempt after a call that reads the active paths. Once they are read, there is no such
    /// call any more.
    pub open spec fn next_read(self, reply: TopologyReply) -> AttemptView {
        if self.work is Reading {
            let topology = self.topology.next(reply.status);
            AttemptView {
                topology,
                work: if reading_is_over(topology) {
                    begun(self.purpose, paths_read(topology, reply))
                } else {
                    WorkView::Reading
                },
                ..self
            }
        } else {
            self
        }
    }

    /// The attempt after the reply to a question or a write.
    pub open spec fn next(self, reply: DeviceReply) -> AttemptView {
        AttemptView { work: self.work.next(reply), ..self }
    }

    /// The attempt after a number of calls that read the active paths.
    pub open spec fn after_reads(self, replies: Seq<TopologyReply>) -> AttemptView
        decreases replies.len(),
    {
        if replies.len() == 0 {
            self
        } else {
            self.after_reads(replies.drop_last()).next_read(replies.last())
        }
    }

    /// The attempt after a number of replies to questions and writes.
    pub open spec fn after(self, replies: Seq<DeviceReply>) -> AttemptView
        decreases replies.len(),
    {
        if replies.len() == 0 {
            self
        } else {
            self.after(replies.drop_last()).next(replies.last())
        }
    }
}

impl Attempt {
    /// Begins an attempt.
    pub fn begin(purpose: Purpose) -> (attempt: Attempt)
        ensures
            attempt@ == AttemptView::start(purpose),
            attempt@.wf(),
    {
        Attempt { purpose, topology: active_paths(), work: Work::Reading }
    }

    /// What to do next.
    pub fn step(&self) -> (step: AttemptStep)
        requires
            self@.wf(),
        ensures
            step == self@.step(),
    {
        match &self.work {
            Work::Reading => match self.topology.step {
                TopologyStep::QuerySizes => AttemptStep::QuerySizes,
                _ => AttemptStep::QueryPaths,
            },
            Work::Applying(apply) => match apply.step() {
                ApplyStep::Ask(request) => AttemptStep::Ask(request),
                ApplyStep::Write(write) => AttemptStep::Write(write),
                ApplyStep::Done(outcome) => AttemptStep::Applied(outcome),
            },
            Work::Locating(locator) => match locator.step() {
                LookupStep::Ask(request) => AttemptStep::Ask(request),
                LookupStep::Done(lookup) => AttemptStep::Probed(probe_sdr_white_level(lookup)),
            },
        }
    }

    /// Takes the reply to a call that reads the active paths. The paths and their number count for
    /// the second call only.
    pub fn answer_read(&mut self, status: u32, paths: Vec<PathTarget>, path_count: u32)
        requires
            old(self)@.wf(),
        ensures
            final(self)@ == old(self)@.next_read(
                TopologyReply { status, paths: paths@, path_count },
            ),
            final(self)@.wf(),
    {
        if let Work::Reading = self.work {
            self.topology.answer(status);
            let read: Option<Vec<PathTarget>> = match self.topology.step {
                TopologyStep::Ready => Some(returned_paths(paths, path_count)),
                TopologyStep::Unavailable => None,
                _ => {
                    return;
                },
            };
            self.work = match self.purpose {
                Purpose::Apply(level) => Work::Applying(apply_sdr_white_level(level, read)),
                Purpose::Probe => Work::Locating(locate_hdr_target(read)),
            };
        }
    }

    /// Takes the reply to a question or a write.
    pub fn answer(&mut self, reply: &DeviceReply)
        requires
            old(self)@.wf(),
        ensures
            final(self)@ == old(self)@.next(*reply),
            final(self)@.wf(),
    {
        match &mut self.work {
            Work::Reading => {},
            Work::Applying(apply) => {
                apply.answer(reply);
            },
            Work::Locating(locator) => {
                locator.answer(reply);
            },
        }
    }
}

/// The statuses of replies.
pub open spec fn statuses(replies: Seq<TopologyReply>) -> Seq<u32> {
    replies.map_values(|reply: TopologyReply| reply.status)
}

/// Every attempt reads the active paths itself, from the beginning, and does nothing else until
/// they are read; and then it does not read them again.
pub proof fn attempt_begins_with_a_fresh_reading(purpose: Purpose, replies: Seq<TopologyReply>)
    ensures
        ({
            let attempt = AttemptView::start(purpose).after_reads(replies);
            &&& attempt.purpose == purpose
            &&& attempt.topology == ActivePaths::first().after(statuses(replies))
            &&& attempt.work is Reading <==> !reading_is_over(attempt.topology)
            &&& (attempt.step() is QuerySizes || attempt.step() is QueryPaths)
                <==> !reading_is_over(attempt.topology)
        }),
    decreases replies.len(),
{
    if replies.len() > 0 {
        let before = replies.drop_last();
        attempt_begins_with_a_fresh_reading(purpose, before);
        assert(statuses(replies).drop_last() =~= statuses(before));
        assert(statuses(replies).last() == replies.last().status);
    } else {
        assert(statuses(replies) =~= Seq::<u32>::empty());
    }
}

/// The work goes on by itself once it has begun.
proof fn work_goes_on(attempt: AttemptView, replies: Seq<DeviceReply>)
    ensures
        attempt.after(replies).purpose == attempt.purpose,
        attempt.after(replies).topology == attempt.topology,
        match attempt.work {
            WorkView::Reading => attempt.after(replies).work == WorkView::Reading,
            WorkView::Applying(apply) => attempt.after(replies).work == WorkView::Applying(
                apply.after(replies),
            ),
            WorkView::Locating(locator) => attempt.after(replies).work == WorkView::Locating(
                locator.after(replies),
            ),
        },
    decreases replies.len(),
{
    if replies.len() > 0 {
        work_goes_on(attempt, replies.drop_last());
    }
}

/// The panel is searched for among exactly the paths that the attempt has read itself: those that
/// its last reading returned, or none if it could not be had.
pub proof fn fresh_paths_are_searched(
    purpose: Purpose,
    reads: Seq<TopologyReply>,
    last: TopologyReply,
    replies: Seq<DeviceReply>,
)
    requires
        !reading_is_over(ActivePaths::first().after(statuses(reads))),
        reading_is_over(ActivePaths::first().after(statuses(reads.push(last)))),
    ensures
        ({
            let topology = ActivePaths::first().after(statuses(reads.push(last)));
            let paths = paths_read(topology, last);
            let attempt = AttemptView::start(purpose).after_reads(reads.push(last)).after(replies);
            attempt.work == match purpose {
                Purpose::Apply(level) => WorkView::Applying(
                    ApplyView::start(level, paths).after(replies),
                ),
                Purpose::Probe => WorkView::Locating(LocatorView::start(paths).after(replies)),
            }
        }),
{
    attempt_begins_with_a_fresh_reading(purpose, reads);
    attempt_begins_with_a_fresh_reading(purpose, reads.push(last));
    assert(reads.push(last).drop_last() =~= reads);
    work_goes_on(AttemptView::start(purpose).after_reads(reads.push(last)), replies);
}

/// An attempt to read the white level never writes.
pub proof fn probing_never_writes(reads: Seq<TopologyReply>, replies: Seq<DeviceReply>)
    ensures
        !(AttemptView::start(Purpose::Probe).after_reads(reads).after(replies).step() is Write),
{
    let read = AttemptView::start(Purpose::Probe).after_reads(reads);
    probing_only_locates(reads);
    work_goes_on(read, replies);
}

proof fn probing_only_locates(reads: Seq<TopologyReply>)
    ensures
        AttemptView::start(Purpose::Probe).after_reads(reads).purpose == Purpose::Probe,
        !(AttemptView::start(Purpose::Probe).after_reads(reads).work is Applying),
    decreases reads.len(),
{
    if reads.len() > 0 {
        probing_only_locates(reads.drop_last());
    }
}

/// What an attempt does is what its work does: the questions and the write are those of the work,
/// and its end is the work's. A panel that a probe finds is a sample of what was read.
pub proof fn attempt_does_what_its_work_does(attempt: AttemptView, reply: DeviceReply)
    ensures
        attempt.work matches WorkView::Applying(apply) ==> {
            &&& apply.step() matches ApplyStep::Ask(request) ==> attempt.step() == AttemptStep::Ask(
                request,
            )
            &&& apply.step() matches ApplyStep::Write(write) ==> attempt.step()
                == AttemptStep::Write(write)
            &&& apply.step() matches ApplyStep::Done(outcome) ==> attempt.step()
                == AttemptStep::Applied(outcome)
            &&& attempt.next(reply).work == WorkView::Applying(apply.next(reply))
        },
        attempt.work matches WorkView::Locating(locator) ==> {
            &&& locator.step() matches LookupStep::Ask(request) ==> attempt.step()
                == AttemptStep::Ask(request)
            &&& locator.step() matches LookupStep::Done(TargetLookup::Found(target)) ==> {
                &&& attempt.step() matches AttemptStep::Probed(ProbeOutcome::Sample(sample))
                &&& sample.adapter_low == target.adapter.low
                &&& sample.adapter_high == target.adapter.high
                &&& sample.target_id == target.target_id
                &&& sample.raw_white_level == target.current_white_level
            }
            &&& locator.step() == LookupStep::Done(TargetLookup::NoHdrTarget) ==> attempt.step()
                == AttemptStep::Probed(ProbeOutcome::NoHdrTarget)
            &&& locator.step() == LookupStep::Done(TargetLookup::AmbiguousInternalTargets)
                ==> attempt.step() == AttemptStep::Probed(ProbeOutcome::AmbiguousInternalTargets)
            &&& locator.step() == LookupStep::Done(TargetLookup::TopologyUnavailable)
                ==> attempt.step() == AttemptStep::Probed(ProbeOutcome::TopologyUnavailable)
            &&& locator.step() == LookupStep::Done(TargetLookup::InspectionUnavailable)
                ==> attempt.step() == AttemptStep::Probed(ProbeOutcome::InspectionUnavailable)
            &&& attempt.next(reply).work == WorkView::Locating(locator.next(reply))
        },
        attempt.next(reply).purpose == attempt.purpose,
{
}

/// Of what the system put into the buffer, as many paths are searched as it says it returned, in
/// their order; of a reading that failed, none.
pub proof fn returned_paths_are_searched(topology: ActivePaths, reply: TopologyReply)
    ensures
        topology.step is Ready ==> {
            &&& paths_read(topology, reply) matches Some(paths)
            &&& paths.len() == if reply.path_count <= reply.paths.len() {
                reply.path_count as int
            } else {
                reply.paths.len() as int
            }
            &&& forall|i: int| 0 <= i < paths.len() ==> #[trigger] paths[i] == reply.paths[i]
        },
        topology.step is Unavailable ==> paths_read(topology, reply) is None,
{
}

/// While the paths are read, what is asked for is what their reading asks for. Each reply goes into
/// the reading, and what the attempt is for never changes.
pub proof fn reading_asks_for_what_the_topology_needs(attempt: AttemptView, reply: TopologyReply)
    requires
        attempt.work is Reading,
    ensures
        attempt.topology.step is QuerySizes ==> attempt.step() is QuerySizes,
        attempt.topology.step is QueryPaths ==> attempt.step() is QueryPaths,
        attempt.next_read(reply).topology == attempt.topology.next(reply.status),
        attempt.next_read(reply).purpose == attempt.purpose,
        AttemptView::start(attempt.purpose).step() is QuerySizes,
        AttemptView::start(attempt.purpose).purpose == attempt.purpose,
        ({
            let next = attempt.next_read(reply);
            let step = attempt.topology.next(reply.status).step;
            let over = step is Ready || step is Unavailable;
            &&& next.work is Reading <==> !over
            &&& over && attempt.purpose is Probe ==> next.work == WorkView::Locating(
                LocatorView::start(paths_read(next.topology, reply)),
            )
            &&& over && attempt.purpose is Apply ==> next.work == WorkView::Applying(
                ApplyView::start(attempt.purpose->0, paths_read(next.topology, reply)),
            )
        }),
{
}

} // verus!
