//! Setting the SDR white level of the panel: one write at most, and one reading after it.

use vstd::prelude::*;

use crate::display::{
    get_sdr_white_level, verification_outcome, Adapter, ApplyOutcome, DeviceQuery, DeviceReply,
    DeviceRequest, HdrTarget, PathTarget, TargetLookup,
};
use crate::locate::{locate_hdr_target, Locator, LocatorView, LookupStep};

verus! {

/// How far the attempt is.
#[derive(Clone, Copy, Debug, PartialEq, Eq, Structural)]
pub enum ApplyPhase {
    Locating,
    Writing(HdrTarget),
    ReadingBack(HdrTarget),
    Done(ApplyOutcome),
}

/// A write of the white level.
#[derive(Clone, Copy, Debug, PartialEq, Eq, Structural)]
pub struct WriteRequest {
    pub adapter: Adapter,
    pub target_id: u32,
    pub white_level: u32,
}

/// What to do next.
#[derive(Clone, Copy, Debug, PartialEq, Eq, Structural)]
pub enum ApplyStep {
    Ask(DeviceRequest),
    Write(WriteRequest),
    Done(ApplyOutcome),
}

/// The attempt to set the white level.
#[derive(Debug)]
pub struct Apply {
    required: u32,
    locator: Locator,
    phase: ApplyPhase,
}

/// The attempt to set the white level, as mathematics sees it.
pub struct ApplyView {
    pub required: u32,
    pub locator: LocatorView,
    pub phase: ApplyPhase,
}

impl View for Apply {
    type V = ApplyView;

    closed spec fn view(&self) -> ApplyView {
        ApplyView { required: self.required, locator: self.locator@, phase: self.phase }
    }
}

/// What follows once the search for the panel is over.
pub open spec fn after_search(required: u32, lookup: TargetLookup) -> ApplyPhase {
    match lookup {
        TargetLookup::Found(target) => if target.current_white_level == required {
            ApplyPhase::Done(ApplyOutcome::AlreadyCorrect)
        } else {
            ApplyPhase::Writing(target)
        },
        TargetLookup::NoHdrTarget => ApplyPhase::Done(ApplyOutcome::NoHdrTarget),
        TargetLookup::AmbiguousInternalTargets => ApplyPhase::Done(
            ApplyOutcome::AmbiguousInternalTargets,
        ),
        TargetLookup::TopologyUnavailable => ApplyPhase::Done(ApplyOutcome::TopologyUnavailable),
        TargetLookup::InspectionUnavailable => ApplyPhase::Done(
            ApplyOutcome::InspectionUnavailable,
        ),
    }
}

impl ApplyView {
    /// While the panel is searched for, the search is not over.
    pub open spec fn wf(self) -> bool {
        &&& self.locator.wf()
        &&& self.phase == ApplyPhase::Locating ==> self.locator.step() is Ask
    }

    /// The attempt with the search as far as `locator`.
    pub open spec fn searching(required: u32, locator: LocatorView) -> ApplyView {
        ApplyView {
            required,
            locator,
            phase: match locator.step() {
                LookupStep::Ask(_) => ApplyPhase::Locating,
                LookupStep::Done(lookup) => after_search(required, lookup),
            },
        }
    }

    /// The attempt at its start.
    pub open spec fn start(required: u32, paths: Option<Seq<PathTarget>>) -> ApplyView {
        ApplyView::searching(required, LocatorView::start(paths))
    }

    /// What to do next.
    pub open spec fn step(self) -> ApplyStep {
        match self.phase {
            ApplyPhase::Locating => match self.locator.step() {
                LookupStep::Ask(request) => ApplyStep::Ask(request),
                LookupStep::Done(_) => ApplyStep::Done(ApplyOutcome::InspectionUnavailable),
            },
            ApplyPhase::Writing(target) => ApplyStep::Write(
                WriteRequest {
                    adapter: target.adapter,
                    target_id: target.target_id,
                    white_level: self.required,
                },
            ),
            ApplyPhase::ReadingBack(target) => ApplyStep::Ask(
                DeviceRequest {
                    query: DeviceQuery::WhiteLevel,
                    adapter: target.adapter,
                    target_id: target.target_id,
                },
            ),
            ApplyPhase::Done(outcome) => ApplyStep::Done(outcome),
        }
    }

    /// The attempt after the reply to what was done last. Of the reply to a write only the status
    /// counts.
    pub open spec fn next(self, reply: DeviceReply) -> ApplyView {
        match self.phase {
            ApplyPhase::Locating => ApplyView::searching(self.required, self.locator.next(reply)),
            ApplyPhase::Writing(target) => ApplyView {
                phase: if reply.status != 0 {
                    ApplyPhase::Done(ApplyOutcome::SetFailed(reply.status))
                } else {
                    ApplyPhase::ReadingBack(target)
                },
                ..self
            },
            ApplyPhase::ReadingBack(_) => ApplyView {
                phase: ApplyPhase::Done(
                    crate::display::verified(self.required, crate::display::read_level(reply)),
                ),
                ..self
            },
            ApplyPhase::Done(_) => self,
        }
    }

    /// The attempt after a number of replies.
    pub open spec fn after(self, replies: Seq<DeviceReply>) -> ApplyView
        decreases replies.len(),
    {
        if replies.len() == 0 {
            self
        } else {
            self.after(replies.drop_last()).next(replies.last())
        }
    }

    /// What is done for reply `index`.
    pub open spec fn performed(self, replies: Seq<DeviceReply>, index: int) -> ApplyStep {
        self.after(replies.take(index)).step()
    }
}

/// Starts an attempt to set the white level of the panel among the active paths.
pub fn apply_sdr_white_level(required_white_level: u32, paths: Option<Vec<PathTarget>>) -> (apply:
    Apply)
    ensures
        apply@ == ApplyView::start(
            required_white_level,
            match paths {
                Some(paths) => Some(paths@),
                None => None,
            },
        ),
        apply@.wf(),
{
    let locator = locate_hdr_target(paths);
    let mut apply = Apply {
        required: required_white_level,
        locator,
        phase: ApplyPhase::Locating,
    };
    apply.note_search();
    apply
}

impl Apply {
    /// Goes on from the search if it is over.
    fn note_search(&mut self)
        requires
            old(self)@.locator.wf(),
            old(self)@.phase == ApplyPhase::Locating,
        ensures
            final(self)@ == ApplyView::searching(old(self)@.required, old(self)@.locator),
            final(self)@.wf(),
    {
        if let LookupStep::Done(lookup) = self.locator.step() {
            self.phase =
            match lookup {
                TargetLookup::Found(target) => {
                    if target.current_white_level == self.required {
                        ApplyPhase::Done(ApplyOutcome::AlreadyCorrect)
                    } else {
                        ApplyPhase::Writing(target)
                    }
                },
                TargetLookup::NoHdrTarget => ApplyPhase::Done(ApplyOutcome::NoHdrTarget),
                TargetLookup::AmbiguousInternalTargets => {
                    ApplyPhase::Done(ApplyOutcome::AmbiguousInternalTargets)
                },
                TargetLookup::TopologyUnavailable => {
                    ApplyPhase::Done(ApplyOutcome::TopologyUnavailable)
                },
                TargetLookup::InspectionUnavailable => {
                    ApplyPhase::Done(ApplyOutcome::InspectionUnavailable)
                },
            };
        }
    }

    /// What to do next.
    pub fn step(&self) -> (step: ApplyStep)
        requires
            self@.wf(),
        ensures
            step == self@.step(),
    {
        match self.phase {
            ApplyPhase::Locating => match self.locator.step() {
                LookupStep::Ask(request) => ApplyStep::Ask(request),
                LookupStep::Done(_) => ApplyStep::Done(ApplyOutcome::InspectionUnavailable),
            },
            ApplyPhase::Writing(target) => ApplyStep::Write(
                WriteRequest {
                    adapter: target.adapter,
                    target_id: target.target_id,
                    white_level: self.required,
                },
            ),
            ApplyPhase::ReadingBack(target) => ApplyStep::Ask(
                DeviceRequest {
                    query: DeviceQuery::WhiteLevel,
                    adapter: target.adapter,
                    target_id: target.target_id,
                },
            ),
            ApplyPhase::Done(outcome) => ApplyStep::Done(outcome),
        }
    }

    /// Takes the reply to what was done last.
    ///
    /// Every write that succeeded is followed by one reading. A level that differs is reported and
    /// never written again: a change in the system's settings in the meantime has the last word.
    pub fn answer(&mut self, reply: &DeviceReply)
        requires
            old(self)@.wf(),
        ensures
            final(self)@ == old(self)@.next(*reply),
            final(self)@.wf(),
    {
        match self.phase {
            ApplyPhase::Locating => {
                self.locator.answer(reply);
                self.note_search();
            },
            ApplyPhase::Writing(target) => {
                self.phase = if reply.status != 0 {
                    ApplyPhase::Done(ApplyOutcome::SetFailed(reply.status))
                } else {
                    ApplyPhase::ReadingBack(target)
                };
            },
            ApplyPhase::ReadingBack(_) => {
                self.phase =
                ApplyPhase::Done(verification_outcome(self.required, get_sdr_white_level(reply)));
            },
            ApplyPhase::Done(_) => {},
        }
    }
}

impl ApplyView {
    /// How far the attempt is, as a number.
    spec fn rank(self) -> int {
        match self.phase {
            ApplyPhase::Locating => 0,
            ApplyPhase::Writing(_) => 1,
            ApplyPhase::ReadingBack(_) => 2,
            ApplyPhase::Done(_) => 3,
        }
    }
}

/// What one reply leads to.
proof fn after_one_more(view: ApplyView, replies: Seq<DeviceReply>, index: int)
    requires
        0 <= index < replies.len(),
    ensures
        view.after(replies.take(index + 1)) == view.after(replies.take(index)).next(replies[index]),
{
    assert(replies.take(index + 1).drop_last() =~= replies.take(index));
}

/// An attempt never goes back.
proof fn rank_never_falls(view: ApplyView, replies: Seq<DeviceReply>, first: int, second: int)
    requires
        0 <= first <= second <= replies.len(),
    ensures
        view.after(replies.take(first)).rank() <= view.after(replies.take(second)).rank(),
    decreases second - first,
{
    if first < second {
        rank_never_falls(view, replies, first, second - 1);
        after_one_more(view, replies, second - 1);
    }
}

/// What an attempt keeps, and what it does not touch.
proof fn attempt_keeps(required: u32, paths: Option<Seq<PathTarget>>, replies: Seq<DeviceReply>)
    ensures
        ({
            let view = ApplyView::start(required, paths).after(replies);
            &&& view.wf()
            &&& view.required == required
            &&& view.locator.targets == LocatorView::start(paths).targets
            &&& (view.phase matches ApplyPhase::Writing(target) ==> view.locator.step()
                == LookupStep::Done(TargetLookup::Found(target)) && target.current_white_level
                != required)
        }),
    decreases replies.len(),
{
    if replies.len() > 0 {
        attempt_keeps(required, paths, replies.drop_last());
        let view = ApplyView::start(required, paths).after(replies.drop_last());
        if view.locator.step() is Ask {
            crate::locate::every_reply_is_progress(view.locator, replies.last());
        }
    }
}

/// An attempt writes once at most, whatever the system replies.
pub proof fn white_level_is_written_once_at_most(
    required: u32,
    paths: Option<Seq<PathTarget>>,
    replies: Seq<DeviceReply>,
    first: int,
    second: int,
)
    requires
        0 <= first <= replies.len(),
        0 <= second <= replies.len(),
        ApplyView::start(required, paths).performed(replies, first) is Write,
        ApplyView::start(required, paths).performed(replies, second) is Write,
    ensures
        first == second,
{
    let view = ApplyView::start(required, paths);
    if first < second {
        after_one_more(view, replies, first);
        rank_never_falls(view, replies, first + 1, second);
    } else if second < first {
        after_one_more(view, replies, second);
        rank_never_falls(view, replies, second + 1, first);
    }
}

/// A write that succeeds is followed by one reading of the same panel's level, and then by
/// nothing: the outcome is what the reading says. There is no second try.
pub proof fn successful_write_is_read_once(
    required: u32,
    paths: Option<Seq<PathTarget>>,
    replies: Seq<DeviceReply>,
    index: int,
    later: int,
)
    requires
        0 <= index < replies.len(),
        index + 1 < later <= replies.len(),
        ApplyView::start(required, paths).performed(replies, index) is Write,
        replies[index].status == 0,
    ensures
        ({
            let view = ApplyView::start(required, paths);
            let write = view.performed(replies, index)->Write_0;
            &&& view.performed(replies, index + 1) == ApplyStep::Ask(
                DeviceRequest {
                    query: DeviceQuery::WhiteLevel,
                    adapter: write.adapter,
                    target_id: write.target_id,
                },
            )
            &&& view.performed(replies, later) == ApplyStep::Done(
                crate::display::verified(required, crate::display::read_level(replies[index + 1])),
            )
        }),
    decreases later,
{
    let view = ApplyView::start(required, paths);
    attempt_keeps(required, paths, replies.take(index));
    after_one_more(view, replies, index);
    after_one_more(view, replies, index + 1);
    if later > index + 2 {
        successful_write_is_read_once(required, paths, replies, index, later - 1);
        after_one_more(view, replies, later - 1);
    }
}

/// A write that fails is followed by nothing: the outcome is its status.
pub proof fn failed_write_is_final(
    required: u32,
    paths: Option<Seq<PathTarget>>,
    replies: Seq<DeviceReply>,
    index: int,
    later: int,
)
    requires
        0 <= index < later <= replies.len(),
        ApplyView::start(required, paths).performed(replies, index) is Write,
        replies[index].status != 0,
    ensures
        ApplyView::start(required, paths).performed(replies, later) == ApplyStep::Done(
            ApplyOutcome::SetFailed(replies[index].status),
        ),
    decreases later,
{
    let view = ApplyView::start(required, paths);
    after_one_more(view, replies, index);
    if later > index + 1 {
        failed_write_is_final(required, paths, replies, index, later - 1);
        after_one_more(view, replies, later - 1);
    }
}

/// A write goes to the only built-in target among the active paths, with the required level.
/// Without such a target nothing is written.
pub proof fn only_the_unique_panel_is_written(
    required: u32,
    paths: Option<Seq<PathTarget>>,
    replies: Seq<DeviceReply>,
    index: int,
)
    requires
        0 <= index <= replies.len(),
        ApplyView::start(required, paths).performed(replies, index) is Write,
    ensures
        ({
            let write = ApplyView::start(required, paths).performed(replies, index)->Write_0;
            &&& paths is Some
            &&& crate::locate::built_in_targets(paths->0) == seq![(write.adapter, write.target_id)]
            &&& write.white_level == required
        }),
{
    attempt_keeps(required, paths, replies.take(index));
}

/// The search inside an attempt comes to the result that paths and answers determine.
proof fn search_inside_settles(
    required: u32,
    paths: Option<Seq<PathTarget>>,
    answers: spec_fn(DeviceRequest) -> DeviceReply,
    replies: Seq<DeviceReply>,
    index: int,
)
    requires
        0 <= index <= replies.len(),
        forall|k: int|
            0 <= k < index ==> (#[trigger] ApplyView::start(required, paths).performed(replies, k))
                is Ask && replies[k] == answers(
                ApplyView::start(required, paths).performed(replies, k)->Ask_0,
            ),
        ApplyView::start(required, paths).after(replies.take(index)).rank() <= 1,
    ensures
        ApplyView::start(required, paths).after(replies.take(index)).locator.settled(answers)
            == LocatorView::start(paths).settled(answers),
    decreases index,
{
    let view = ApplyView::start(required, paths);
    if index == 0 {
        assert(replies.take(0) =~= Seq::<DeviceReply>::empty());
    } else {
        after_one_more(view, replies, index - 1);
        rank_never_falls(view, replies, index - 1, index);
        attempt_keeps(required, paths, replies.take(index - 1));
        assert(view.performed(replies, index - 1) is Ask);
        search_inside_settles(required, paths, answers, replies, index - 1);
    }
}

/// A write happens only if the system's answers before it determine a panel whose level differs
/// from the required one, and it goes to that panel.
pub proof fn write_needs_a_panel_with_another_level(
    required: u32,
    paths: Option<Seq<PathTarget>>,
    answers: spec_fn(DeviceRequest) -> DeviceReply,
    replies: Seq<DeviceReply>,
    index: int,
)
    requires
        0 <= index <= replies.len(),
        forall|k: int|
            0 <= k < index ==> (#[trigger] ApplyView::start(required, paths).performed(replies, k))
                is Ask && replies[k] == answers(
                ApplyView::start(required, paths).performed(replies, k)->Ask_0,
            ),
        ApplyView::start(required, paths).performed(replies, index) is Write,
    ensures
        ({
            let write = ApplyView::start(required, paths).performed(replies, index)->Write_0;
            &&& crate::locate::panel(paths, answers) matches TargetLookup::Found(target)
            &&& target.adapter == write.adapter
            &&& target.target_id == write.target_id
            &&& target.current_white_level != required
        }),
{
    attempt_keeps(required, paths, replies.take(index));
    search_inside_settles(required, paths, answers, replies, index);
    crate::locate::search_finds_the_panel(paths, answers);
}

impl ApplyView {
    /// The attempt once its search is over, if the system answers each question as `answers` says.
    pub open spec fn searched(self, answers: spec_fn(DeviceRequest) -> DeviceReply) -> ApplyView
        decreases self.locator.questions_left(),
    {
        match (self.phase, self.locator.step()) {
            (ApplyPhase::Locating, LookupStep::Ask(request)) => self.next(
                answers(request),
            ).searched(answers),
            _ => self,
        }
    }
}

/// The search of an attempt ends where the search alone would.
proof fn search_decides(
    required: u32,
    locator: LocatorView,
    answers: spec_fn(DeviceRequest) -> DeviceReply,
)
    ensures
        ApplyView::searching(required, locator).searched(answers).phase == after_search(
            required,
            locator.settled(answers),
        ),
    decreases locator.questions_left(),
{
    if let LookupStep::Ask(request) = locator.step() {
        search_decides(required, locator.next(answers(request)), answers);
    }
}

/// What follows the search is decided by the panel that paths and answers determine: a panel with
/// another level is written, one with the required level is left alone, and without a panel the
/// reason is the outcome.
pub proof fn panel_decides_the_attempt(
    required: u32,
    paths: Option<Seq<PathTarget>>,
    answers: spec_fn(DeviceRequest) -> DeviceReply,
)
    ensures
        ApplyView::start(required, paths).searched(answers).phase == after_search(
            required,
            crate::locate::panel(paths, answers),
        ),
{
    search_decides(required, LocatorView::start(paths), answers);
    crate::locate::search_finds_the_panel(paths, answers);
}

/// The level of the panel that was found decides what is done about it: the attempt ends as already
/// correct exactly if it is the required one, and for every other level, lower or higher, the
/// required one is written to that panel. A level that cannot be read ends the attempt.
pub proof fn panel_is_written_unless_its_level_is_right(
    view: ApplyView,
    request: DeviceRequest,
    reply: DeviceReply,
)
    requires
        view.wf(),
        view.phase == ApplyPhase::Locating,
        view.step() == ApplyStep::Ask(request),
        request.query == DeviceQuery::WhiteLevel,
    ensures
        view.next(reply).step() == ApplyStep::Done(ApplyOutcome::AlreadyCorrect) <==> reply.status
            == 0 && reply.white_level == view.required,
        reply.status == 0 && reply.white_level != view.required ==> view.next(reply).step()
            == ApplyStep::Write(
            WriteRequest {
                adapter: request.adapter,
                target_id: request.target_id,
                white_level: view.required,
            },
        ),
        reply.status != 0 ==> view.next(reply).step() == ApplyStep::Done(
            ApplyOutcome::InspectionUnavailable,
        ),
        view.next(reply).required == view.required,
{
    crate::locate::reply_decides(view.locator, reply, request);
}

/// What the reply to a write leads to, and what the reading after it does: the attempt ends as
/// applied and verified exactly if the level that is read back is the required one, and says
/// otherwise what was read, or that nothing was.
pub proof fn write_is_verified_by_one_reading(
    view: ApplyView,
    write: WriteRequest,
    reply: DeviceReply,
    reading: DeviceReply,
)
    requires
        view.wf(),
        view.step() == ApplyStep::Write(write),
    ensures
        write.white_level == view.required,
        reply.status != 0 ==> view.next(reply).step() == ApplyStep::Done(
            ApplyOutcome::SetFailed(reply.status),
        ),
        reply.status == 0 ==> view.next(reply).step() == ApplyStep::Ask(
            DeviceRequest {
                query: DeviceQuery::WhiteLevel,
                adapter: write.adapter,
                target_id: write.target_id,
            },
        ),
        reply.status == 0 ==> view.next(reply).next(reading).step() == ApplyStep::Done(
            if reading.status == 0 && reading.white_level == write.white_level {
                ApplyOutcome::AppliedAndVerified
            } else {
                ApplyOutcome::VerificationFailed {
                    expected: write.white_level,
                    observed: if reading.status == 0 {
                        Some(reading.white_level)
                    } else {
                        None
                    },
                }
            },
        ),
{
}

/// A whole attempt on the only built-in panel, in HDR: its name, its colour state and its level are
/// asked for, and then it ends or the required level is written to it.
pub proof fn attempt_on_the_only_panel(
    required: u32,
    paths: Seq<PathTarget>,
    target: (Adapter, u32),
    name: DeviceReply,
    color: DeviceReply,
    level: DeviceReply,
)
    requires
        crate::locate::built_in_targets(paths) == seq![target],
        name.status == 0 && (name.technology == -0x8000_0000 || name.technology
            == 11 || name.technology == 13 || name.technology == 6),
        color.status == 0 && color.flags & 0x10 != 0 && color.flags & 0x20 != 0 && color.color_mode
            == 2,
        level.status == 0,
    ensures
        ({
            let start = ApplyView::start(required, Some(paths));
            let about = |query: DeviceQuery|
                ApplyStep::Ask(DeviceRequest { query, adapter: target.0, target_id: target.1 });
            &&& start.step() == about(DeviceQuery::TargetName)
            &&& start.next(name).step() == about(DeviceQuery::AdvancedColor2)
            &&& start.next(name).next(color).step() == about(DeviceQuery::WhiteLevel)
            &&& start.next(name).next(color).next(level).step() == if level.white_level
                == required {
                ApplyStep::Done(ApplyOutcome::AlreadyCorrect)
            } else {
                ApplyStep::Write(
                    WriteRequest {
                        adapter: target.0,
                        target_id: target.1,
                        white_level: required,
                    },
                )
            }
        }),
{
    let none = Seq::<DeviceReply>::empty();
    let one = seq![name];
    let locator = LocatorView::start(Some(paths));
    crate::locate::every_name_is_asked_for(paths, none);
    assert(one.drop_last() =~= none);
    assert(one.last() == name);
    crate::locate::every_name_is_asked_for(paths, one);
    reveal_with_fuel(LocatorView::after, 2);
    assert(locator.after(one) == locator.next(name));
    let request = DeviceRequest {
        query: DeviceQuery::AdvancedColor2,
        adapter: target.0,
        target_id: target.1,
    };
    crate::locate::reply_decides(locator.next(name), color, request);
    let last = DeviceRequest { query: DeviceQuery::WhiteLevel, ..request };
    let view = ApplyView::start(required, Some(paths)).next(name).next(color);
    assert(view.locator == locator.next(name).next(color));
    panel_is_written_unless_its_level_is_right(view, last, level);
}

/// A search that finds no panel is the attempt's outcome, as what it was.
pub proof fn search_without_a_panel_is_the_outcome(view: ApplyView, reply: DeviceReply)
    requires
        view.wf(),
        view.phase == ApplyPhase::Locating,
    ensures
        view.locator.next(reply).step() == LookupStep::Done(TargetLookup::NoHdrTarget)
            ==> view.next(reply).step() == ApplyStep::Done(ApplyOutcome::NoHdrTarget),
        view.locator.next(reply).step() == LookupStep::Done(TargetLookup::AmbiguousInternalTargets)
            ==> view.next(reply).step() == ApplyStep::Done(ApplyOutcome::AmbiguousInternalTargets),
        view.locator.next(reply).step() == LookupStep::Done(TargetLookup::InspectionUnavailable)
            ==> view.next(reply).step() == ApplyStep::Done(ApplyOutcome::InspectionUnavailable),
        view.locator.next(reply).step() matches LookupStep::Ask(request) ==> view.next(reply).step()
            == ApplyStep::Ask(request),
        ApplyView::start(view.required, None).step() == ApplyStep::Done(
            ApplyOutcome::TopologyUnavailable,
        ),
        ApplyView::start(view.required, Some(Seq::<PathTarget>::empty())).step() == ApplyStep::Done(
            ApplyOutcome::NoHdrTarget,
        ),
{
}

} // verus!
