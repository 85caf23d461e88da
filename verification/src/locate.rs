//! The search for the one internal panel that is in HDR.
//!
//! The system is asked about displays one question at a time. The search says what to ask next and
//! takes the reply; whoever drives it performs the calls.

use vstd::prelude::*;

use crate::display::{
    advanced_color_info_2, advanced_color_info_legacy, get_sdr_white_level, is_internal,
    target_name_is_internal, unique_candidate, Adapter, DeviceQuery, DeviceReply, DeviceRequest,
    HdrTarget, PathTarget, ProbeOutcome, ProbeSample, TargetKey, TargetLookup,
};

verus! {

/// The key of a path's target.
pub open spec fn key_of(path: PathTarget) -> TargetKey {
    TargetKey::spec_new(path.adapter, path.id)
}

/// Whether path `index` is available and no available path before it leads to the same target.
pub open spec fn is_first_available(paths: Seq<PathTarget>, index: int) -> bool {
    &&& paths[index].available
    &&& forall|earlier: int|
        0 <= earlier < index && (#[trigger] paths[earlier]).available ==> key_of(paths[earlier])
            != key_of(paths[index])
}

/// The targets that look built in, each at its first available path, in the order of the paths.
pub open spec fn built_in_targets(paths: Seq<PathTarget>) -> Seq<(Adapter, u32)>
    decreases paths.len(),
{
    if paths.len() == 0 {
        seq![]
    } else {
        let before = built_in_targets(paths.drop_last());
        let last = paths.last();
        if is_first_available(paths, paths.len() - 1) && crate::display::built_in(last.technology) {
            before.push((last.adapter, last.id))
        } else {
            before
        }
    }
}

/// Whether one of the keys is `key`.
fn contains_key(keys: &Vec<TargetKey>, key: TargetKey) -> (result: bool)
    ensures
        result == keys@.contains(key),
{
    let mut index: usize = 0;
    while index < keys.len()
        invariant
            index <= keys.len(),
            forall|i: int| 0 <= i < index ==> keys@[i] != key,
        decreases keys.len() - index,
    {
        if keys[index] == key {
            assert(keys@[index as int] == key);
            return true;
        }
        index = index + 1;
    }
    false
}

/// The targets that look built in, without repetition.
pub fn internal_targets(paths: &Vec<PathTarget>) -> (targets: Vec<(Adapter, u32)>)
    ensures
        targets@ == built_in_targets(paths@),
{
    let mut seen: Vec<TargetKey> = Vec::new();
    let mut targets: Vec<(Adapter, u32)> = Vec::new();
    let mut index: usize = 0;
    assert(paths@.take(0) =~= Seq::<PathTarget>::empty());
    while index < paths.len()
        invariant
            index <= paths.len(),
            targets@ == built_in_targets(paths@.take(index as int)),
            forall|i: int|
                0 <= i < index && (#[trigger] paths@[i]).available ==> seen@.contains(
                    key_of(paths@[i]),
                ),
            forall|k: int|
                0 <= k < seen@.len() ==> exists|i: int|
                    0 <= i < index && (#[trigger] paths@[i]).available && key_of(paths@[i])
                        == #[trigger] seen@[k],
        decreases paths.len() - index,
    {
        let path: PathTarget = paths[index];
        let key = TargetKey::new(path.adapter, path.id);
        let ghost now = paths@.take(index + 1);
        let ghost old_seen = seen@;
        assert(now.drop_last() =~= paths@.take(index as int));
        if path.available {
            let repeated = contains_key(&seen, key);
            proof {
                if repeated {
                    let k = choose|k: int| 0 <= k < seen@.len() && seen@[k] == key;
                    let i = choose|i: int|
                        0 <= i < index && (#[trigger] paths@[i]).available && key_of(paths@[i])
                            == seen@[k];
                    assert(now[i] == paths@[i]);
                    assert(!is_first_available(now, index as int));
                } else {
                    assert forall|earlier: int|
                        0 <= earlier < index && (#[trigger] now[earlier]).available implies key_of(
                        now[earlier],
                    ) != key_of(now[index as int]) by {
                        assert(now[earlier] == paths@[earlier]);
                    }
                    assert(is_first_available(now, index as int));
                }
            }
            if !repeated {
                seen.push(key);
                assert(seen@.last() == key);
                assert forall|i: int|
                    0 <= i < index + 1 && (#[trigger] paths@[i]).available implies seen@.contains(
                    key_of(paths@[i]),
                ) by {
                    if i < index {
                        let k = choose|k: int|
                            0 <= k < old_seen.len() && old_seen[k] == key_of(paths@[i]);
                        assert(seen@[k] == old_seen[k]);
                    } else {
                        assert(seen@[seen@.len() - 1] == key_of(paths@[i]));
                    }
                }
                if is_internal(path.technology) {
                    targets.push((path.adapter, path.id));
                }
            }
            assert forall|k: int| 0 <= k < seen@.len() implies exists|i: int|
                0 <= i < index + 1 && (#[trigger] paths@[i]).available && key_of(paths@[i])
                    == #[trigger] seen@[k] by {
                if k < old_seen.len() {
                    assert(seen@[k] == old_seen[k]);
                    let i = choose|i: int|
                        0 <= i < index && (#[trigger] paths@[i]).available && key_of(paths@[i])
                            == old_seen[k];
                    assert(paths@[i].available);
                } else {
                    assert(paths@[index as int].available);
                }
            }
        } else {
            assert(!is_first_available(now, index as int));
            assert forall|k: int| 0 <= k < seen@.len() implies exists|i: int|
                0 <= i < index + 1 && (#[trigger] paths@[i]).available && key_of(paths@[i])
                    == #[trigger] seen@[k] by {
                let i = choose|i: int|
                    0 <= i < index && (#[trigger] paths@[i]).available && key_of(paths@[i])
                        == seen@[k];
                assert(paths@[i].available);
            }
        }
        index = index + 1;
    }
    assert(paths@.take(index as int) =~= paths@);
    targets
}

/// How far the search is.
#[derive(Clone, Copy, Debug, PartialEq, Eq, Structural)]
pub enum LocatePhase {
    /// The names of the targets are asked for, one after the other.
    Naming,
    /// The only target's advanced colour state is asked for, in its second version.
    Color2,
    /// The same, in its first version, because the second is not known here.
    ColorLegacy,
    /// The only target's white level is asked for.
    WhiteLevel,
    /// The search is over.
    Done(TargetLookup),
}

/// What to do next.
#[derive(Clone, Copy, Debug, PartialEq, Eq, Structural)]
pub enum LookupStep {
    Ask(DeviceRequest),
    Done(TargetLookup),
}

/// The search for the panel.
#[derive(Debug)]
pub struct Locator {
    targets: Vec<(Adapter, u32)>,
    named: usize,
    phase: LocatePhase,
}

/// The search for the panel, as mathematics sees it.
pub struct LocatorView {
    /// The targets that look built in.
    pub targets: Seq<(Adapter, u32)>,
    /// How many of them have confirmed it.
    pub named: int,
    pub phase: LocatePhase,
}

impl View for Locator {
    type V = LocatorView;

    closed spec fn view(&self) -> LocatorView {
        LocatorView { targets: self.targets@, named: self.named as int, phase: self.phase }
    }
}

impl LocatorView {
    /// What every search keeps: while names are asked for, one is left; afterwards there is one
    /// target, and it is the one that is found.
    pub open spec fn wf(self) -> bool {
        match self.phase {
            LocatePhase::Naming => 0 <= self.named < self.targets.len(),
            LocatePhase::Done(TargetLookup::Found(target)) => self.targets == seq![
                (target.adapter, target.target_id),
            ],
            LocatePhase::Done(_) => true,
            _ => self.targets.len() == 1,
        }
    }

    /// The search is over.
    pub open spec fn done(self, lookup: TargetLookup) -> LocatorView {
        LocatorView { phase: LocatePhase::Done(lookup), ..self }
    }

    /// All targets have confirmed that they are built in.
    pub open spec fn all_named(self) -> LocatorView {
        match crate::display::only_candidate(self.targets) {
            Ok(Some(_)) => LocatorView { phase: LocatePhase::Color2, ..self },
            Ok(None) => self.done(TargetLookup::NoHdrTarget),
            Err(_) => self.done(TargetLookup::AmbiguousInternalTargets),
        }
    }

    /// The target is known to be in HDR, or not.
    pub open spec fn hdr_known(self, enabled: bool) -> LocatorView {
        if enabled {
            LocatorView { phase: LocatePhase::WhiteLevel, ..self }
        } else {
            self.done(TargetLookup::NoHdrTarget)
        }
    }

    /// The search through the active paths, at its start. Without paths it is over at once.
    pub open spec fn start(paths: Option<Seq<PathTarget>>) -> LocatorView {
        match paths {
            None => LocatorView {
                targets: seq![],
                named: 0,
                phase: LocatePhase::Done(TargetLookup::TopologyUnavailable),
            },
            Some(paths) => {
                let fresh = LocatorView {
                    targets: built_in_targets(paths),
                    named: 0,
                    phase: LocatePhase::Naming,
                };
                if fresh.targets.len() == 0 {
                    fresh.all_named()
                } else {
                    fresh
                }
            },
        }
    }

    /// A question about a target.
    pub open spec fn ask(query: DeviceQuery, target: (Adapter, u32)) -> LookupStep {
        LookupStep::Ask(DeviceRequest { query, adapter: target.0, target_id: target.1 })
    }

    /// What to do next.
    pub open spec fn step(self) -> LookupStep {
        match self.phase {
            LocatePhase::Naming => LocatorView::ask(
                DeviceQuery::TargetName,
                self.targets[self.named],
            ),
            LocatePhase::Color2 => LocatorView::ask(DeviceQuery::AdvancedColor2, self.targets[0]),
            LocatePhase::ColorLegacy => LocatorView::ask(
                DeviceQuery::AdvancedColorLegacy,
                self.targets[0],
            ),
            LocatePhase::WhiteLevel => LocatorView::ask(DeviceQuery::WhiteLevel, self.targets[0]),
            LocatePhase::Done(lookup) => LookupStep::Done(lookup),
        }
    }

    /// The search after the reply to what was asked last.
    pub open spec fn next(self, reply: DeviceReply) -> LocatorView {
        match self.phase {
            LocatePhase::Naming => {
                if crate::display::name_is_internal(reply) != Ok::<bool, ()>(true) {
                    self.done(TargetLookup::InspectionUnavailable)
                } else {
                    let named = LocatorView { named: self.named + 1, ..self };
                    if named.named < named.targets.len() {
                        named
                    } else {
                        named.all_named()
                    }
                }
            },
            LocatePhase::Color2 => match crate::display::color_2(reply) {
                Some(enabled) => self.hdr_known(enabled),
                None => LocatorView { phase: LocatePhase::ColorLegacy, ..self },
            },
            LocatePhase::ColorLegacy => match crate::display::color_legacy(reply) {
                Some(enabled) => self.hdr_known(enabled),
                None => self.done(TargetLookup::InspectionUnavailable),
            },
            LocatePhase::WhiteLevel => match crate::display::read_level(reply) {
                Ok(current_white_level) => self.done(
                    TargetLookup::Found(
                        HdrTarget {
                            adapter: self.targets[0].0,
                            target_id: self.targets[0].1,
                            current_white_level,
                        },
                    ),
                ),
                Err(_) => self.done(TargetLookup::InspectionUnavailable),
            },
            LocatePhase::Done(_) => self,
        }
    }
}

impl LocatorView {
    /// The search after a number of replies.
    pub open spec fn after(self, replies: Seq<DeviceReply>) -> LocatorView
        decreases replies.len(),
    {
        if replies.len() == 0 {
            self
        } else {
            self.after(replies.drop_last()).next(replies.last())
        }
    }
}

/// Starts the search for the panel. `paths` are the active display paths; there are none to be
/// had if the system would not tell.
pub fn locate_hdr_target(paths: Option<Vec<PathTarget>>) -> (locator: Locator)
    ensures
        locator@ == LocatorView::start(
            match paths {
                Some(paths) => Some(paths@),
                None => None,
            },
        ),
        locator@.wf(),
{
    match paths {
        None => Locator {
            targets: Vec::new(),
            named: 0,
            phase: LocatePhase::Done(TargetLookup::TopologyUnavailable),
        },
        Some(paths) => {
            let targets = internal_targets(&paths);
            let mut locator = Locator { targets, named: 0, phase: LocatePhase::Naming };
            if locator.targets.len() == 0 {
                locator.finish_naming();
            }
            locator
        },
    }
}

impl Locator {
    /// Decides what follows once all targets have confirmed that they are built in.
    fn finish_naming(&mut self)
        ensures
            final(self)@ == old(self)@.all_named(),
    {
        self.phase = match unique_candidate(self.targets.as_slice()) {
            Ok(Some(_)) => LocatePhase::Color2,
            Ok(None) => LocatePhase::Done(TargetLookup::NoHdrTarget),
            Err(_) => LocatePhase::Done(TargetLookup::AmbiguousInternalTargets),
        };
    }

    /// Decides what follows once the HDR state of the target is known.
    fn finish_color(&mut self, enabled: bool)
        ensures
            final(self)@ == old(self)@.hdr_known(enabled),
    {
        self.phase = if enabled {
            LocatePhase::WhiteLevel
        } else {
            LocatePhase::Done(TargetLookup::NoHdrTarget)
        };
    }

    /// What to do next.
    pub fn step(&self) -> (step: LookupStep)
        requires
            self@.wf(),
        ensures
            step == self@.step(),
    {
        match self.phase {
            LocatePhase::Done(lookup) => LookupStep::Done(lookup),
            LocatePhase::Naming => self.ask(DeviceQuery::TargetName, self.named),
            LocatePhase::Color2 => self.ask(DeviceQuery::AdvancedColor2, 0),
            LocatePhase::ColorLegacy => self.ask(DeviceQuery::AdvancedColorLegacy, 0),
            LocatePhase::WhiteLevel => self.ask(DeviceQuery::WhiteLevel, 0),
        }
    }

    /// A question about target `index`.
    fn ask(&self, query: DeviceQuery, index: usize) -> (step: LookupStep)
        requires
            index < self@.targets.len(),
        ensures
            step == LocatorView::ask(query, self@.targets[index as int]),
    {
        let (adapter, target_id): (Adapter, u32) = self.targets[index];
        LookupStep::Ask(DeviceRequest { query, adapter, target_id })
    }

    /// Takes the reply to what was asked last.
    pub fn answer(&mut self, reply: &DeviceReply)
        requires
            old(self)@.wf(),
        ensures
            final(self)@ == old(self)@.next(*reply),
            final(self)@.wf(),
    {
        proof {
            if self@.targets.len() == 1 {
                assert(self@.targets =~= seq![self@.targets[0]]);
            }
        }
        match self.phase {
            LocatePhase::Naming => match target_name_is_internal(reply) {
                Ok(true) => {
                    let count: usize = self.targets.len();
                    self.named = self.named + 1;
                    if self.named >= count {
                        self.finish_naming();
                    }
                },
                // The path says that the output is built in. A name that contradicts it cannot
                // prove the target external.
                Ok(false) | Err(()) => {
                    self.phase = LocatePhase::Done(TargetLookup::InspectionUnavailable);
                },
            },
            LocatePhase::Color2 => match advanced_color_info_2(reply) {
                Some(enabled) => self.finish_color(enabled),
                None => {
                    self.phase = LocatePhase::ColorLegacy;
                },
            },
            LocatePhase::ColorLegacy => match advanced_color_info_legacy(reply) {
                Some(enabled) => self.finish_color(enabled),
                None => {
                    self.phase = LocatePhase::Done(TargetLookup::InspectionUnavailable);
                },
            },
            LocatePhase::WhiteLevel => match get_sdr_white_level(reply) {
                Ok(current_white_level) => {
                    let (adapter, target_id): (Adapter, u32) = self.targets[0];
                    self.phase =
                    LocatePhase::Done(
                        TargetLookup::Found(HdrTarget { adapter, target_id, current_white_level }),
                    );
                },
                Err(_) => {
                    self.phase = LocatePhase::Done(TargetLookup::InspectionUnavailable);
                },
            },
            LocatePhase::Done(_) => {},
        }
    }
}

/// What a reading of the white level amounts to: the search's result, with the level that it
/// found.
pub open spec fn probed(lookup: TargetLookup) -> ProbeOutcome {
    match lookup {
        TargetLookup::Found(target) => ProbeOutcome::Sample(
            ProbeSample {
                adapter_low: target.adapter.low,
                adapter_high: target.adapter.high,
                target_id: target.target_id,
                raw_white_level: target.current_white_level,
            },
        ),
        TargetLookup::NoHdrTarget => ProbeOutcome::NoHdrTarget,
        TargetLookup::AmbiguousInternalTargets => ProbeOutcome::AmbiguousInternalTargets,
        TargetLookup::TopologyUnavailable => ProbeOutcome::TopologyUnavailable,
        TargetLookup::InspectionUnavailable => ProbeOutcome::InspectionUnavailable,
    }
}

/// Turns the search's result into a reading of the white level. Nothing is written.
pub fn probe_sdr_white_level(lookup: TargetLookup) -> (outcome: ProbeOutcome)
    ensures
        outcome == probed(lookup),
        match lookup {
            TargetLookup::Found(target) => outcome matches ProbeOutcome::Sample(sample)
                && sample.adapter_low == target.adapter.low && sample.adapter_high
                == target.adapter.high && sample.target_id == target.target_id
                && sample.raw_white_level == target.current_white_level,
            TargetLookup::NoHdrTarget => outcome is NoHdrTarget,
            TargetLookup::AmbiguousInternalTargets => outcome is AmbiguousInternalTargets,
            TargetLookup::TopologyUnavailable => outcome is TopologyUnavailable,
            TargetLookup::InspectionUnavailable => outcome is InspectionUnavailable,
        },
{
    match lookup {
        TargetLookup::Found(target) => ProbeOutcome::Sample(
            ProbeSample {
                adapter_low: target.adapter.low,
                adapter_high: target.adapter.high,
                target_id: target.target_id,
                raw_white_level: target.current_white_level,
            },
        ),
        TargetLookup::NoHdrTarget => ProbeOutcome::NoHdrTarget,
        TargetLookup::AmbiguousInternalTargets => ProbeOutcome::AmbiguousInternalTargets,
        TargetLookup::TopologyUnavailable => ProbeOutcome::TopologyUnavailable,
        TargetLookup::InspectionUnavailable => ProbeOutcome::InspectionUnavailable,
    }
}

/// A question, put together.
pub open spec fn request(query: DeviceQuery, target: (Adapter, u32)) -> DeviceRequest {
    DeviceRequest { query, adapter: target.0, target_id: target.1 }
}

impl LocatorView {
    /// How many questions the search can still ask.
    pub open spec fn questions_left(self) -> nat {
        match self.phase {
            LocatePhase::Naming => if self.named < self.targets.len() {
                (3 + self.targets.len() - self.named) as nat
            } else {
                4
            },
            LocatePhase::Color2 => 3,
            LocatePhase::ColorLegacy => 2,
            LocatePhase::WhiteLevel => 1,
            LocatePhase::Done(_) => 0,
        }
    }

    /// The result of the search if the system answers each question as `answers` says.
    pub open spec fn settled(self, answers: spec_fn(DeviceRequest) -> DeviceReply) -> TargetLookup
        decreases self.questions_left(),
    {
        match self.step() {
            LookupStep::Done(lookup) => lookup,
            LookupStep::Ask(request) => self.next(answers(request)).settled(answers),
        }
    }
}

/// Whether HDR is on for a target: the second version of the colour state decides, and the first
/// only where the second cannot be read.
pub open spec fn hdr_state(
    target: (Adapter, u32),
    answers: spec_fn(DeviceRequest) -> DeviceReply,
) -> Option<bool> {
    match crate::display::color_2(answers(request(DeviceQuery::AdvancedColor2, target))) {
        Some(enabled) => Some(enabled),
        None => crate::display::color_legacy(
            answers(request(DeviceQuery::AdvancedColorLegacy, target)),
        ),
    }
}

/// Whether a target's name says that the target is built in.
pub open spec fn name_confirms(
    target: (Adapter, u32),
    answers: spec_fn(DeviceRequest) -> DeviceReply,
) -> bool {
    crate::display::name_is_internal(answers(request(DeviceQuery::TargetName, target))) == Ok::<
        bool,
        (),
    >(true)
}

/// The panel, as the paths and the system's answers determine it: the only built-in target, all
/// built-in targets having confirmed that they are, with HDR on and a white level that can be
/// read.
pub open spec fn panel(
    paths: Option<Seq<PathTarget>>,
    answers: spec_fn(DeviceRequest) -> DeviceReply,
) -> TargetLookup {
    match paths {
        None => TargetLookup::TopologyUnavailable,
        Some(paths) => {
            let targets = built_in_targets(paths);
            if exists|i: int|
                0 <= i < targets.len() && !name_confirms(#[trigger] targets[i], answers) {
                TargetLookup::InspectionUnavailable
            } else if targets.len() == 0 {
                TargetLookup::NoHdrTarget
            } else if targets.len() > 1 {
                TargetLookup::AmbiguousInternalTargets
            } else {
                let target = targets[0];
                let level = crate::display::read_level(
                    answers(request(DeviceQuery::WhiteLevel, target)),
                );
                match (hdr_state(target, answers), level) {
                    (Some(true), Ok(current_white_level)) => TargetLookup::Found(
                        HdrTarget { adapter: target.0, target_id: target.1, current_white_level },
                    ),
                    (Some(false), _) => TargetLookup::NoHdrTarget,
                    _ => TargetLookup::InspectionUnavailable,
                }
            }
        },
    }
}

/// The search from the moment at which the names of the first `named` targets have been
/// confirmed.
proof fn naming_settles(view: LocatorView, answers: spec_fn(DeviceRequest) -> DeviceReply)
    requires
        view.phase == LocatePhase::Naming,
        0 <= view.named < view.targets.len(),
    ensures
        view.settled(answers) == if exists|i: int|
            view.named <= i < view.targets.len() && !name_confirms(
                #[trigger] view.targets[i],
                answers,
            ) {
            TargetLookup::InspectionUnavailable
        } else {
            view.all_named().settled(answers)
        },
    decreases view.targets.len() - view.named,
{
    let target = view.targets[view.named];
    let next = view.next(answers(request(DeviceQuery::TargetName, target)));
    assert(view.settled(answers) == next.settled(answers));
    if !name_confirms(target, answers) {
        assert(next.settled(answers) == TargetLookup::InspectionUnavailable);
    } else if view.named + 1 < view.targets.len() {
        naming_settles(next, answers);
        assert(next.all_named().phase == view.all_named().phase);
        color_settles(next.all_named(), view.all_named(), answers);
    } else {
        color_settles(next, view.all_named(), answers);
    }
}

/// How many names were confirmed makes no difference after the naming.
proof fn color_settles(
    first: LocatorView,
    second: LocatorView,
    answers: spec_fn(DeviceRequest) -> DeviceReply,
)
    requires
        first.phase == second.phase,
        first.targets == second.targets,
        first.phase != LocatePhase::Naming,
    ensures
        first.settled(answers) == second.settled(answers),
    decreases first.questions_left(),
{
    match first.step() {
        LookupStep::Done(_) => {},
        LookupStep::Ask(request) => {
            color_settles(first.next(answers(request)), second.next(answers(request)), answers);
        },
    }
}

/// The search finds the panel: whatever the paths are and however the system answers, its result
/// is the one that paths and answers determine.
pub proof fn search_finds_the_panel(
    paths: Option<Seq<PathTarget>>,
    answers: spec_fn(DeviceRequest) -> DeviceReply,
)
    ensures
        LocatorView::start(paths).settled(answers) == panel(paths, answers),
{
    reveal_with_fuel(LocatorView::settled, 5);
    match paths {
        None => {},
        Some(paths) => {
            let view = LocatorView::start(Some(paths));
            if built_in_targets(paths).len() > 0 {
                naming_settles(view, answers);
            }
        },
    }
}

/// Every reply brings the search closer to its end: of the questions that it can still ask, one
/// fewer is left at least.
pub proof fn every_reply_is_progress(view: LocatorView, reply: DeviceReply)
    requires
        view.wf(),
        view.step() is Ask,
    ensures
        view.next(reply).wf(),
        view.next(reply).questions_left() < view.questions_left(),
{
    if view.targets.len() == 1 {
        assert(view.targets =~= seq![view.targets[0]]);
    }
}

/// The white level is asked for once at most: the search is over after the reply.
pub proof fn white_level_is_asked_for_last(view: LocatorView, reply: DeviceReply)
    requires
        view.step() matches LookupStep::Ask(request) && request.query == DeviceQuery::WhiteLevel,
    ensures
        view.next(reply).step() is Done,
{
}

/// No target is asked about twice for its name: the targets that look built in are distinct, and
/// each comes from an available path with a built-in connector.
pub proof fn built_in_targets_are_distinct(paths: Seq<PathTarget>)
    ensures
        built_in_targets(paths).no_duplicates(),
        forall|t: int|
            0 <= t < built_in_targets(paths).len() ==> exists|i: int|
                #![trigger paths[i]]
                0 <= i < paths.len() && paths[i].available && crate::display::built_in(
                    paths[i].technology,
                ) && (paths[i].adapter, paths[i].id) == #[trigger] built_in_targets(paths)[t],
    decreases paths.len(),
{
    if paths.len() > 0 {
        let shorter = paths.drop_last();
        let before = built_in_targets(shorter);
        let targets = built_in_targets(paths);
        let last = paths.last();
        built_in_targets_are_distinct(shorter);
        assert forall|t: int| 0 <= t < targets.len() implies exists|i: int|
            #![trigger paths[i]]
            0 <= i < paths.len() && paths[i].available && crate::display::built_in(
                paths[i].technology,
            ) && (paths[i].adapter, paths[i].id) == #[trigger] targets[t] by {
            if t < before.len() {
                assert(targets[t] == before[t]);
                let i = choose|i: int|
                    #![trigger shorter[i]]
                    0 <= i < shorter.len() && shorter[i].available && crate::display::built_in(
                        shorter[i].technology,
                    ) && (shorter[i].adapter, shorter[i].id) == before[t];
                assert(paths[i] == shorter[i]);
            } else {
                assert(paths[paths.len() - 1].available);
            }
        }
        if targets.len() > before.len() {
            assert forall|t: int| 0 <= t < before.len() implies before[t] != (
                last.adapter,
                last.id,
            ) by {
                let i = choose|i: int|
                    #![trigger shorter[i]]
                    0 <= i < shorter.len() && shorter[i].available && crate::display::built_in(
                        shorter[i].technology,
                    ) && (shorter[i].adapter, shorter[i].id) == before[t];
                assert(paths[i] == shorter[i]);
                assert(key_of(paths[i]) != key_of(paths[paths.len() - 1]));
            }
        }
    }
}

/// A target is listed exactly if some path leads to it that is available, has a built-in connector,
/// and comes after no other available path to the same target.
pub proof fn listed_targets_are_the_built_in_ones(paths: Seq<PathTarget>, target: (Adapter, u32))
    ensures
        built_in_targets(paths).contains(target) <==> exists|i: int|
            {
                &&& 0 <= i < paths.len()
                &&& (#[trigger] paths[i]).available
                &&& (paths[i].technology == -0x8000_0000 || paths[i].technology
                    == 11 || paths[i].technology == 13 || paths[i].technology == 6)
                &&& paths[i].adapter == target.0 && paths[i].id == target.1
                &&& forall|j: int|
                    0 <= j < i && (#[trigger] paths[j]).available ==> paths[j].adapter != target.0
                        || paths[j].id != target.1
            },
    decreases paths.len(),
{
    if paths.len() > 0 {
        let shorter = paths.drop_last();
        let last = paths.last();
        let index = paths.len() - 1;
        let before = built_in_targets(shorter);
        let targets = built_in_targets(paths);
        listed_targets_are_the_built_in_ones(shorter, target);
        assert forall|i: int| 0 <= i < shorter.len() implies shorter[i] == paths[i] by {}
        let here = is_first_available(paths, index) && crate::display::built_in(last.technology)
            && (last.adapter, last.id) == target;
        assert(targets.contains(target) <==> before.contains(target) || here) by {
            if targets.len() > before.len() {
                assert(targets =~= before.push((last.adapter, last.id)));
                assert(targets.last() == (last.adapter, last.id));
                assert forall|k: int| 0 <= k < before.len() implies targets[k] == before[k] by {}
                if before.contains(target) {
                    let k = choose|k: int| 0 <= k < before.len() && before[k] == target;
                    assert(targets[k] == target);
                }
                if here {
                    assert(targets[targets.len() - 1] == target);
                }
            }
        }
        if before.contains(target) {
            let i = choose|i: int|
                {
                    &&& 0 <= i < shorter.len()
                    &&& (#[trigger] shorter[i]).available
                    &&& (shorter[i].technology == -0x8000_0000 || shorter[i].technology
                        == 11 || shorter[i].technology == 13 || shorter[i].technology == 6)
                    &&& shorter[i].adapter == target.0 && shorter[i].id == target.1
                    &&& forall|j: int|
                        0 <= j < i && (#[trigger] shorter[j]).available ==> shorter[j].adapter
                            != target.0 || shorter[j].id != target.1
                };
            assert(paths[i] == shorter[i]);
            assert forall|j: int| 0 <= j < i && (#[trigger] paths[j]).available implies
                paths[j].adapter != target.0 || paths[j].id != target.1 by {
                assert(paths[j] == shorter[j]);
            }
        }
        if here {
            assert(paths[index].available);
            assert forall|j: int| 0 <= j < index && (#[trigger] paths[j]).available implies
                paths[j].adapter != target.0 || paths[j].id != target.1 by {
                assert(key_of(paths[j]) != key_of(paths[index]));
            }
        }
        if exists|i: int|
            {
                &&& 0 <= i < paths.len()
                &&& (#[trigger] paths[i]).available
                &&& (paths[i].technology == -0x8000_0000 || paths[i].technology
                    == 11 || paths[i].technology == 13 || paths[i].technology == 6)
                &&& paths[i].adapter == target.0 && paths[i].id == target.1
                &&& forall|j: int|
                    0 <= j < i && (#[trigger] paths[j]).available ==> paths[j].adapter != target.0
                        || paths[j].id != target.1
            } {
            let i = choose|i: int|
                {
                    &&& 0 <= i < paths.len()
                    &&& (#[trigger] paths[i]).available
                    &&& (paths[i].technology == -0x8000_0000 || paths[i].technology
                        == 11 || paths[i].technology == 13 || paths[i].technology == 6)
                    &&& paths[i].adapter == target.0 && paths[i].id == target.1
                    &&& forall|j: int|
                        0 <= j < i && (#[trigger] paths[j]).available ==> paths[j].adapter
                            != target.0 || paths[j].id != target.1
                };
            if i < index {
                assert(shorter[i] == paths[i]);
                assert forall|j: int| 0 <= j < i && (#[trigger] shorter[j]).available implies
                    shorter[j].adapter != target.0 || shorter[j].id != target.1 by {
                    assert(paths[j] == shorter[j]);
                }
                assert(before.contains(target));
            } else {
                assert(is_first_available(paths, index));
                assert(here);
            }
        }
    }
}

/// A path behind the others adds its target behind theirs, or changes nothing.
pub proof fn later_paths_come_later(paths: Seq<PathTarget>, path: PathTarget)
    ensures
        ({
            let before = built_in_targets(paths);
            let after = built_in_targets(paths.push(path));
            after == before || after == before.push((path.adapter, path.id))
        }),
{
    assert(paths.push(path).drop_last() =~= paths);
}

/// As long as every name confirms that its target is built in, the names are asked for one after the
/// other. Then the search is over if there is no target or more than one, and goes on with the only
/// one otherwise.
pub proof fn every_name_is_asked_for(paths: Seq<PathTarget>, replies: Seq<DeviceReply>)
    requires
        replies.len() <= built_in_targets(paths).len(),
        forall|i: int|
            0 <= i < replies.len() ==> (#[trigger] replies[i]).status == 0 && (
            replies[i].technology == -0x8000_0000 || replies[i].technology
                == 11 || replies[i].technology == 13 || replies[i].technology == 6),
    ensures
        ({
            let targets = built_in_targets(paths);
            let view = LocatorView::start(Some(paths)).after(replies);
            let count = replies.len() as int;
            &&& view.targets == targets
            &&& view.wf()
            &&& view.step() == if count < targets.len() {
                LookupStep::Ask(
                    DeviceRequest {
                        query: DeviceQuery::TargetName,
                        adapter: targets[count].0,
                        target_id: targets[count].1,
                    },
                )
            } else if targets.len() == 0 {
                LookupStep::Done(TargetLookup::NoHdrTarget)
            } else if targets.len() == 1 {
                LookupStep::Ask(
                    DeviceRequest {
                        query: DeviceQuery::AdvancedColor2,
                        adapter: targets[0].0,
                        target_id: targets[0].1,
                    },
                )
            } else {
                LookupStep::Done(TargetLookup::AmbiguousInternalTargets)
            }
        }),
        replies.len() < built_in_targets(paths).len() ==> LocatorView::start(Some(paths)).after(
            replies,
        ).named == replies.len(),
    decreases replies.len(),
{
    if replies.len() > 0 {
        let before = replies.drop_last();
        assert forall|i: int| 0 <= i < before.len() implies (#[trigger] before[i]).status == 0 && (
        before[i].technology == -0x8000_0000 || before[i].technology
            == 11 || before[i].technology == 13 || before[i].technology == 6) by {
            assert(before[i] == replies[i]);
        }
        every_name_is_asked_for(paths, before);
        let last = replies[replies.len() - 1];
        assert(last.status == 0);
    }
}

/// What the reply to each question leads to.
///
/// A name that does not confirm that its target is built in ends the search. HDR is on by bits 4 and
/// 5 and the colour mode, or, only where that cannot be read, by bits 0 and 1 of the older state. A
/// panel in HDR is found with the white level that was read.
pub proof fn reply_decides(view: LocatorView, reply: DeviceReply, request: DeviceRequest)
    requires
        view.wf(),
        view.step() == LookupStep::Ask(request),
    ensures
        request.query == DeviceQuery::TargetName && !(reply.status == 0 && (
        reply.technology == -0x8000_0000 || reply.technology
            == 11 || reply.technology == 13 || reply.technology == 6)) ==> view.next(
            reply,
        ).step() == LookupStep::Done(TargetLookup::InspectionUnavailable),
        request.query == DeviceQuery::AdvancedColor2 ==> view.next(reply).step()
            == if reply.status != 0 {
            LookupStep::Ask(DeviceRequest { query: DeviceQuery::AdvancedColorLegacy, ..request })
        } else if reply.flags & 0x10 != 0 && reply.flags & 0x20 != 0 && reply.color_mode == 2 {
            LookupStep::Ask(DeviceRequest { query: DeviceQuery::WhiteLevel, ..request })
        } else {
            LookupStep::Done(TargetLookup::NoHdrTarget)
        },
        request.query == DeviceQuery::AdvancedColorLegacy ==> view.next(reply).step()
            == if reply.status != 0 {
            LookupStep::Done(TargetLookup::InspectionUnavailable)
        } else if reply.flags & 0x1 != 0 && reply.flags & 0x2 != 0 {
            LookupStep::Ask(DeviceRequest { query: DeviceQuery::WhiteLevel, ..request })
        } else {
            LookupStep::Done(TargetLookup::NoHdrTarget)
        },
        request.query == DeviceQuery::WhiteLevel ==> view.next(reply).step() == LookupStep::Done(
            if reply.status == 0 {
                TargetLookup::Found(
                    HdrTarget {
                        adapter: request.adapter,
                        target_id: request.target_id,
                        current_white_level: reply.white_level,
                    },
                )
            } else {
                TargetLookup::InspectionUnavailable
            },
        ),
        view.next(reply).wf(),
{
    assert(0u32 & 0x30 == 0 && 0u32 & 0x3 == 0) by (bit_vector);
    crate::display::hdr_rests_on_two_bits_and_the_mode(reply.flags, 0, reply.color_mode);
    crate::display::legacy_color_rests_on_two_bits(reply.flags, 0);
    every_reply_is_progress(view, reply);
}

/// Without the active paths there is no search.
pub proof fn missing_topology_ends_the_search()
    ensures
        LocatorView::start(None).step() == LookupStep::Done(TargetLookup::TopologyUnavailable),
{
}

} // verus!
