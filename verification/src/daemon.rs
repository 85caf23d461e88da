//! The daemon from its start to its end, and the white level that goes with the brightness.

use vstd::prelude::*;

use crate::apply::{only_the_unique_panel_is_written, ApplyView};
use crate::calibration::{
    balance_for, calibrated, calibrated_balance_is_bounded, calibrated_balance_is_unique,
    encode_sdr_white_level, hdr_balance, tabulated_balance_is_calibrated, white_level,
};
use crate::diagnostics::{description, Diagnostics, DiagnosticsView};
use crate::display::{ApplyOutcome, DeviceReply, PathTarget};
use crate::event_loop::{arm_log_flush, log_flush_schedule, TimerSchedule};
use crate::locate::built_in_targets;
use crate::probe::RunConfig;
use crate::win32::{Error, Stage};

verus! {

/// The white level that goes with a brightness. When the brightness is not known, none does.
pub fn reconcile(brightness: Option<u8>) -> (level: Option<u32>)
    ensures
        level is Some <==> brightness is Some,
        level matches Some(level) ==> level == white_level(balance_for(brightness->0 as int)),
        level is Some ==> calibrated(
            brightness->0 as int,
            balance_for(brightness->0 as int),
        ),
        level matches Some(level) ==> 1000 <= level <= 6000,
        forall|balance: int|
            brightness is Some && #[trigger] calibrated(brightness->0 as int, balance) ==> level
                == Some((1000 + 50 * balance) as u32),
{
    match brightness {
        None => None,
        Some(brightness) => {
            let balance: u8 = hdr_balance(brightness);
            proof {
                assert forall|other: int| #[trigger] calibrated(
                    brightness as int,
                    other,
                ) implies other == balance by {
                    calibrated_balance_is_unique(brightness as int, other, balance as int);
                }
            }
            Some(encode_sdr_white_level(balance))
        },
    }
}

/// Records what came of setting the white level. Returns how to start the timer of the diagnostics,
/// if it is to be started.
pub fn record_outcome(diagnostics: &mut Diagnostics, outcome: &ApplyOutcome) -> (schedule: Option<
    TimerSchedule,
>)
    ensures
        final(diagnostics)@ == old(diagnostics)@.recorded(*outcome),
        schedule == if old(diagnostics)@.must_arm(*outcome) {
            Some(log_flush_schedule())
        } else {
            None
        },
{
    if diagnostics.record(outcome) {
        Some(arm_log_flush())
    } else {
        None
    }
}

/// What to do next to bring the white level in line with the brightness.
#[derive(Clone, Copy, Debug, PartialEq, Eq)]
pub enum ReconcileStep {
    /// Set this white level.
    Apply(u32),
    /// Start the timer of the diagnostics.
    ArmLogFlush(TimerSchedule),
    Done(Result<(), Error>),
}

impl ReconcileStep {
    /// The first step, for a brightness that may not be known.
    pub open spec fn first(brightness: Option<u8>) -> ReconcileStep {
        match brightness {
            Some(brightness) => ReconcileStep::Apply(
                white_level(balance_for(brightness as int)) as u32,
            ),
            None => ReconcileStep::Done(Ok(())),
        }
    }

    /// The step after the white level was set with an outcome.
    pub open spec fn after_outcome(
        diagnostics: DiagnosticsView,
        outcome: ApplyOutcome,
    ) -> ReconcileStep {
        if diagnostics.must_arm(outcome) {
            ReconcileStep::ArmLogFlush(log_flush_schedule())
        } else {
            ReconcileStep::Done(Ok(()))
        }
    }

    /// Begins, with a brightness that may not be known.
    pub fn begin(brightness: Option<u8>) -> (step: ReconcileStep)
        ensures
            step == ReconcileStep::first(brightness),
            brightness is Some ==> calibrated(
                brightness->0 as int,
                balance_for(brightness->0 as int),
            ),
    {
        match reconcile(brightness) {
            Some(level) => ReconcileStep::Apply(level),
            None => ReconcileStep::Done(Ok(())),
        }
    }

    /// Goes on after the white level was set. Whatever came of it is recorded, and is no failure.
    pub fn applied(diagnostics: &mut Diagnostics, outcome: &ApplyOutcome) -> (step: ReconcileStep)
        ensures
            final(diagnostics)@ == old(diagnostics)@.recorded(*outcome),
            step == ReconcileStep::after_outcome(old(diagnostics)@, *outcome),
    {
        match record_outcome(diagnostics, outcome) {
            Some(schedule) => ReconcileStep::ArmLogFlush(schedule),
            None => ReconcileStep::Done(Ok(())),
        }
    }

    /// Goes on after the timer was started, or could not be.
    pub fn armed(result: Result<(), Error>) -> (step: ReconcileStep)
        ensures
            step == ReconcileStep::Done(result),
    {
        ReconcileStep::Done(result)
    }
}

/// What bringing the white level in line does: the levels that are set, the diagnostics in the end,
/// the schedules of timers that are started, and the result.
pub struct Reconciled {
    pub levels: Seq<u32>,
    pub diagnostics: DiagnosticsView,
    pub schedules: Seq<TimerSchedule>,
    pub result: Result<(), Error>,
}

impl ReconcileStep {
    /// How many steps are left at most.
    pub open spec fn steps_left(self) -> nat {
        match self {
            ReconcileStep::Apply(_) => 2,
            ReconcileStep::ArmLogFlush(_) => 1,
            ReconcileStep::Done(_) => 0,
        }
    }

    /// All that is done from this step on, if setting the level has the outcome `outcome` and
    /// starting the timer the result `arming`.
    pub open spec fn completed(
        self,
        levels: Seq<u32>,
        diagnostics: DiagnosticsView,
        schedules: Seq<TimerSchedule>,
        outcome: ApplyOutcome,
        arming: Result<(), Error>,
    ) -> Reconciled
        decreases self.steps_left(),
    {
        match self {
            ReconcileStep::Apply(level) => ReconcileStep::after_outcome(
                diagnostics,
                outcome,
            ).completed(
                levels.push(level),
                diagnostics.recorded(outcome),
                schedules,
                outcome,
                arming,
            ),
            ReconcileStep::ArmLogFlush(schedule) => ReconcileStep::Done(arming).completed(
                levels,
                diagnostics,
                schedules.push(schedule),
                outcome,
                arming,
            ),
            ReconcileStep::Done(result) => Reconciled { levels, diagnostics, schedules, result },
        }
    }
}

/// Without a brightness nothing happens. With one its white level is set exactly once, the outcome
/// is recorded, and the timer of the diagnostics is started exactly if recording calls for it. Only
/// a timer that could not be started is a failure, never the outcome.
pub proof fn reconciliation_sets_once_and_records(
    brightness: Option<u8>,
    diagnostics: DiagnosticsView,
    outcome: ApplyOutcome,
    arming: Result<(), Error>,
)
    ensures
        ({
            let done = ReconcileStep::first(brightness).completed(
                seq![],
                diagnostics,
                seq![],
                outcome,
                arming,
            );
            match brightness {
                None => {
                    &&& done.levels == Seq::<u32>::empty()
                    &&& done.diagnostics == diagnostics
                    &&& done.schedules == Seq::<TimerSchedule>::empty()
                    &&& done.result == Ok::<(), Error>(())
                },
                Some(brightness) => {
                    &&& done.levels == seq![white_level(balance_for(brightness as int)) as u32]
                    &&& done.diagnostics == diagnostics.recorded(outcome)
                    &&& done.schedules == if diagnostics.must_arm(outcome) {
                        seq![log_flush_schedule()]
                    } else {
                        seq![]
                    }
                    &&& done.result == if diagnostics.must_arm(outcome) {
                        arming
                    } else {
                        Ok::<(), Error>(())
                    }
                },
            }
        }),
{
    reveal_with_fuel(ReconcileStep::completed, 4);
}

/// The events that the daemon creates.
#[derive(Clone, Copy, Debug, PartialEq, Eq, Structural)]
pub enum Signal {
    Brightness,
    Reconcile,
    Exit,
    WmiFailure,
    GpuReset,
    Probe,
}

/// The timers that the daemon creates.
#[derive(Clone, Copy, Debug, PartialEq, Eq, Structural)]
pub enum Timer {
    Debounce,
    LogFlush,
}

/// What the daemon does, one after the other.
#[derive(Clone, Copy, Debug, PartialEq, Eq, Structural)]
pub enum RunStep {
    /// See that the session is one in which the user can be shown an icon.
    CheckSession,
    /// Become the only instance, or hand over to the one that is running.
    AcquireInstance,
    ApplyProcessPolicy,
    ApplyThreadPolicy,
    CreateEvent(Signal),
    CreateTimer(Timer),
    CreateRecorder,
    CreateTray,
    ShowProbePosition,
    CreateSnapshotReader,
    StartWatcher,
    SubscribeGpuReset,
    FirstReconcile,
    EventLoop,
    FinishRecorder,
}

impl RunStep {
    /// The stage that a failure of the step is reported as. Steps that consist of several calls
    /// have none of their own: each call has one.
    pub fn failure_stage(self) -> (stage: Option<Stage>)
        ensures
            stage == match self {
                RunStep::CheckSession => Some(Stage::InteractiveSession),
                RunStep::AcquireInstance => Some(Stage::SingleInstance),
                RunStep::CreateEvent(_) => Some(Stage::CreateEvent),
                RunStep::CreateTimer(_) => Some(Stage::CreateDebounceTimer),
                RunStep::CreateRecorder | RunStep::FinishRecorder => Some(Stage::ProbeLog),
                RunStep::CreateSnapshotReader => Some(Stage::WmiSnapshot),
                RunStep::SubscribeGpuReset => Some(Stage::GpuResetSubscription),
                _ => None,
            },
    {
        match self {
            RunStep::CheckSession => Some(Stage::InteractiveSession),
            RunStep::AcquireInstance => Some(Stage::SingleInstance),
            RunStep::CreateEvent(_) => Some(Stage::CreateEvent),
            RunStep::CreateTimer(_) => Some(Stage::CreateDebounceTimer),
            RunStep::CreateRecorder | RunStep::FinishRecorder => Some(Stage::ProbeLog),
            RunStep::CreateSnapshotReader => Some(Stage::WmiSnapshot),
            RunStep::SubscribeGpuReset => Some(Stage::GpuResetSubscription),
            _ => None,
        }
    }
}

/// What came of a step.
#[derive(Clone, Copy, Debug, PartialEq, Eq, Structural)]
pub enum StepOutcome {
    Done,
    /// Another instance is running.
    AlreadyRunning,
    Failed(Error),
}

/// What to do next.
#[derive(Clone, Copy, Debug, PartialEq, Eq)]
pub enum RunProgress {
    Perform(RunStep),
    Finished(Result<(), Error>),
}

/// What both modes begin with.
pub open spec fn common_steps() -> Seq<RunStep> {
    seq![
        RunStep::CheckSession,
        RunStep::AcquireInstance,
        RunStep::ApplyProcessPolicy,
        RunStep::ApplyThreadPolicy,
        RunStep::CreateEvent(Signal::Brightness),
        RunStep::CreateEvent(Signal::Reconcile),
        RunStep::CreateEvent(Signal::Exit),
        RunStep::CreateEvent(Signal::WmiFailure),
        RunStep::CreateEvent(Signal::GpuReset),
        RunStep::CreateEvent(Signal::Probe),
        RunStep::CreateTimer(Timer::Debounce),
        RunStep::CreateTimer(Timer::LogFlush),
    ]
}

/// The steps of a run. Probe mode is driven by the operator and has to work where brightness events
/// or the event log are missing, so it uses neither; and it never sets the white level.
pub open spec fn steps(adjusting: bool) -> Seq<RunStep> {
    common_steps() + if adjusting {
        // The first connection to the brightness provider sets the process up for the second, on
        // which events are delivered.
        seq![
            RunStep::CreateTray,
            RunStep::CreateSnapshotReader,
            RunStep::StartWatcher,
            RunStep::SubscribeGpuReset,
            RunStep::FirstReconcile,
            RunStep::EventLoop,
        ]
    } else {
        seq![
            RunStep::CreateRecorder,
            RunStep::CreateTray,
            RunStep::ShowProbePosition,
            RunStep::EventLoop,
            RunStep::FinishRecorder,
        ]
    }
}

/// A run of the daemon.
#[derive(Debug)]
pub struct Run {
    plan: Vec<RunStep>,
    position: usize,
    loop_result: Result<(), Error>,
    ended: Option<Result<(), Error>>,
}

/// A run of the daemon, as mathematics sees it.
pub struct RunView {
    /// The steps.
    pub plan: Seq<RunStep>,
    /// How many of them were performed.
    pub position: int,
    /// What the event loop ended with.
    pub loop_result: Result<(), Error>,
    /// The result, if the run ended early.
    pub ended: Option<Result<(), Error>>,
}

impl View for Run {
    type V = RunView;

    closed spec fn view(&self) -> RunView {
        RunView {
            plan: self.plan@,
            position: self.position as int,
            loop_result: self.loop_result,
            ended: self.ended,
        }
    }
}

impl RunView {
    /// The run at its start.
    pub open spec fn start(adjusting: bool) -> RunView {
        RunView { plan: steps(adjusting), position: 0, loop_result: Ok(()), ended: None }
    }

    /// No more steps performed than there are; as many steps as memory can hold.
    pub open spec fn wf(self) -> bool {
        0 <= self.position <= self.plan.len() <= usize::MAX
    }

    /// What to do next.
    pub open spec fn progress(self) -> RunProgress {
        match self.ended {
            Some(result) => RunProgress::Finished(result),
            None => if self.position < self.plan.len() {
                RunProgress::Perform(self.plan[self.position])
            } else {
                RunProgress::Finished(self.loop_result)
            },
        }
    }

    /// The run with one more step performed.
    pub open spec fn advanced(self) -> RunView {
        RunView { position: self.position + 1, ..self }
    }

    /// The run after a step.
    ///
    /// A failure ends the run, with two exceptions: the daemon does without the recoveries of the
    /// display driver, and after a failure of the event loop a probe session is still finished. A
    /// failure to finish it then takes the place of the loop's.
    pub open spec fn next(self, outcome: StepOutcome) -> RunView {
        match self.progress() {
            RunProgress::Finished(_) => self,
            RunProgress::Perform(step) => match outcome {
                StepOutcome::Done => self.advanced(),
                StepOutcome::AlreadyRunning => if step == RunStep::AcquireInstance {
                    RunView { ended: Some(Ok(())), ..self }
                } else {
                    self.advanced()
                },
                StepOutcome::Failed(error) => if step == RunStep::SubscribeGpuReset {
                    self.advanced()
                } else if step == RunStep::EventLoop {
                    RunView { loop_result: Err(error), ..self.advanced() }
                } else {
                    RunView { ended: Some(Err(error)), ..self }
                },
            },
        }
    }

    /// The run after a number of steps.
    pub open spec fn after(self, outcomes: Seq<StepOutcome>) -> RunView
        decreases outcomes.len(),
    {
        if outcomes.len() == 0 {
            self
        } else {
            self.after(outcomes.drop_last()).next(outcomes.last())
        }
    }
}

/// Starts a run of the daemon.
pub fn run(config: &RunConfig) -> (run: Run)
    ensures
        run@ == RunView::start(*config is Adjust),
        run@.wf(),
{
    let mut plan: Vec<RunStep> = vec![
        RunStep::CheckSession,
        RunStep::AcquireInstance,
        RunStep::ApplyProcessPolicy,
        RunStep::ApplyThreadPolicy,
        RunStep::CreateEvent(Signal::Brightness),
        RunStep::CreateEvent(Signal::Reconcile),
        RunStep::CreateEvent(Signal::Exit),
        RunStep::CreateEvent(Signal::WmiFailure),
        RunStep::CreateEvent(Signal::GpuReset),
        RunStep::CreateEvent(Signal::Probe),
        RunStep::CreateTimer(Timer::Debounce),
        RunStep::CreateTimer(Timer::LogFlush),
    ];
    if config.adjustment_enabled() {
        plan.push(RunStep::CreateTray);
        plan.push(RunStep::CreateSnapshotReader);
        plan.push(RunStep::StartWatcher);
        plan.push(RunStep::SubscribeGpuReset);
        plan.push(RunStep::FirstReconcile);
        plan.push(RunStep::EventLoop);
    } else {
        plan.push(RunStep::CreateRecorder);
        plan.push(RunStep::CreateTray);
        plan.push(RunStep::ShowProbePosition);
        plan.push(RunStep::EventLoop);
        plan.push(RunStep::FinishRecorder);
    }
    assert(plan@ =~= steps(*config is Adjust));
    Run { plan, position: 0, loop_result: Ok(()), ended: None }
}

impl Run {
    /// What to do next.
    pub fn progress(&self) -> (progress: RunProgress)
        requires
            self@.wf(),
        ensures
            progress == self@.progress(),
    {
        match self.ended {
            Some(result) => RunProgress::Finished(result),
            None => {
                if self.position < self.plan.len() {
                    RunProgress::Perform(self.plan[self.position])
                } else {
                    RunProgress::Finished(self.loop_result)
                }
            },
        }
    }

    /// Takes the outcome of the step that was to be performed.
    pub fn complete(&mut self, outcome: StepOutcome)
        requires
            old(self)@.wf(),
        ensures
            final(self)@ == old(self)@.next(outcome),
            final(self)@.wf(),
    {
        let step: RunStep = match self.progress() {
            RunProgress::Finished(_) => {
                return;
            },
            RunProgress::Perform(step) => step,
        };
        match outcome {
            StepOutcome::Done => {
                self.position = self.position + 1;
            },
            StepOutcome::AlreadyRunning => {
                if step == RunStep::AcquireInstance {
                    self.ended = Some(Ok(()));
                } else {
                    self.position = self.position + 1;
                }
            },
            StepOutcome::Failed(error) => {
                if step == RunStep::SubscribeGpuReset {
                    self.position = self.position + 1;
                } else if step == RunStep::EventLoop {
                    self.loop_result = Err(error);
                    self.position = self.position + 1;
                } else {
                    self.ended = Some(Err(error));
                }
            },
        }
    }
}

/// Whatever is written for a brightness is the white level of the calibrated balance, and it is
/// written to the only built-in panel.
pub proof fn written_level_is_calibrated(
    brightness: u8,
    balance: int,
    paths: Option<Seq<PathTarget>>,
    replies: Seq<DeviceReply>,
    index: int,
)
    requires
        calibrated(brightness as int, balance),
        0 <= index <= replies.len(),
        ApplyView::start(white_level(balance) as u32, paths).performed(replies, index) is Write,
    ensures
        ({
            let write = ApplyView::start(white_level(balance) as u32, paths).performed(
                replies,
                index,
            )->Write_0;
            &&& write.white_level == 1000 + 50 * balance
            &&& paths is Some
            &&& built_in_targets(paths->0) == seq![(write.adapter, write.target_id)]
        }),
{
    calibrated_balance_is_bounded(brightness as int, balance);
    only_the_unique_panel_is_written(white_level(balance) as u32, paths, replies, index);
}

/// The steps stay the same, and the run stays well formed.
proof fn run_keeps(adjusting: bool, outcomes: Seq<StepOutcome>)
    ensures
        RunView::start(adjusting).after(outcomes).plan == steps(adjusting),
        RunView::start(adjusting).after(outcomes).wf(),
        RunView::start(adjusting).after(outcomes).position <= outcomes.len(),
    decreases outcomes.len(),
{
    if outcomes.len() > 0 {
        run_keeps(adjusting, outcomes.drop_last());
    }
}

/// Whatever happens, a run in probe mode never sets the white level, and never starts anything
/// that would: neither the brightness events nor the watch for recoveries of the display driver.
pub proof fn probe_run_never_adjusts(outcomes: Seq<StepOutcome>)
    ensures
        RunView::start(false).after(outcomes).progress() matches RunProgress::Perform(step) ==> step
            != RunStep::FirstReconcile && step != RunStep::CreateSnapshotReader && step
            != RunStep::StartWatcher && step != RunStep::SubscribeGpuReset,
{
    run_keeps(false, outcomes);
}

/// A second instance ends with success, and does nothing after it has handed over.
pub proof fn second_instance_ends_quietly(adjusting: bool, later: Seq<StepOutcome>)
    ensures
        RunView::start(adjusting).after(
            seq![StepOutcome::Done, StepOutcome::AlreadyRunning] + later,
        ).progress() == RunProgress::Finished(Ok(())),
    decreases later.len(),
{
    let outcomes = seq![StepOutcome::Done, StepOutcome::AlreadyRunning] + later;
    if later.len() > 0 {
        second_instance_ends_quietly(adjusting, later.drop_last());
        assert(outcomes.drop_last() =~= seq![StepOutcome::Done, StepOutcome::AlreadyRunning]
            + later.drop_last());
    } else {
        reveal_with_fuel(RunView::after, 3);
        assert(outcomes.drop_last() =~= seq![StepOutcome::Done]);
        assert(outcomes.drop_last().drop_last() =~= Seq::<StepOutcome>::empty());
    }
}

/// However the event loop of a probe session ends, the session is finished next.
pub proof fn probe_session_is_finished(outcomes: Seq<StepOutcome>, outcome: StepOutcome)
    requires
        RunView::start(false).after(outcomes).progress() == RunProgress::Perform(
            RunStep::EventLoop,
        ),
    ensures
        RunView::start(false).after(outcomes.push(outcome)).progress() == RunProgress::Perform(
            RunStep::FinishRecorder,
        ),
{
    run_keeps(false, outcomes);
    assert(outcomes.push(outcome).drop_last() =~= outcomes);
}

/// A run without failures performs all its steps, in their order, and ends with success.
pub proof fn run_without_failures_succeeds(adjusting: bool, count: nat)
    ensures
        ({
            let outcomes = Seq::new(count, |i: int| StepOutcome::Done);
            RunView::start(adjusting).after(outcomes).progress() == if count < steps(
                adjusting,
            ).len() {
                RunProgress::Perform(steps(adjusting)[count as int])
            } else {
                RunProgress::Finished(Ok(()))
            }
        }),
{
    run_without_failures_counts(adjusting, count);
}

proof fn run_without_failures_counts(adjusting: bool, count: nat)
    ensures
        ({
            let view = RunView::start(adjusting).after(Seq::new(count, |i: int| StepOutcome::Done));
            &&& view.plan == steps(adjusting)
            &&& view.position == if count < steps(adjusting).len() {
                count as int
            } else {
                steps(adjusting).len() as int
            }
            &&& view.loop_result == Ok::<(), Error>(())
            &&& view.ended is None
        }),
    decreases count,
{
    if count > 0 {
        run_without_failures_counts(adjusting, (count - 1) as nat);
        assert(Seq::new(count, |i: int| StepOutcome::Done).drop_last() =~= Seq::new(
            (count - 1) as nat,
            |i: int| StepOutcome::Done,
        ));
    }
}

/// For a known brightness the level to set is that of the calibrated balance, whichever that is; for
/// an unknown one there is nothing to do.
pub proof fn known_brightness_has_its_level_set(brightness: u8, balance: int)
    requires
        calibrated(brightness as int, balance),
    ensures
        ReconcileStep::first(Some(brightness)) == ReconcileStep::Apply((1000 + 50 * balance) as u32),
        ReconcileStep::first(None) == ReconcileStep::Done(Ok(())),
{
    tabulated_balance_is_calibrated(brightness as int);
    calibrated_balance_is_unique(brightness as int, balance, balance_for(brightness as int));
}

/// The timer of the diagnostics is started, to fire once in five seconds, exactly if there is a
/// failure to tell of and the timer is not running. No outcome is a failure of its own.
pub proof fn failure_starts_the_timer(diagnostics: DiagnosticsView, outcome: ApplyOutcome)
    ensures
        description(outcome) is Some && !diagnostics.flush_armed ==> (ReconcileStep::after_outcome(
            diagnostics,
            outcome,
        ) matches ReconcileStep::ArmLogFlush(schedule) && schedule.due_time == -50_000_000
            && schedule.period == 0 && schedule.tolerance_ms == 2_000),
        description(outcome) is None || diagnostics.flush_armed ==> ReconcileStep::after_outcome(
            diagnostics,
            outcome,
        ) == ReconcileStep::Done(Ok(())),
{
}

/// What an outcome of the step that was to be performed leads to.
///
/// Success leads to the next step. Another instance ends the run with success where an instance is to
/// be acquired. A failure ends the run with that failure, except that the watch for recoveries is done
/// without, and that the failure of the event loop is kept until the end.
pub proof fn outcome_decides_the_run(run: RunView, step: RunStep, outcome: StepOutcome)
    requires
        run.progress() == RunProgress::Perform(step),
    ensures
        ({
            let next = run.next(outcome);
            let goes_on = outcome is Done || (outcome is AlreadyRunning && !(
            step is AcquireInstance)) || (outcome is Failed && (step is SubscribeGpuReset
                || step is EventLoop));
            &&& next.plan == run.plan
            &&& goes_on ==> next.position == run.position + 1 && next.ended is None
            &&& outcome is AlreadyRunning && step is AcquireInstance ==> next.progress()
                == RunProgress::Finished(Ok(()))
            &&& outcome is Failed && !goes_on ==> next.progress() == RunProgress::Finished(
                Err(outcome->0),
            )
            &&& outcome is Failed && step is EventLoop ==> next.loop_result == Err::<(), Error>(
                outcome->0,
            )
            &&& !(outcome is Failed && step is EventLoop) ==> next.loop_result == run.loop_result
        }),
{
}

/// A run goes through its steps one by one. Its result is what ended it early, or else what the event
/// loop ended with.
pub proof fn run_goes_through_the_steps(run: RunView, adjusting: bool)
    ensures
        run.ended matches Some(result) ==> run.progress() == RunProgress::Finished(result),
        run.ended is None && run.position < run.plan.len() ==> run.progress()
            == RunProgress::Perform(run.plan[run.position]),
        run.ended is None && run.position >= run.plan.len() ==> run.progress()
            == RunProgress::Finished(run.loop_result),
        RunView::start(adjusting).position == 0,
        RunView::start(adjusting).ended is None,
        RunView::start(adjusting).loop_result == Ok::<(), Error>(()),
        RunView::start(adjusting).plan == steps(adjusting),
{
}

/// Both modes look at the session first, then become the only instance, then ask to be treated as
/// background work, and then create the six events and the two timers. Nothing else of a run comes
/// before these, and none of these comes again.
pub proof fn modes_begin_alike(adjusting: bool, i: int)
    requires
        12 <= i < steps(adjusting).len(),
    ensures
        steps(adjusting)[0] is CheckSession,
        steps(adjusting)[1] is AcquireInstance,
        steps(adjusting)[2] is ApplyProcessPolicy,
        steps(adjusting)[3] is ApplyThreadPolicy,
        steps(adjusting)[4] == RunStep::CreateEvent(Signal::Brightness),
        steps(adjusting)[5] == RunStep::CreateEvent(Signal::Reconcile),
        steps(adjusting)[6] == RunStep::CreateEvent(Signal::Exit),
        steps(adjusting)[7] == RunStep::CreateEvent(Signal::WmiFailure),
        steps(adjusting)[8] == RunStep::CreateEvent(Signal::GpuReset),
        steps(adjusting)[9] == RunStep::CreateEvent(Signal::Probe),
        steps(adjusting)[10] == RunStep::CreateTimer(Timer::Debounce),
        steps(adjusting)[11] == RunStep::CreateTimer(Timer::LogFlush),
        !(steps(adjusting)[i] is CheckSession || steps(adjusting)[i] is AcquireInstance
            || steps(adjusting)[i] is ApplyProcessPolicy || steps(adjusting)[i] is ApplyThreadPolicy
            || steps(adjusting)[i] is CreateEvent || steps(adjusting)[i] is CreateTimer),
{
}

/// A run that adjusts shows its icon, connects to the brightness provider, starts to watch, sets the
/// white level once, and then loops, with nothing after it. A probe session opens its record before
/// there is an icon to click, shows the first position, loops, and closes the record.
pub proof fn modes_go_on_apart()
    ensures
        steps(true).skip(12) == seq![
            RunStep::CreateTray,
            RunStep::CreateSnapshotReader,
            RunStep::StartWatcher,
            RunStep::SubscribeGpuReset,
            RunStep::FirstReconcile,
            RunStep::EventLoop,
        ],
        steps(false).skip(12) == seq![
            RunStep::CreateRecorder,
            RunStep::CreateTray,
            RunStep::ShowProbePosition,
            RunStep::EventLoop,
            RunStep::FinishRecorder,
        ],
{
}

} // verus!
