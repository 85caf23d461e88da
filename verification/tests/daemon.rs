use calibrator::daemon::{
    record_outcome, run, ReconcileStep, Run, RunProgress, RunStep, Signal, StepOutcome, Timer,
};
use calibrator::diagnostics::{outcome_description, Diagnostics};
use calibrator::display::ApplyOutcome;
use calibrator::event_loop::{
    arm_debounce, arm_log_flush, drain_messages, wait_outcome, Effect, EventLoop, LoopStep,
    MessageStep, TimerSchedule, WaitHandles, WaitOutcome, WaitSource, WAIT_FAILED, WM_QUIT,
};
use calibrator::probe::{ProbeConfig, RunConfig};
use calibrator::turn::{EffectOutcome, Turn, TurnStep};
use calibrator::win32::{Error, Stage};

fn effects(step: LoopStep) -> Vec<Effect> {
    match step {
        LoopStep::Perform(effects) => effects,
        LoopStep::Finish(result) => panic!("{result:?}"),
    }
}

fn finish(step: LoopStep) -> Result<(), Error> {
    match step {
        LoopStep::Perform(effects) => panic!("{effects:?}"),
        LoopStep::Finish(result) => result,
    }
}

fn error(stage: Stage) -> Error {
    Error { stage, code: 7 }
}

fn probe_config() -> RunConfig {
    RunConfig::Probe(ProbeConfig {
        positions: vec![0, 100],
    })
}

fn steps_of(config: &RunConfig) -> Vec<RunStep> {
    let mut run: Run = run(config);
    let mut steps = Vec::new();
    while let RunProgress::Perform(step) = run.progress() {
        steps.push(step);
        run.complete(StepOutcome::Done);
    }
    assert_eq!(run.progress(), RunProgress::Finished(Ok(())));
    steps
}

fn advance_to(run: &mut Run, step: RunStep) {
    while run.progress() != RunProgress::Perform(step) {
        run.complete(StepOutcome::Done);
    }
}

#[test]
fn adjusting_run_does_everything_in_order() {
    assert_eq!(
        steps_of(&RunConfig::Adjust),
        [
            RunStep::CheckSession,
            RunStep::AcquireInstance,
            RunStep::ApplyProcessPolicy,
            RunStep::ApplyThreadPolicy,
            RunStep::CreateEvent(Signal::Brightness),
            RunStep::CreateEvent(Signal::Reconcile),
            RunStep::CreateEvent(Signal::Exit),
            RunStep::CreateEvent(Signal::WmiFailure),
            RunStep::CreateEvent(Signal::GpuReset),
            RunStep::CreateEvent(Signal::Probe),
            RunStep::CreateTimer(Timer::Debounce),
            RunStep::CreateTimer(Timer::LogFlush),
            RunStep::CreateTray,
            RunStep::CreateSnapshotReader,
            RunStep::StartWatcher,
            RunStep::SubscribeGpuReset,
            RunStep::FirstReconcile,
            RunStep::EventLoop,
        ]
    );
}

#[test]
fn probe_run_starts_nothing_that_adjusts() {
    let steps = steps_of(&probe_config());
    assert_eq!(
        steps[12..],
        [
            RunStep::CreateRecorder,
            RunStep::CreateTray,
            RunStep::ShowProbePosition,
            RunStep::EventLoop,
            RunStep::FinishRecorder,
        ]
    );
}

#[test]
fn second_instance_ends_with_success() {
    let mut second = run(&RunConfig::Adjust);
    second.complete(StepOutcome::Done);
    second.complete(StepOutcome::AlreadyRunning);
    assert_eq!(second.progress(), RunProgress::Finished(Ok(())));
    second.complete(StepOutcome::Done);
    assert_eq!(second.progress(), RunProgress::Finished(Ok(())));
}

#[test]
fn failure_ends_the_run() {
    let mut failing = run(&RunConfig::Adjust);
    advance_to(&mut failing, RunStep::StartWatcher);
    failing.complete(StepOutcome::Failed(error(Stage::WmiSubscription)));
    assert_eq!(
        failing.progress(),
        RunProgress::Finished(Err(error(Stage::WmiSubscription)))
    );
}

#[test]
fn gpu_resets_can_be_done_without() {
    let mut adjusting = run(&RunConfig::Adjust);
    advance_to(&mut adjusting, RunStep::SubscribeGpuReset);
    adjusting.complete(StepOutcome::Failed(error(Stage::GpuResetSubscription)));
    assert_eq!(
        adjusting.progress(),
        RunProgress::Perform(RunStep::FirstReconcile)
    );
}

#[test]
fn probe_session_is_finished_after_a_failed_loop() {
    let mut probing = run(&probe_config());
    advance_to(&mut probing, RunStep::EventLoop);
    probing.complete(StepOutcome::Failed(error(Stage::EventWait)));
    assert_eq!(
        probing.progress(),
        RunProgress::Perform(RunStep::FinishRecorder)
    );
    probing.complete(StepOutcome::Done);
    assert_eq!(
        probing.progress(),
        RunProgress::Finished(Err(error(Stage::EventWait)))
    );

    let mut probing = run(&probe_config());
    advance_to(&mut probing, RunStep::EventLoop);
    probing.complete(StepOutcome::Failed(error(Stage::EventWait)));
    probing.complete(StepOutcome::Failed(error(Stage::ProbeLog)));
    assert_eq!(
        probing.progress(),
        RunProgress::Finished(Err(error(Stage::ProbeLog)))
    );
}

#[test]
fn run_steps_fail_at_their_stages() {
    assert_eq!(
        RunStep::CheckSession.failure_stage(),
        Some(Stage::InteractiveSession)
    );
    assert_eq!(
        RunStep::AcquireInstance.failure_stage(),
        Some(Stage::SingleInstance)
    );
    assert_eq!(
        RunStep::CreateEvent(Signal::Exit).failure_stage(),
        Some(Stage::CreateEvent)
    );
    assert_eq!(
        RunStep::CreateTimer(Timer::LogFlush).failure_stage(),
        Some(Stage::CreateDebounceTimer)
    );
    assert_eq!(
        RunStep::CreateRecorder.failure_stage(),
        Some(Stage::ProbeLog)
    );
    assert_eq!(
        RunStep::CreateSnapshotReader.failure_stage(),
        Some(Stage::WmiSnapshot)
    );
    assert_eq!(
        RunStep::SubscribeGpuReset.failure_stage(),
        Some(Stage::GpuResetSubscription)
    );
    assert_eq!(RunStep::EventLoop.failure_stage(), None);
}

#[test]
fn wait_results_name_their_sources() {
    let sources = [
        WaitSource::DebounceTimer,
        WaitSource::LogFlushTimer,
        WaitSource::Brightness,
        WaitSource::Reconcile,
        WaitSource::Exit,
        WaitSource::WmiFailure,
        WaitSource::GpuReset,
        WaitSource::Probe,
        WaitSource::Refresh,
        WaitSource::Messages,
    ];
    for (wait, source) in (0..).zip(sources) {
        assert_eq!(wait_outcome(wait), WaitOutcome::Signaled(source));
    }
    assert_eq!(wait_outcome(10), WaitOutcome::Unknown);
    assert_eq!(wait_outcome(258), WaitOutcome::Unknown);
    assert_eq!(wait_outcome(WAIT_FAILED), WaitOutcome::Failed);
}

#[test]
fn handles_stand_in_the_order_of_the_sources() {
    let handles = WaitHandles {
        debounce_timer: 10,
        log_flush_timer: 11,
        brightness_signal: 12,
        reconcile_signal: 13,
        exit_signal: 14,
        wmi_failure_signal: 15,
        gpu_reset_signal: 16,
        probe_signal: 17,
        refresh_signal: 18,
    };
    assert_eq!(
        handles.as_array(),
        [10, 11, 12, 13, 14, 15, 16, 17, 18]
    );
}

#[test]
fn brightness_burst_is_acted_on_once() {
    let mut state = EventLoop::new(true, false, true);
    for _ in 0..3 {
        assert_eq!(
            effects(state.handle(WaitSource::Brightness)),
            [Effect::ResetBrightness, Effect::ArmDebounce]
        );
    }
    assert_eq!(
        effects(state.handle(WaitSource::DebounceTimer)),
        [Effect::Reconcile]
    );
    assert_eq!(effects(state.handle(WaitSource::DebounceTimer)), []);
}

#[test]
fn lifecycle_event_supersedes_the_debounce() {
    let mut state = EventLoop::new(true, false, true);
    state.handle(WaitSource::Brightness);
    assert_eq!(
        effects(state.handle(WaitSource::Reconcile)),
        [
            Effect::ResetReconcile,
            Effect::ResetBrightness,
            Effect::CancelDebounce,
            Effect::Reconcile,
        ]
    );
    assert_eq!(effects(state.handle(WaitSource::DebounceTimer)), []);
    assert_eq!(
        effects(state.handle(WaitSource::Reconcile)),
        [
            Effect::ResetReconcile,
            Effect::ResetBrightness,
            Effect::Reconcile,
        ]
    );
}

#[test]
fn second_launch_refreshes_at_once() {
    let mut state = EventLoop::new(true, false, true);
    assert_eq!(
        effects(state.handle(WaitSource::Refresh)),
        [Effect::ResetBrightness, Effect::Reconcile]
    );
    state.handle(WaitSource::Brightness);
    assert_eq!(
        effects(state.handle(WaitSource::Refresh)),
        [
            Effect::CancelDebounce,
            Effect::ResetBrightness,
            Effect::Reconcile,
        ]
    );
    assert!(!state.debounce_armed);
}

#[test]
fn probe_mode_handles_events_without_adjusting() {
    let mut state = EventLoop::new(false, true, false);
    assert_eq!(
        effects(state.handle(WaitSource::Brightness)),
        [Effect::ResetBrightness]
    );
    assert_eq!(
        effects(state.handle(WaitSource::Reconcile)),
        [Effect::ResetReconcile, Effect::ResetBrightness]
    );
    assert_eq!(
        effects(state.handle(WaitSource::Refresh)),
        [Effect::ResetBrightness]
    );
    assert_eq!(
        effects(state.handle(WaitSource::GpuReset)),
        [Effect::ResetGpuReset]
    );
    assert_eq!(
        effects(state.handle(WaitSource::Probe)),
        [Effect::ResetProbe, Effect::CaptureProbe]
    );
}

#[test]
fn adjusting_mode_handles_the_other_events() {
    let mut state = EventLoop::new(true, false, true);
    assert_eq!(
        effects(state.handle(WaitSource::LogFlushTimer)),
        [Effect::FlushLog]
    );
    assert_eq!(
        effects(state.handle(WaitSource::GpuReset)),
        [Effect::ResetGpuReset, Effect::DrainGpuReset]
    );
    assert_eq!(
        effects(state.handle(WaitSource::Probe)),
        [Effect::ResetProbe]
    );
    assert_eq!(
        effects(state.handle(WaitSource::Messages)),
        [Effect::DrainMessages]
    );
}

#[test]
fn loop_ends_by_exit_failure_or_surprise() {
    let mut state = EventLoop::new(true, false, true);
    assert_eq!(finish(state.wake(4, 0)), Ok(()));
    assert_eq!(
        finish(state.wake(5, 0)),
        Err(Error {
            stage: Stage::WmiSubscription,
            code: 0
        })
    );
    assert_eq!(
        finish(state.wake(10, 6)),
        Err(Error {
            stage: Stage::EventWait,
            code: 0
        })
    );
    assert_eq!(
        finish(state.wake(WAIT_FAILED, 6)),
        Err(Error {
            stage: Stage::EventWait,
            code: 6
        })
    );
    assert_eq!(effects(state.wake(1, 0)), [Effect::FlushLog]);
}

#[test]
fn effects_fail_at_their_stages() {
    assert_eq!(Effect::ResetProbe.failure_stage(), Stage::EventWait);
    assert_eq!(Effect::CancelDebounce.failure_stage(), Stage::EventWait);
    assert_eq!(
        Effect::ArmDebounce.failure_stage(),
        Stage::CreateDebounceTimer
    );
    assert_eq!(Effect::Reconcile.failure_stage(), Stage::CreateDebounceTimer);
    assert_eq!(Effect::CaptureProbe.failure_stage(), Stage::ProbeLog);
    assert_eq!(
        Effect::DrainGpuReset.failure_stage(),
        Stage::GpuResetSubscription
    );
}

#[test]
fn messages_are_dispatched_until_there_are_none() {
    assert_eq!(drain_messages(Some(15)), MessageStep::Dispatch);
    assert_eq!(drain_messages(Some(WM_QUIT)), MessageStep::Quit);
    assert_eq!(drain_messages(None), MessageStep::Drained);
    assert!(MessageStep::Dispatch.loop_step().is_none());
    assert!(MessageStep::Drained.loop_step().is_none());
    assert_eq!(finish(MessageStep::Quit.loop_step().unwrap()), Ok(()));
}

#[test]
fn unknown_brightness_changes_nothing() {
    assert_eq!(ReconcileStep::begin(None), ReconcileStep::Done(Ok(())));
    assert_eq!(ReconcileStep::begin(Some(70)), ReconcileStep::Apply(2_800));
}

#[test]
fn outcome_is_recorded_and_arms_the_timer_once() {
    let mut diagnostics = Diagnostics::new();
    assert_eq!(
        ReconcileStep::applied(&mut diagnostics, &ApplyOutcome::AppliedAndVerified),
        ReconcileStep::Done(Ok(()))
    );
    assert_eq!(
        ReconcileStep::applied(&mut diagnostics, &ApplyOutcome::TopologyUnavailable),
        ReconcileStep::ArmLogFlush(arm_log_flush())
    );
    assert_eq!(
        ReconcileStep::applied(&mut diagnostics, &ApplyOutcome::InspectionUnavailable),
        ReconcileStep::Done(Ok(()))
    );
    assert_eq!(
        diagnostics.flush().as_deref(),
        Some("reconcile: HDR target inspection failed")
    );
    assert_eq!(
        record_outcome(&mut diagnostics, &ApplyOutcome::SetFailed(1)),
        Some(arm_log_flush())
    );
    let failed = error(Stage::CreateDebounceTimer);
    assert_eq!(
        ReconcileStep::armed(Err(failed)),
        ReconcileStep::Done(Err(failed))
    );
    assert_eq!(ReconcileStep::armed(Ok(())), ReconcileStep::Done(Ok(())));
}

#[test]
fn timers_fire_once_and_relative_to_now() {
    assert_eq!(
        arm_debounce(),
        TimerSchedule {
            due_time: -1_500_000,
            period: 0,
            tolerance_ms: 50
        }
    );
    assert_eq!(
        arm_log_flush(),
        TimerSchedule {
            due_time: -50_000_000,
            period: 0,
            tolerance_ms: 2_000
        }
    );
}

#[test]
fn normal_outcomes_are_not_described() {
    for outcome in [
        ApplyOutcome::AppliedAndVerified,
        ApplyOutcome::AlreadyCorrect,
        ApplyOutcome::NoHdrTarget,
    ] {
        assert_eq!(outcome_description(&outcome), None);
    }
}

#[test]
fn failures_are_described() {
    let described = [
        (
            ApplyOutcome::AmbiguousInternalTargets,
            "reconcile: ambiguous internal HDR targets",
        ),
        (
            ApplyOutcome::TopologyUnavailable,
            "reconcile: display topology query failed",
        ),
        (
            ApplyOutcome::InspectionUnavailable,
            "reconcile: HDR target inspection failed",
        ),
        (
            ApplyOutcome::SetFailed(31),
            "reconcile: DisplayConfigSetDeviceInfo failed (HRESULT 0x0000001f)",
        ),
        (
            ApplyOutcome::SetFailed(-2_147_024_809),
            "reconcile: DisplayConfigSetDeviceInfo failed (HRESULT 0x80070057)",
        ),
        (
            ApplyOutcome::VerificationFailed {
                expected: 3_500,
                observed: Some(3_450),
            },
            "reconcile: verification failed (expected SDR white level 3500, read 3450)",
        ),
        (
            ApplyOutcome::VerificationFailed {
                expected: 3_500,
                observed: None,
            },
            "reconcile: verification failed (expected SDR white level 3500, read unavailable)",
        ),
    ];
    for (outcome, description) in described {
        assert_eq!(outcome_description(&outcome).as_deref(), Some(description));
    }
}

#[test]
fn burst_of_failures_is_reported_once() {
    let mut diagnostics = Diagnostics::new();
    assert!(diagnostics.record(&ApplyOutcome::TopologyUnavailable));
    assert!(!diagnostics.record(&ApplyOutcome::InspectionUnavailable));
    assert_eq!(
        diagnostics.flush().as_deref(),
        Some("reconcile: HDR target inspection failed")
    );
    assert_eq!(diagnostics.flush(), None);
    assert!(diagnostics.record(&ApplyOutcome::TopologyUnavailable));
}

#[test]
fn recovery_suppresses_the_report() {
    let mut diagnostics = Diagnostics::new();
    assert!(!diagnostics.record(&ApplyOutcome::AlreadyCorrect));
    assert!(diagnostics.record(&ApplyOutcome::SetFailed(1)));
    assert!(!diagnostics.record(&ApplyOutcome::AppliedAndVerified));
    assert!(!diagnostics.record(&ApplyOutcome::SetFailed(2)));
    assert!(!diagnostics.record(&ApplyOutcome::AppliedAndVerified));
    assert_eq!(diagnostics.flush(), None);
}

#[test]
fn turn_performs_effects_in_order_and_waits() {
    let mut state = EventLoop::new(true, false, true);
    let mut turn = Turn::begin(&mut state, 3, 0);
    for effect in [
        Effect::ResetReconcile,
        Effect::ResetBrightness,
        Effect::Reconcile,
    ] {
        assert_eq!(turn.step(), TurnStep::Perform(effect));
        turn.complete(EffectOutcome::Done);
    }
    assert_eq!(turn.step(), TurnStep::Wait);
    turn.complete(EffectOutcome::Failed(error(Stage::EventWait)));
    assert_eq!(turn.step(), TurnStep::Wait);
}

#[test]
fn first_failed_effect_ends_the_loop() {
    let mut state = EventLoop::new(true, false, true);
    let mut turn = Turn::begin(&mut state, 3, 0);
    turn.complete(EffectOutcome::Done);
    turn.complete(EffectOutcome::Failed(error(Stage::EventWait)));
    assert_eq!(
        turn.step(),
        TurnStep::Finish(Err(error(Stage::EventWait)))
    );
    turn.complete(EffectOutcome::Done);
    assert_eq!(
        turn.step(),
        TurnStep::Finish(Err(error(Stage::EventWait)))
    );
}

#[test]
fn observed_recovery_sets_the_white_level() {
    for (adjusting, observed) in [(true, true), (true, false), (false, true)] {
        let mut state = EventLoop::new(adjusting, false, true);
        let mut turn = Turn::begin(&mut state, 6, 0);
        assert_eq!(turn.step(), TurnStep::Perform(Effect::ResetGpuReset));
        turn.complete(EffectOutcome::Done);
        assert_eq!(turn.step(), TurnStep::Perform(Effect::DrainGpuReset));
        turn.complete(EffectOutcome::Drained { observed });
        if adjusting && observed {
            assert_eq!(turn.step(), TurnStep::Perform(Effect::Reconcile));
            turn.complete(EffectOutcome::Done);
        }
        assert_eq!(turn.step(), TurnStep::Wait);
    }
}

#[test]
fn turn_ends_the_loop_on_request() {
    let mut state = EventLoop::new(true, false, true);
    let mut turn = Turn::begin(&mut state, 9, 0);
    assert_eq!(turn.step(), TurnStep::Perform(Effect::DrainMessages));
    turn.complete(EffectOutcome::Handled(MessageStep::Quit));
    assert_eq!(turn.step(), TurnStep::Finish(Ok(())));
    let mut turn = Turn::begin(&mut state, 9, 0);
    turn.complete(EffectOutcome::Handled(MessageStep::Drained));
    assert_eq!(turn.step(), TurnStep::Wait);
    assert_eq!(
        Turn::begin(&mut state, 4, 0).step(),
        TurnStep::Finish(Ok(()))
    );
    assert_eq!(
        Turn::begin(&mut state, WAIT_FAILED, 6).step(),
        TurnStep::Finish(Err(Error {
            stage: Stage::EventWait,
            code: 6
        }))
    );
    assert_eq!(
        Turn::begin(&mut state, 99, 6).step(),
        TurnStep::Finish(Err(Error {
            stage: Stage::EventWait,
            code: 0
        }))
    );
}
