use calibrator::gpu_reset::{Drain, DrainStep, BATCH_SIZE, CHANNEL, NO_MORE_ITEMS, QUERY};
use calibrator::power_policy::{
    apply_process_policy, apply_to_current_event_thread, PolicyCall, Throttling,
    PROCESS_POWER_THROTTLING_EXECUTION_SPEED, PROCESS_POWER_THROTTLING_IGNORE_TIMER_RESOLUTION,
    PROCESS_THROTTLING_FLAGS,
};
use calibrator::session::{check_window_station, ensure_interactive_window_station};
use calibrator::single_instance::{
    mutex_outcome, refresh_event_manual_reset, Acquire, AcquireStep, CallOutcome, InstanceGuard,
    ALREADY_EXISTS,
};
use calibrator::win32::{Error, Stage};
use calibrator::wmi_monitor::{
    current_brightness, start_result, watch, BrightnessRecord, WatchAction, WatchItem,
    WatcherStart, WatcherStep,
};

fn condition(stage: Stage) -> Error {
    Error { stage, code: 0 }
}

fn record(active: bool, brightness: u8) -> BrightnessRecord {
    BrightnessRecord { active, brightness }
}

#[test]
fn process_policy_controls_and_enables_both_required_mechanisms() {
    assert_ne!(
        PROCESS_THROTTLING_FLAGS & PROCESS_POWER_THROTTLING_EXECUTION_SPEED,
        0
    );
    assert_ne!(
        PROCESS_THROTTLING_FLAGS & PROCESS_POWER_THROTTLING_IGNORE_TIMER_RESOLUTION,
        0
    );
    assert_eq!(PROCESS_THROTTLING_FLAGS.count_ones(), 2);
}

#[test]
fn refresh_event_is_auto_reset_to_preserve_signals_during_reconciliation() {
    assert!(!refresh_event_manual_reset());
}

#[test]
fn each_failure_stage_has_a_stable_nonzero_exit_code() {
    let stages = [
        Stage::InteractiveSession,
        Stage::ProcessPowerPolicy,
        Stage::ProcessBackgroundMode,
        Stage::EventThreadPowerPolicy,
        Stage::SingleInstance,
        Stage::RegisterWindowClass,
        Stage::CreateMessageWindow,
        Stage::CreateEvent,
        Stage::CreateDebounceTimer,
        Stage::RegisterPowerNotifications,
        Stage::RegisterSessionNotifications,
        Stage::RegisterDisplayNotifications,
        Stage::WmiSnapshot,
        Stage::WmiSubscription,
        Stage::EventWait,
        Stage::GpuResetSubscription,
        Stage::ProbeConfiguration,
        Stage::ProbeLog,
    ];

    for (index, stage) in stages.iter().copied().enumerate() {
        let code = i32::try_from(index).unwrap();
        let error = Error { stage, code };
        assert_ne!(error.exit_code(), 0);
        assert_eq!(error.stage, stage);
        assert_eq!(error.code, code);
        assert_eq!(error.exit_code() / 2, stage.number());
        assert_eq!(usize::from(stage.number()), index + 1);
    }
}

#[test]
fn exit_code_tells_whether_the_system_gave_a_code() {
    assert_eq!(condition(Stage::InteractiveSession).exit_code(), 2);
    assert_eq!(Error::condition(Stage::ProbeLog).exit_code(), 36);
    assert_eq!(Error::with_code(Stage::ProbeLog, -1).exit_code(), 37);
}

#[test]
fn last_error_code_keeps_its_bits() {
    assert_eq!(Error::last(Stage::EventWait, 5).code, 5);
    assert_eq!(Error::last(Stage::EventWait, 0x7fff_ffff).code, i32::MAX);
    assert_eq!(Error::last(Stage::EventWait, 0x8000_0000).code, i32::MIN);
    assert_eq!(Error::last(Stage::EventWait, 0xffff_ffff).code, -1);
}

#[test]
fn error_object_is_reported_by_its_code() {
    for code in [-2_147_024_809, -1, 5] {
        let object = windows_core::Error::from_hresult(windows_core::HRESULT(code));
        assert_eq!(
            Error::windows(Stage::CreateEvent, &object),
            Error {
                stage: Stage::CreateEvent,
                code
            }
        );
    }
}

#[test]
fn drained_events_are_closed_and_remembered() {
    let mut drain = Drain::new();
    assert_eq!(drain.drain(Ok(3)), DrainStep::Continue(3));
    assert_eq!(drain.drain(Ok(0)), DrainStep::Continue(0));
    assert_eq!(drain.drain(Ok(99)), DrainStep::Continue(BATCH_SIZE));
    let end = windows_core::Error::from_hresult(windows_core::HRESULT::from_win32(NO_MORE_ITEMS));
    assert_eq!(drain.drain(Err(end)), DrainStep::Done(Ok(true)));
}

#[test]
fn nothing_to_drain_is_no_event() {
    let mut drain = Drain::new();
    assert_eq!(
        drain.drain_code(Err(0x8007_0103u32 as i32)),
        DrainStep::Done(Ok(false))
    );
    drain.drain_code(Ok(0));
    assert_eq!(
        drain.drain_code(Err(0x8007_0103u32 as i32)),
        DrainStep::Done(Ok(false))
    );
}

#[test]
fn other_failure_ends_the_drain() {
    for code in [5, 259, 0x8007_0005u32 as i32] {
        let mut drain = Drain::new();
        drain.drain_code(Ok(1));
        assert_eq!(
            drain.drain_code(Err(code)),
            DrainStep::Done(Err(Error {
                stage: Stage::GpuResetSubscription,
                code
            }))
        );
    }
}

#[test]
fn subscription_is_for_recoveries_of_the_display_driver() {
    assert_eq!(CHANNEL, "System");
    assert_eq!(
        QUERY,
        "*[System[Provider[@Name='Display'] and (EventID=4101)]]"
    );
}

#[test]
fn session_has_to_be_visible() {
    assert_eq!(ensure_interactive_window_station(1), Ok(()));
    assert_eq!(ensure_interactive_window_station(0xffff_ffff), Ok(()));
    for flags in [0, 2, 0xffff_fffe] {
        assert_eq!(
            ensure_interactive_window_station(flags),
            Err(condition(Stage::InteractiveSession))
        );
    }
}

#[test]
fn unreadable_window_station_is_a_failure() {
    assert_eq!(check_window_station(Ok(1)), Ok(()));
    assert_eq!(
        check_window_station(Ok(0)),
        Err(condition(Stage::InteractiveSession))
    );
    let object = windows_core::Error::from_hresult(windows_core::HRESULT(-5));
    assert_eq!(
        check_window_station(Err(object)),
        Err(Error {
            stage: Stage::InteractiveSession,
            code: -5
        })
    );
}

#[test]
fn policy_stops_at_the_first_failure() {
    let [throttle, background] = apply_process_policy();
    assert_eq!(throttle.after_call(Ok(())), Ok(Some(background)));
    assert_eq!(
        throttle.after_call(Err(5)),
        Err(Error {
            stage: Stage::ProcessPowerPolicy,
            code: 5
        })
    );
    assert_eq!(background.after_call(Ok(())), Ok(None));
    assert_eq!(
        background.after_call(Err(6)),
        Err(Error {
            stage: Stage::ProcessBackgroundMode,
            code: 6
        })
    );
    let thread = apply_to_current_event_thread();
    assert_eq!(thread.answer(Ok(())), Ok(None));
    let object = windows_core::Error::from_hresult(windows_core::HRESULT(-7));
    assert_eq!(
        thread.answer(Err(object)),
        Err(Error {
            stage: Stage::EventThreadPowerPolicy,
            code: -7
        })
    );
}

#[test]
fn policy_calls_fail_at_their_stages() {
    let process = apply_process_policy();
    assert_eq!(
        process,
        [
            PolicyCall::ThrottleProcess(Throttling {
                version: 1,
                control_mask: 5,
                state_mask: 5
            }),
            PolicyCall::EnterBackgroundMode,
        ]
    );
    assert_eq!(process[0].failure_stage(), Stage::ProcessPowerPolicy);
    assert_eq!(process[1].failure_stage(), Stage::ProcessBackgroundMode);
    let thread = apply_to_current_event_thread();
    assert_eq!(
        thread,
        PolicyCall::ThrottleThread(Throttling {
            version: 1,
            control_mask: 1,
            state_mask: 1
        })
    );
    assert_eq!(thread.failure_stage(), Stage::EventThreadPowerPolicy);
}

#[test]
fn first_instance_keeps_its_handles() {
    let mut guard = InstanceGuard::acquire(true);
    assert_eq!(guard.step, AcquireStep::CreateRefreshEvent);
    guard.answer(CallOutcome::Succeeded);
    assert_eq!(guard.step, AcquireStep::CreateMutex);
    guard.answer(mutex_outcome(0));
    assert_eq!(guard.step, AcquireStep::Done(Acquire::Acquired));
}

#[test]
fn later_instance_asks_for_a_refresh_and_closes() {
    for request_refresh in [true, false] {
        let mut guard = InstanceGuard::acquire(request_refresh);
        guard.answer(CallOutcome::Succeeded);
        guard.answer(mutex_outcome(ALREADY_EXISTS));
        if request_refresh {
            assert_eq!(guard.step, AcquireStep::SignalRefresh);
            guard.answer(CallOutcome::Succeeded);
        }
        assert_eq!(guard.step, AcquireStep::CloseMutex);
        guard.answer(CallOutcome::Succeeded);
        assert_eq!(guard.step, AcquireStep::CloseRefreshEvent);
        guard.answer(CallOutcome::Succeeded);
        assert_eq!(guard.step, AcquireStep::Done(Acquire::AlreadyRunning));
    }
}

#[test]
fn failed_instance_closes_what_it_opened() {
    let failed = Error {
        stage: Stage::SingleInstance,
        code: 5,
    };
    let mut guard = InstanceGuard::acquire(true);
    guard.answer(CallOutcome::Failed(failed));
    assert_eq!(guard.step, AcquireStep::Done(Acquire::Failed(failed)));

    let mut guard = InstanceGuard::acquire(true);
    guard.answer(CallOutcome::Succeeded);
    guard.answer(CallOutcome::Failed(failed));
    assert_eq!(guard.step, AcquireStep::CloseRefreshEvent);
    guard.answer(CallOutcome::Succeeded);
    assert_eq!(guard.step, AcquireStep::Done(Acquire::Failed(failed)));

    let mut guard = InstanceGuard::acquire(true);
    guard.answer(CallOutcome::Succeeded);
    guard.answer(CallOutcome::AlreadyExisted);
    guard.answer(CallOutcome::Failed(failed));
    assert_eq!(guard.step, AcquireStep::CloseMutex);
    guard.answer(CallOutcome::Succeeded);
    guard.answer(CallOutcome::Succeeded);
    assert_eq!(guard.step, AcquireStep::Done(Acquire::Failed(failed)));
}

#[test]
fn brightness_is_what_all_active_records_agree_on() {
    assert_eq!(current_brightness(None), None);
    assert_eq!(current_brightness(Some(vec![])), None);
    assert_eq!(current_brightness(Some(vec![record(true, 70)])), Some(70));
    assert_eq!(
        current_brightness(Some(vec![
            record(false, 10),
            record(true, 70),
            record(true, 101),
            record(true, 70),
        ])),
        Some(70)
    );
    assert_eq!(
        current_brightness(Some(vec![record(true, 70), record(true, 71)])),
        None
    );
    assert_eq!(current_brightness(Some(vec![record(false, 70)])), None);
    assert_eq!(current_brightness(Some(vec![record(true, 100)])), Some(100));
}

#[test]
fn usable_events_are_signaled() {
    assert_eq!(
        watch(WatchItem::Event(record(true, 100))),
        WatchAction::SignalBrightness
    );
    assert_eq!(
        watch(WatchItem::Event(record(true, 101))),
        WatchAction::Ignore
    );
    assert_eq!(
        watch(WatchItem::Event(record(false, 50))),
        WatchAction::Ignore
    );
    assert_eq!(watch(WatchItem::Broken), WatchAction::SignalFailure);
    assert_eq!(watch(WatchItem::Ended), WatchAction::SignalFailure);
    assert_eq!(watch(WatchItem::Shutdown), WatchAction::Stop);
}

#[test]
fn watcher_reports_before_it_watches() {
    let mut step = WatcherStep::ApplyPolicy;
    for expected in [
        WatcherStep::Connect,
        WatcherStep::Subscribe,
        WatcherStep::ReportReady,
        WatcherStep::Watch,
        WatcherStep::Stop,
    ] {
        step = step.next(true);
        assert_eq!(step, expected);
    }
    assert_eq!(
        WatcherStep::ApplyPolicy.next(false),
        WatcherStep::ReportFailure(condition(Stage::EventThreadPowerPolicy))
    );
    assert_eq!(
        WatcherStep::Connect.next(false),
        WatcherStep::ReportFailure(condition(Stage::WmiSubscription))
    );
    assert_eq!(
        WatcherStep::Subscribe.next(false),
        WatcherStep::ReportFailure(condition(Stage::WmiSubscription))
    );
    assert_eq!(WatcherStep::ReportReady.next(false), WatcherStep::Stop);
}

#[test]
fn watcher_that_did_not_start_is_a_failure() {
    let failed = condition(Stage::EventThreadPowerPolicy);
    assert_eq!(start_result(WatcherStart::Ready), Ok(()));
    assert_eq!(start_result(WatcherStart::Failed(failed)), Err(failed));
    assert_eq!(
        start_result(WatcherStart::NotSpawned),
        Err(condition(Stage::WmiSubscription))
    );
    assert_eq!(
        start_result(WatcherStart::Silent),
        Err(condition(Stage::WmiSubscription))
    );
}
