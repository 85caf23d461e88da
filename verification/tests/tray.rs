use calibrator::tray::{
    brings_context, decode_probe_position, display_is_on, encode_probe_position,
    ensure_tray_icon, handle_tray_callback, holds_display_state, menu_items, menu_signal,
    power_setting_action, teardown, tooltip, window_proc, IconStep, Registration, RegistrationStep, Registrations, TeardownStep,
    TrayAction, TrayOutcome, TrayStep, WindowAction, WindowContext, WindowSignal,
    DBT_DEVICEARRIVAL, GUID_SESSION_DISPLAY_STATUS, NIN_KEYSELECT, PBT_APMRESUMEAUTOMATIC,
    PBT_POWERSETTINGCHANGE, TRAY_CALLBACK, WM_CLOSE, WM_CONTEXTMENU, WM_DEVICECHANGE,
    WM_DISPLAYCHANGE, WM_LBUTTONDBLCLK, WM_NCCREATE, WM_NCDESTROY, WM_POWERBROADCAST,
    WM_WTSSESSION_CHANGE,
};
use calibrator::wide::write_wide_truncated;
use calibrator::win32::{Error, Stage};

const CONTEXT: WindowContext = WindowContext {
    probe_mode: false,
    taskbar_created_msg: 0xc123,
};

const FAILED: Error = Error {
    stage: Stage::CreateMessageWindow,
    code: 8,
};

fn icon_event(event: u32) -> i64 {
    i64::from(event | (1 << 16))
}

#[test]
fn wide_string_is_terminated() {
    let mut buffer = [99; 8];
    write_wide_truncated(&mut buffer, "abc");
    assert_eq!(
        &buffer[..4],
        &[u16::from(b'a'), u16::from(b'b'), u16::from(b'c'), 0]
    );
}

#[test]
fn wide_string_truncates_without_splitting_utf16_units() {
    let mut buffer = [99; 3];
    write_wide_truncated(&mut buffer, "A😀Z");
    assert_eq!(buffer, [u16::from(b'A'), 0, 0]);
}

#[test]
fn zero_sized_destination_is_supported() {
    let mut buffer = [];
    write_wide_truncated(&mut buffer, "ignored");
}

#[test]
fn wide_string_matches_the_standard_encoding() {
    let text = "é—😀\u{10ffff}z";
    let mut expected: Vec<u16> = text.encode_utf16().collect();
    expected.resize(9, 0);
    let mut buffer = [7; 9];
    write_wide_truncated(&mut buffer, text);
    assert_eq!(buffer.to_vec(), expected);
    let mut buffer = [7; 1];
    write_wide_truncated(&mut buffer, text);
    assert_eq!(buffer, [0]);
}

#[test]
fn double_click_exits() {
    for probe_mode in [false, true] {
        assert_eq!(
            handle_tray_callback(0, icon_event(WM_LBUTTONDBLCLK), probe_mode),
            Some(TrayAction::Signal(WindowSignal::Exit))
        );
    }
}

#[test]
fn keyboard_records_in_probe_mode_and_exits_otherwise() {
    assert_eq!(
        handle_tray_callback(0, icon_event(NIN_KEYSELECT), true),
        Some(TrayAction::Signal(WindowSignal::Probe))
    );
    assert_eq!(
        handle_tray_callback(0, icon_event(NIN_KEYSELECT), false),
        Some(TrayAction::Signal(WindowSignal::Exit))
    );
}

#[test]
fn context_menu_opens_at_signed_coordinates() {
    assert_eq!(
        handle_tray_callback(0xabcd_0000_fffe_0003, icon_event(WM_CONTEXTMENU), false),
        Some(TrayAction::ShowMenu { x: 3, y: -2 })
    );
    assert_eq!(
        handle_tray_callback(0x7fff_8000, icon_event(WM_CONTEXTMENU), false),
        Some(TrayAction::ShowMenu { x: -32_768, y: 32_767 })
    );
}

#[test]
fn other_icons_and_events_are_ignored() {
    assert_eq!(handle_tray_callback(0, 515, false), None);
    assert_eq!(handle_tray_callback(0, (2 << 16) | 515, false), None);
    assert_eq!(handle_tray_callback(0, icon_event(0x200), false), None);
    assert_eq!(
        handle_tray_callback(0, -0x1_0000_0000 + icon_event(WM_LBUTTONDBLCLK), false),
        Some(TrayAction::Signal(WindowSignal::Exit))
    );
}

#[test]
fn lifecycle_messages_lead_to_reconciliation() {
    let context = Some(CONTEXT);
    assert_eq!(
        window_proc(
            WM_POWERBROADCAST,
            u64::from(PBT_APMRESUMEAUTOMATIC),
            0,
            context
        ),
        WindowAction::Reconcile(1)
    );
    assert_eq!(
        window_proc(WM_WTSSESSION_CHANGE, 8, 0, context),
        WindowAction::Reconcile(0)
    );
    assert_eq!(
        window_proc(WM_DISPLAYCHANGE, 0, 0, context),
        WindowAction::Reconcile(0)
    );
    for event in [u64::from(DBT_DEVICEARRIVAL), 0x8004, 7, 24] {
        assert_eq!(
            window_proc(WM_DEVICECHANGE, event, 0, context),
            WindowAction::Reconcile(0)
        );
    }
}

#[test]
fn other_messages_are_left_to_the_system() {
    let context = Some(CONTEXT);
    assert_eq!(
        window_proc(WM_WTSSESSION_CHANGE, 7, 0, context),
        WindowAction::Default
    );
    assert_eq!(
        window_proc(WM_DEVICECHANGE, 0x1_0000_8000, 0, context),
        WindowAction::Default
    );
    assert_eq!(window_proc(1, 0, 0, context), WindowAction::Default);
    assert_eq!(window_proc(WM_CLOSE, 0, 0, context), WindowAction::Reply(0));
    assert_eq!(
        window_proc(WM_NCDESTROY, 0, 0, context),
        WindowAction::Forget
    );
    assert_eq!(
        window_proc(WM_POWERBROADCAST, 7, 0, context),
        WindowAction::Reply(1)
    );
}

#[test]
fn power_setting_is_inspected_if_there_is_one() {
    let change = u64::from(PBT_POWERSETTINGCHANGE);
    assert_eq!(
        window_proc(WM_POWERBROADCAST, change, 0x1000, Some(CONTEXT)),
        WindowAction::InspectPowerSetting
    );
    assert_eq!(
        window_proc(WM_POWERBROADCAST, change, 0, Some(CONTEXT)),
        WindowAction::Reply(1)
    );
    assert!(holds_display_state(GUID_SESSION_DISPLAY_STATUS, 4));
    assert!(!holds_display_state(GUID_SESSION_DISPLAY_STATUS, 3));
    assert!(!holds_display_state(GUID_SESSION_DISPLAY_STATUS + 1, 4));
    let display = GUID_SESSION_DISPLAY_STATUS;
    assert_eq!(
        power_setting_action(display, 4, Some(1)),
        WindowAction::Reconcile(1)
    );
    for (setting, length, state) in [
        (display, 4, Some(0)),
        (display, 4, Some(2)),
        (display, 4, None),
        (display, 3, Some(1)),
        (display - 1, 4, Some(1)),
    ] {
        assert_eq!(
            power_setting_action(setting, length, state),
            WindowAction::Reply(1)
        );
    }
    assert!(display_is_on(1));
    assert!(!display_is_on(0));
    assert!(!display_is_on(2));
}

#[test]
fn new_taskbar_gets_the_icon_again() {
    assert_eq!(
        window_proc(0xc123, 0, 0, Some(CONTEXT)),
        WindowAction::RestoreIcon
    );
    let unregistered = WindowContext {
        taskbar_created_msg: 0,
        ..CONTEXT
    };
    assert_eq!(
        window_proc(0, 0, 0, Some(unregistered)),
        WindowAction::Default
    );
    assert_eq!(
        window_proc(
            TRAY_CALLBACK,
            0,
            icon_event(WM_LBUTTONDBLCLK),
            Some(CONTEXT)
        ),
        WindowAction::Tray(TrayAction::Signal(WindowSignal::Exit))
    );
    assert_eq!(
        window_proc(TRAY_CALLBACK, 0, 0, Some(CONTEXT)),
        WindowAction::Default
    );
}

#[test]
fn window_without_context_signals_nothing() {
    assert!(brings_context(WM_NCCREATE));
    assert!(!brings_context(WM_NCDESTROY));
    for message in [
        WM_POWERBROADCAST,
        WM_WTSSESSION_CHANGE,
        WM_DEVICECHANGE,
        WM_DISPLAYCHANGE,
    ] {
        for parameter in [8, 18, 0x8000] {
            assert_eq!(
                window_proc(message, parameter, 0, None),
                WindowAction::Default
            );
        }
    }
    assert_eq!(window_proc(WM_CLOSE, 0, 0, None), WindowAction::Reply(0));
    assert_eq!(window_proc(WM_NCDESTROY, 0, 0, None), WindowAction::Forget);
}

#[test]
fn positions_survive_being_kept_as_numbers() {
    for position in [None, Some(0), Some(75), Some(255)] {
        assert_eq!(
            decode_probe_position(encode_probe_position(position)),
            position
        );
    }
    assert_eq!(encode_probe_position(None), u32::MAX);
    assert_eq!(decode_probe_position(256), None);
}

#[test]
fn tooltip_tells_what_to_do() {
    assert_eq!(
        tooltip(false, Some(5)),
        "HDR calibrator — double-click to exit"
    );
    assert_eq!(
        tooltip(true, None),
        "HDR probe — use tray menu to record or exit"
    );
    assert_eq!(
        tooltip(true, Some(75)),
        "HDR probe — set slider to 75, then use tray menu"
    );
}

#[test]
fn menu_records_in_probe_mode_only() {
    let labels = |probe_mode| -> Vec<(usize, &str)> {
        menu_items(probe_mode)
            .iter()
            .map(|item| (item.command, item.label))
            .collect()
    };
    assert_eq!(labels(false), [(2, "Exit")]);
    assert_eq!(labels(true), [(1, "Record current value"), (2, "Exit")]);
    assert_eq!(menu_signal(1, true), Some(WindowSignal::Probe));
    assert_eq!(menu_signal(1, false), None);
    assert_eq!(menu_signal(2, false), Some(WindowSignal::Exit));
    for command in [0, -1, 3, i32::MIN] {
        assert_eq!(menu_signal(command, true), None);
    }
}

#[test]
fn icon_is_changed_or_else_added() {
    let loaded = ensure_tray_icon().next(true);
    assert_eq!(loaded, IconStep::Modify);
    assert_eq!(loaded.next(true), IconStep::Done(true));
    assert_eq!(loaded.next(false), IconStep::Add);
    assert_eq!(loaded.next(false).next(false), IconStep::Done(false));
    assert_eq!(loaded.next(false).next(true), IconStep::SetVersion);
    assert_eq!(
        loaded.next(false).next(true).next(false),
        IconStep::Done(true)
    );
    assert_eq!(ensure_tray_icon().next(false), IconStep::Done(false));
}

#[test]
fn registrations_are_withdrawn_in_reverse() {
    let order = [
        Registration::SuspendResume,
        Registration::DisplayPower,
        Registration::Session,
        Registration::DisplayDevice,
    ];
    let stages = [
        Stage::RegisterPowerNotifications,
        Stage::RegisterPowerNotifications,
        Stage::RegisterSessionNotifications,
        Stage::RegisterDisplayNotifications,
    ];
    let mut registrations = Registrations::create();
    for (registration, stage) in order.into_iter().zip(stages) {
        assert_eq!(registrations.step(), RegistrationStep::Make(registration));
        assert_eq!(registration.failure_stage(), stage);
        registrations.answer(Ok(()));
    }
    assert_eq!(registrations.step(), RegistrationStep::Done(Ok(())));
    for registration in order.into_iter().rev() {
        assert_eq!(registrations.withdraw(), Some(registration));
    }
    assert_eq!(registrations.withdraw(), None);
}

#[test]
fn failed_registration_withdraws_those_before_it() {
    let mut registrations = Registrations::create();
    registrations.answer(Ok(()));
    registrations.answer(Ok(()));
    registrations.answer(Err(FAILED));
    for registration in [Registration::DisplayPower, Registration::SuspendResume] {
        assert_eq!(
            registrations.step(),
            RegistrationStep::Withdraw(registration)
        );
        registrations.answer(Ok(()));
    }
    assert_eq!(registrations.step(), RegistrationStep::Done(Err(FAILED)));
    assert_eq!(registrations.withdraw(), None);

    let mut registrations = Registrations::create();
    registrations.answer(Err(FAILED));
    assert_eq!(registrations.step(), RegistrationStep::Done(Err(FAILED)));
}

#[test]
fn window_is_created_step_by_step() {
    let mut step = TrayStep::create();
    for expected in [
        TrayStep::RegisterClass,
        TrayStep::CreateWindow,
        TrayStep::Register,
        TrayStep::EnsureIcon,
    ] {
        step = step.next(TrayOutcome::Succeeded);
        assert_eq!(step, expected);
    }
    assert_eq!(step.next(TrayOutcome::Succeeded), TrayStep::Ready);
    assert_eq!(step.next(TrayOutcome::Failed(FAILED)), TrayStep::Ready);
    assert_eq!(
        TrayStep::FindModule.failure_stage(),
        Some(Stage::RegisterWindowClass)
    );
    assert_eq!(
        TrayStep::RegisterClass.failure_stage(),
        Some(Stage::RegisterWindowClass)
    );
    assert_eq!(
        TrayStep::CreateWindow.failure_stage(),
        Some(Stage::CreateMessageWindow)
    );
    assert_eq!(TrayStep::Ready.failure_stage(), None);
}

#[test]
fn failed_window_is_undone() {
    let failed = TrayOutcome::Failed(FAILED);
    assert_eq!(TrayStep::FindModule.next(failed), TrayStep::Failed(FAILED));
    assert_eq!(
        TrayStep::RegisterClass.next(failed),
        TrayStep::Failed(FAILED)
    );
    assert_eq!(
        TrayStep::CreateWindow.next(failed),
        TrayStep::UnregisterClass(FAILED)
    );
    let undo = TrayStep::Register.next(failed);
    assert_eq!(undo, TrayStep::DestroyWindow(FAILED));
    let undo = undo.next(TrayOutcome::Succeeded);
    assert_eq!(undo, TrayStep::UnregisterClass(FAILED));
    assert_eq!(
        undo.next(TrayOutcome::Succeeded),
        TrayStep::Failed(FAILED)
    );
}

#[test]
fn window_is_taken_down_after_its_registrations() {
    assert_eq!(
        teardown(true),
        [
            TeardownStep::WithdrawRegistrations,
            TeardownStep::DeleteIcon,
            TeardownStep::DestroyWindow,
            TeardownStep::UnregisterClass,
        ]
    );
    assert_eq!(
        teardown(false),
        [
            TeardownStep::WithdrawRegistrations,
            TeardownStep::DestroyWindow,
            TeardownStep::UnregisterClass,
        ]
    );
}
