//! The tray icon, its menu, and the window that receives the system's messages.

use vstd::prelude::*;

use crate::text::{decimal, push_decimal};
use crate::win32::{Error, Stage};

verus! {

pub const WM_CLOSE: u32 = 16;

pub const WM_CONTEXTMENU: u32 = 123;

pub const WM_DISPLAYCHANGE: u32 = 126;

pub const WM_NCCREATE: u32 = 129;

pub const WM_NCDESTROY: u32 = 130;

pub const WM_LBUTTONDBLCLK: u32 = 515;

pub const WM_POWERBROADCAST: u32 = 536;

pub const WM_DEVICECHANGE: u32 = 537;

pub const WM_WTSSESSION_CHANGE: u32 = 689;

pub const WM_APP: u32 = 0x8000;

pub const PBT_APMRESUMEAUTOMATIC: u32 = 18;

pub const PBT_POWERSETTINGCHANGE: u32 = 0x8013;

pub const WTS_SESSION_UNLOCK: u32 = 8;

pub const DBT_DEVNODES_CHANGED: u32 = 7;

pub const DBT_CONFIGCHANGED: u32 = 24;

pub const DBT_DEVICEARRIVAL: u32 = 0x8000;

pub const DBT_DEVICEREMOVECOMPLETE: u32 = 0x8004;

/// The message of the tray icon.
pub const TRAY_CALLBACK: u32 = WM_APP + 1;

/// The number of the tray icon.
pub const TRAY_ICON_ID: u32 = 1;

/// The tray icon was selected with the keyboard.
pub const NIN_KEYSELECT: u32 = 1025;

/// The power setting that tells whether the session's display is on.
pub const GUID_SESSION_DISPLAY_STATUS: u128 = 0x2b84c20e_ad23_4ddf_93db_05ffbd7efca5;

/// The value of that setting for a display that is on.
pub const POWER_MONITOR_ON: u32 = 1;

/// The menu command that records a sample.
pub const COMMAND_PROBE: usize = 1;

/// The menu command that ends the program.
pub const COMMAND_EXIT: usize = 2;

/// The number that stands for no position.
pub const PROBE_POS_NONE: u32 = 0xffff_ffff;

/// What the window can tell the daemon.
#[derive(Clone, Copy, Debug, PartialEq, Eq, Structural)]
pub enum WindowSignal {
    Reconcile,
    Probe,
    Exit,
}

/// What the window knows.
#[derive(Clone, Copy, Debug, PartialEq, Eq, Structural)]
pub struct WindowContext {
    pub probe_mode: bool,
    /// The message that the taskbar sends when it was created anew, or zero.
    pub taskbar_created_msg: u32,
}

/// What an event of the tray icon leads to.
#[derive(Clone, Copy, Debug, PartialEq, Eq, Structural)]
pub enum TrayAction {
    Signal(WindowSignal),
    /// Show the menu at a place on the screen.
    ShowMenu { x: i32, y: i32 },
}

/// What a window message leads to, and what the window procedure returns for it.
#[derive(Clone, Copy, Debug, PartialEq, Eq, Structural)]
pub enum WindowAction {
    /// An event of the tray icon; returns zero.
    Tray(TrayAction),
    /// Put the tray icon up again; returns zero.
    RestoreIcon,
    /// Signal the daemon to set the white level, and return the number.
    Reconcile(i32),
    /// Look at the power setting that the message points to; returns one.
    InspectPowerSetting,
    /// Return the number.
    Reply(i32),
    /// Forget the context, and let the system handle the message.
    Forget,
    /// Let the system handle the message.
    Default,
}

/// The low 32 bits of a signed message parameter.
pub open spec fn low_word(parameter: i64) -> int {
    parameter as int % 0x1_0000_0000
}

/// A message parameter as a 32-bit number; zero if it is larger.
pub open spec fn narrow(parameter: u64) -> u32 {
    if parameter <= u32::MAX {
        parameter as u32
    } else {
        0
    }
}

/// The number with the same 16 bits, read as signed.
pub open spec fn signed_half(half: int) -> int {
    if half < 0x8000 {
        half
    } else {
        half - 0x1_0000
    }
}

/// What an event of the tray icon leads to. The low half of the second parameter is the event, the
/// high half the icon. The first parameter holds the place on the screen, as two signed numbers of
/// 16 bits.
pub open spec fn tray_action(w_param: u64, l_param: i64, probe_mode: bool) -> Option<TrayAction> {
    let event = low_word(l_param) % 0x1_0000;
    let icon = low_word(l_param) / 0x1_0000;
    if icon != TRAY_ICON_ID {
        None
    } else if event == WM_LBUTTONDBLCLK {
        Some(TrayAction::Signal(WindowSignal::Exit))
    } else if event == NIN_KEYSELECT {
        Some(
            TrayAction::Signal(
                if probe_mode {
                    WindowSignal::Probe
                } else {
                    WindowSignal::Exit
                },
            ),
        )
    } else if event == WM_CONTEXTMENU {
        let place = w_param as int % 0x1_0000_0000;
        Some(
            TrayAction::ShowMenu {
                x: signed_half(place % 0x1_0000) as i32,
                y: signed_half(place / 0x1_0000) as i32,
            },
        )
    } else {
        None
    }
}

/// The number with the same 16 bits, read as signed.
fn to_signed_half(half: u32) -> (value: i32)
    requires
        half < 0x1_0000,
    ensures
        value as int == signed_half(half as int),
{
    if half < 0x8000 {
        half as i32
    } else {
        half as i32 - 0x1_0000
    }
}

/// The low 32 bits of a signed message parameter.
fn to_low_word(parameter: i64) -> (word: u32)
    ensures
        word as int == low_word(parameter),
{
    let bits: u64 = parameter as u64;
    assert(parameter >= 0 ==> bits == parameter) by (bit_vector)
        requires
            bits == parameter as u64,
    ;
    assert(parameter < 0 ==> bits == parameter + 0x1_0000_0000_0000_0000) by (bit_vector)
        requires
            bits == parameter as u64,
    ;
    assert(bits as int % 0x1_0000_0000 == parameter as int % 0x1_0000_0000) by {
        if parameter < 0 {
            assert((parameter + 0x1_0000_0000 * 0x1_0000_0000) % 0x1_0000_0000 == parameter as int
                % 0x1_0000_0000) by (nonlinear_arith);
        }
    }
    (bits % 0x1_0000_0000) as u32
}

/// What an event of the tray icon leads to.
pub fn handle_tray_callback(w_param: u64, l_param: i64, probe_mode: bool) -> (action: Option<
    TrayAction,
>)
    ensures
        action == tray_action(w_param, l_param, probe_mode),
{
    let packed: u32 = to_low_word(l_param);
    let event: u32 = packed % 0x1_0000;
    let icon_id: u32 = packed / 0x1_0000;
    if icon_id != TRAY_ICON_ID {
        return None;
    }
    if event == WM_LBUTTONDBLCLK {
        return Some(TrayAction::Signal(WindowSignal::Exit));
    }
    if event == NIN_KEYSELECT {
        let signal: WindowSignal = if probe_mode {
            WindowSignal::Probe
        } else {
            WindowSignal::Exit
        };
        return Some(TrayAction::Signal(signal));
    }
    if event == WM_CONTEXTMENU {
        let place: u32 = (w_param % 0x1_0000_0000) as u32;
        let x: i32 = to_signed_half(place % 0x1_0000);
        let y: i32 = to_signed_half(place / 0x1_0000);
        return Some(TrayAction::ShowMenu { x, y });
    }
    None
}

/// Whether a device message is about displays that may have come or gone.
pub open spec fn device_event_matters(event: u32) -> bool {
    ||| event == DBT_DEVICEARRIVAL
    ||| event == DBT_DEVICEREMOVECOMPLETE
    ||| event == DBT_DEVNODES_CHANGED
    ||| event == DBT_CONFIGCHANGED
}

/// What a message leads to that neither the tray icon nor the taskbar sent.
pub open spec fn system_action(
    message: u32,
    w_param: u64,
    l_param: i64,
    has_context: bool,
) -> WindowAction {
    let event = narrow(w_param);
    if message == WM_POWERBROADCAST && has_context {
        // One automatic notification comes with every resume. The one for a resume with the user
        // present is ignored, so as not to do everything twice.
        if event == PBT_APMRESUMEAUTOMATIC {
            WindowAction::Reconcile(1)
        } else if event == PBT_POWERSETTINGCHANGE && l_param != 0 {
            WindowAction::InspectPowerSetting
        } else {
            WindowAction::Reply(1)
        }
    } else if message == WM_WTSSESSION_CHANGE && has_context && event == WTS_SESSION_UNLOCK {
        WindowAction::Reconcile(0)
    } else if message == WM_DEVICECHANGE && has_context && device_event_matters(event) {
        WindowAction::Reconcile(0)
    } else if message == WM_DISPLAYCHANGE && has_context {
        WindowAction::Reconcile(0)
    } else if message == WM_CLOSE {
        WindowAction::Reply(0)
    } else if message == WM_NCDESTROY {
        WindowAction::Forget
    } else {
        WindowAction::Default
    }
}

/// What a window message leads to. Before the window has its context, and after it has lost it,
/// only closing and destruction are special.
pub open spec fn message_action(
    message: u32,
    w_param: u64,
    l_param: i64,
    context: Option<WindowContext>,
) -> WindowAction {
    match context {
        None => system_action(message, w_param, l_param, false),
        Some(context) => {
            let tray = tray_action(w_param, l_param, context.probe_mode);
            if message == TRAY_CALLBACK && tray is Some {
                WindowAction::Tray(tray->0)
            } else if context.taskbar_created_msg != 0 && message == context.taskbar_created_msg {
                WindowAction::RestoreIcon
            } else {
                system_action(message, w_param, l_param, true)
            }
        },
    }
}

/// Whether a message brings the window its context.
pub fn brings_context(message: u32) -> (result: bool)
    ensures
        result == (message == WM_NCCREATE),
        result <==> message == 129,
{
    message == WM_NCCREATE
}

/// What a window message leads to.
pub fn window_proc(
    message: u32,
    w_param: u64,
    l_param: i64,
    context: Option<WindowContext>,
) -> (action: WindowAction)
    ensures
        action == message_action(message, w_param, l_param, context),
{
    if let Some(context) = context {
        if message == TRAY_CALLBACK {
            if let Some(action) = handle_tray_callback(w_param, l_param, context.probe_mode) {
                return WindowAction::Tray(action);
            }
        }
        if context.taskbar_created_msg != 0 && message == context.taskbar_created_msg {
            return WindowAction::RestoreIcon;
        }
    }
    let has_context: bool = context.is_some();
    let event: u32 = if w_param <= u32::MAX as u64 {
        w_param as u32
    } else {
        0
    };
    if message == WM_POWERBROADCAST && has_context {
        if event == PBT_APMRESUMEAUTOMATIC {
            WindowAction::Reconcile(1)
        } else if event == PBT_POWERSETTINGCHANGE && l_param != 0 {
            WindowAction::InspectPowerSetting
        } else {
            WindowAction::Reply(1)
        }
    } else if message == WM_WTSSESSION_CHANGE && has_context && event == WTS_SESSION_UNLOCK {
        WindowAction::Reconcile(0)
    } else if message == WM_DEVICECHANGE && has_context && (event == DBT_DEVICEARRIVAL || event
        == DBT_DEVICEREMOVECOMPLETE || event == DBT_DEVNODES_CHANGED || event
        == DBT_CONFIGCHANGED) {
        WindowAction::Reconcile(0)
    } else if message == WM_DISPLAYCHANGE && has_context {
        WindowAction::Reconcile(0)
    } else if message == WM_CLOSE {
        WindowAction::Reply(0)
    } else if message == WM_NCDESTROY {
        WindowAction::Forget
    } else {
        WindowAction::Default
    }
}

/// Whether a power setting holds the state of the session's display: it is that setting, and there
/// are four bytes at least.
pub fn holds_display_state(setting: u128, data_length: u32) -> (result: bool)
    ensures
        result == (setting == GUID_SESSION_DISPLAY_STATUS && data_length >= 4),
        result <==> setting == 0x2b84c20e_ad23_4ddf_93db_05ffbd7efca5 && data_length >= 4,
{
    setting == GUID_SESSION_DISPLAY_STATUS && data_length >= 4
}

/// Whether the state of the session's display is that it is on.
pub fn display_is_on(state: u32) -> (result: bool)
    ensures
        result == (state == POWER_MONITOR_ON),
        result <==> state == 1,
{
    state == POWER_MONITOR_ON
}

/// What a power setting that the window was told of leads to. `state` is the number that its data
/// begin with, where that was read.
pub open spec fn setting_action(
    setting: u128,
    data_length: u32,
    state: Option<u32>,
) -> WindowAction {
    if setting == GUID_SESSION_DISPLAY_STATUS && data_length >= 4 && state == Some(
        POWER_MONITOR_ON,
    ) {
        WindowAction::Reconcile(1)
    } else {
        WindowAction::Reply(1)
    }
}

/// What a power setting leads to: the white level is set again when the session's display was
/// turned on.
pub fn power_setting_action(setting: u128, data_length: u32, state: Option<u32>) -> (action:
    WindowAction)
    ensures
        action == setting_action(setting, data_length, state),
        action == WindowAction::Reconcile(1) <==> setting
            == 0x2b84c20e_ad23_4ddf_93db_05ffbd7efca5 && data_length >= 4 && state == Some(1u32),
        action == WindowAction::Reconcile(1) || action == WindowAction::Reply(1),
{
    if holds_display_state(setting, data_length) {
        if let Some(state) = state {
            if display_is_on(state) {
                return WindowAction::Reconcile(1);
            }
        }
    }
    WindowAction::Reply(1)
}

/// A position as a number.
pub open spec fn position_number(position: Option<u8>) -> u32 {
    match position {
        Some(position) => position as u32,
        None => PROBE_POS_NONE,
    }
}

/// The position that a number stands for.
pub open spec fn numbered_position(number: u32) -> Option<u8> {
    if number <= 255 {
        Some(number as u8)
    } else {
        None
    }
}

/// A position as a number, to be kept where only numbers can be.
pub fn encode_probe_position(position: Option<u8>) -> (number: u32)
    ensures
        number == position_number(position),
        position matches Some(position) ==> number == position,
        position is None ==> number == 0xffff_ffff,
{
    match position {
        Some(position) => position as u32,
        None => PROBE_POS_NONE,
    }
}

/// The position that a number stands for.
pub fn decode_probe_position(number: u32) -> (position: Option<u8>)
    ensures
        position == numbered_position(number),
        position is Some <==> number <= 255,
        position matches Some(position) ==> position == number,
{
    if number <= 255 {
        Some(number as u8)
    } else {
        None
    }
}

/// The text of the tray icon.
pub open spec fn tooltip_text(probe_mode: bool, position: Option<u8>) -> Seq<char> {
    if !probe_mode {
        "HDR calibrator — double-click to exit"@
    } else {
        match position {
            Some(position) => "HDR probe — set slider to "@ + decimal(position as nat)
                + ", then use tray menu"@,
            None => "HDR probe — use tray menu to record or exit"@,
        }
    }
}

/// The text of the tray icon.
pub fn tooltip(probe_mode: bool, position: Option<u8>) -> (text: String)
    ensures
        text@ == tooltip_text(probe_mode, position),
        !probe_mode ==> text@ == "HDR calibrator — double-click to exit"@,
        probe_mode && position is Some ==> text@ == "HDR probe — set slider to "@ + decimal(
            position->0 as nat,
        ) + ", then use tray menu"@,
        probe_mode && position is None ==> text@ == "HDR probe — use tray menu to record or exit"@,
{
    if !probe_mode {
        return "HDR calibrator — double-click to exit".to_owned();
    }
    match position {
        Some(position) => {
            let mut text: String = "HDR probe — set slider to ".to_owned();
            push_decimal(&mut text, position as u128);
            text.append(", then use tray menu");
            text
        },
        None => "HDR probe — use tray menu to record or exit".to_owned(),
    }
}

/// An entry of the menu.
#[derive(Clone, Copy, Debug, PartialEq, Eq)]
pub struct MenuItem {
    pub command: usize,
    pub label: &'static str,
}

/// The entries of the menu. Samples can be recorded in probe mode only.
pub fn menu_items(probe_mode: bool) -> (items: Vec<MenuItem>)
    ensures
        items@.len() == if probe_mode {
            2int
        } else {
            1int
        },
        probe_mode ==> items@[0].command == COMMAND_PROBE && items@[0].label@
            == "Record current value"@,
        items@.last().command == COMMAND_EXIT,
        items@.last().label@ == "Exit"@,
        probe_mode ==> items@[0].command == 1,
        items@.last().command == 2,
{
    let mut items: Vec<MenuItem> = Vec::new();
    if probe_mode {
        items.push(MenuItem { command: COMMAND_PROBE, label: "Record current value" });
    }
    items.push(MenuItem { command: COMMAND_EXIT, label: "Exit" });
    items
}

/// What the choice of an entry tells the daemon. No choice is zero or less.
pub open spec fn chosen_signal(command: i32, probe_mode: bool) -> Option<WindowSignal> {
    if command == COMMAND_PROBE && probe_mode {
        Some(WindowSignal::Probe)
    } else if command == COMMAND_EXIT {
        Some(WindowSignal::Exit)
    } else {
        None
    }
}

/// What the choice of an entry tells the daemon.
pub fn menu_signal(command: i32, probe_mode: bool) -> (signal: Option<WindowSignal>)
    ensures
        signal == chosen_signal(command, probe_mode),
        signal == Some(WindowSignal::Probe) <==> command == 1 && probe_mode,
        signal == Some(WindowSignal::Exit) <==> command == 2,
        signal is Some ==> command == 1 || command == 2,
{
    let command: usize = if command >= 0 {
        command as usize
    } else {
        0
    };
    if command == COMMAND_PROBE && probe_mode {
        Some(WindowSignal::Probe)
    } else if command == COMMAND_EXIT {
        Some(WindowSignal::Exit)
    } else {
        None
    }
}

/// How the tray icon is put up or brought up to date.
#[derive(Clone, Copy, Debug, PartialEq, Eq, Structural)]
pub enum IconStep {
    /// Load the picture.
    LoadIcon,
    /// Change the icon that is there.
    Modify,
    /// Add the icon, because there is none to change.
    Add,
    /// Ask for events of the newer kind.
    SetVersion,
    /// The icon is there, or not.
    Done(bool),
}

impl IconStep {
    /// What follows a step that succeeded or failed.
    pub open spec fn spec_next(self, succeeded: bool) -> IconStep {
        match self {
            IconStep::LoadIcon => if succeeded {
                IconStep::Modify
            } else {
                IconStep::Done(false)
            },
            IconStep::Modify => if succeeded {
                IconStep::Done(true)
            } else {
                IconStep::Add
            },
            IconStep::Add => if succeeded {
                IconStep::SetVersion
            } else {
                IconStep::Done(false)
            },
            IconStep::SetVersion => IconStep::Done(true),
            IconStep::Done(_) => self,
        }
    }

    /// What follows a step that succeeded or failed.
    pub fn next(self, succeeded: bool) -> (next: IconStep)
        ensures
            next == self.spec_next(succeeded),
    {
        match self {
            IconStep::LoadIcon => {
                if succeeded {
                    IconStep::Modify
                } else {
                    IconStep::Done(false)
                }
            },
            IconStep::Modify => {
                if succeeded {
                    IconStep::Done(true)
                } else {
                    IconStep::Add
                }
            },
            IconStep::Add => {
                if succeeded {
                    IconStep::SetVersion
                } else {
                    IconStep::Done(false)
                }
            },
            IconStep::SetVersion => IconStep::Done(true),
            IconStep::Done(_) => self,
        }
    }
}

/// Begins to put the tray icon up or to bring it up to date.
pub fn ensure_tray_icon() -> (step: IconStep)
    ensures
        step == IconStep::LoadIcon,
{
    IconStep::LoadIcon
}

/// What the window registers for.
#[derive(Clone, Copy, Debug, PartialEq, Eq, Structural)]
pub enum Registration {
    SuspendResume,
    DisplayPower,
    Session,
    DisplayDevice,
}

/// The registrations, in the order in which they are made.
pub open spec fn registration_order() -> Seq<Registration> {
    seq![
        Registration::SuspendResume,
        Registration::DisplayPower,
        Registration::Session,
        Registration::DisplayDevice,
    ]
}

impl Registration {
    /// The stage that a failure of the registration is reported as.
    pub fn failure_stage(self) -> (stage: Stage)
        ensures
            stage == match self {
                Registration::SuspendResume
                | Registration::DisplayPower => Stage::RegisterPowerNotifications,
                Registration::Session => Stage::RegisterSessionNotifications,
                Registration::DisplayDevice => Stage::RegisterDisplayNotifications,
            },
    {
        match self {
            Registration::SuspendResume
            | Registration::DisplayPower => Stage::RegisterPowerNotifications,
            Registration::Session => Stage::RegisterSessionNotifications,
            Registration::DisplayDevice => Stage::RegisterDisplayNotifications,
        }
    }
}

/// What to do next about the registrations.
#[derive(Clone, Copy, Debug, PartialEq, Eq)]
pub enum RegistrationStep {
    Make(Registration),
    /// Withdraw one that was made, because a later one failed.
    Withdraw(Registration),
    Done(Result<(), Error>),
}

/// The registrations that are in force: the first `made` of their order. And the failure of the next
/// one, if it failed.
#[derive(Clone, Copy, Debug, PartialEq, Eq, Structural)]
pub struct Registrations {
    pub made: u8,
    pub failure: Option<Error>,
}

impl Registrations {
    /// There are four at most.
    pub open spec fn wf(self) -> bool {
        self.made <= 4
    }

    /// The registrations that are in force.
    pub open spec fn in_force(self) -> Seq<Registration> {
        registration_order().take(self.made as int)
    }

    /// None is made, and none has failed.
    pub open spec fn none() -> Registrations {
        Registrations { made: 0, failure: None }
    }

    /// What to do next: make the registrations in their order, or, once one has failed, withdraw
    /// those that were made, in reverse.
    pub open spec fn spec_step(self) -> RegistrationStep {
        match self.failure {
            None => if self.made < 4 {
                RegistrationStep::Make(registration_order()[self.made as int])
            } else {
                RegistrationStep::Done(Ok(()))
            },
            Some(error) => if self.made > 0 {
                RegistrationStep::Withdraw(registration_order()[self.made - 1])
            } else {
                RegistrationStep::Done(Err(error))
            },
        }
    }

    /// The registrations after a step. A withdrawal counts as done however it went.
    pub open spec fn next(self, outcome: Result<(), Error>) -> Registrations {
        match self.spec_step() {
            RegistrationStep::Make(_) => match outcome {
                Ok(_) => Registrations { made: (self.made + 1) as u8, ..self },
                Err(error) => Registrations { failure: Some(error), ..self },
            },
            RegistrationStep::Withdraw(_) => Registrations { made: (self.made - 1) as u8, ..self },
            RegistrationStep::Done(_) => self,
        }
    }

    /// The registrations after a number of steps.
    pub open spec fn after(self, outcomes: Seq<Result<(), Error>>) -> Registrations
        decreases outcomes.len(),
    {
        if outcomes.len() == 0 {
            self
        } else {
            self.after(outcomes.drop_last()).next(outcomes.last())
        }
    }

    /// None is made yet.
    pub fn create() -> (registrations: Self)
        ensures
            registrations == Registrations::none(),
            registrations.wf(),
            registrations.in_force() == Seq::<Registration>::empty(),
    {
        let registrations = Registrations { made: 0, failure: None };
        assert(registrations.in_force() =~= Seq::<Registration>::empty());
        registrations
    }

    /// The registration at a place in their order.
    fn at(place: u8) -> (registration: Registration)
        requires
            place < 4,
        ensures
            registration == registration_order()[place as int],
    {
        match place {
            0 => Registration::SuspendResume,
            1 => Registration::DisplayPower,
            2 => Registration::Session,
            _ => Registration::DisplayDevice,
        }
    }

    /// What to do next.
    pub fn step(&self) -> (step: RegistrationStep)
        requires
            self.wf(),
        ensures
            step == self.spec_step(),
    {
        match self.failure {
            None => {
                if self.made < 4 {
                    RegistrationStep::Make(Registrations::at(self.made))
                } else {
                    RegistrationStep::Done(Ok(()))
                }
            },
            Some(error) => {
                if self.made > 0 {
                    RegistrationStep::Withdraw(Registrations::at(self.made - 1))
                } else {
                    RegistrationStep::Done(Err(error))
                }
            },
        }
    }

    /// Takes what came of the step.
    pub fn answer(&mut self, outcome: Result<(), Error>)
        requires
            old(self).wf(),
        ensures
            *final(self) == old(self).next(outcome),
            final(self).wf(),
    {
        match self.step() {
            RegistrationStep::Make(_) => match outcome {
                Ok(()) => {
                    self.made = self.made + 1;
                },
                Err(error) => {
                    self.failure = Some(error);
                },
            },
            RegistrationStep::Withdraw(_) => {
                self.made = self.made - 1;
            },
            RegistrationStep::Done(_) => {},
        }
    }

    /// Takes the registration that was made last, to be withdrawn.
    pub fn withdraw(&mut self) -> (registration: Option<Registration>)
        requires
            old(self).wf(),
        ensures
            final(self).wf(),
            final(self).failure == old(self).failure,
            match registration {
                Some(registration) => old(self).in_force() == final(self).in_force().push(
                    registration,
                ),
                None => old(self).in_force().len() == 0 && *final(self) == *old(self),
            },
            registration is Some <==> old(self).in_force().len() > 0,
    {
        if self.made == 0 {
            return None;
        }
        self.made = self.made - 1;
        assert(old(self).in_force() =~= self.in_force().push(
            registration_order()[self.made as int],
        ));
        Some(Registrations::at(self.made))
    }
}

/// The registrations that are in force after a number of steps, by what the steps did: one that was
/// made is in force until it is withdrawn.
pub open spec fn registered(outcomes: Seq<Result<(), Error>>) -> Seq<Registration>
    decreases outcomes.len(),
{
    if outcomes.len() == 0 {
        seq![]
    } else {
        let before = registered(outcomes.drop_last());
        match Registrations::none().after(outcomes.drop_last()).spec_step() {
            RegistrationStep::Make(registration) => if outcomes.last() is Ok {
                before.push(registration)
            } else {
                before
            },
            RegistrationStep::Withdraw(registration) => before.filter(
                |other: Registration| other != registration,
            ),
            RegistrationStep::Done(_) => before,
        }
    }
}

/// How the window comes to be.
#[derive(Clone, Copy, Debug, PartialEq, Eq, Structural)]
pub enum TrayStep {
    /// Find the program's module.
    FindModule,
    RegisterClass,
    CreateWindow,
    /// Make all registrations. Those made before one fails are withdrawn again.
    Register,
    /// Put the icon up. Whether that works does not matter: the taskbar may not be there yet.
    EnsureIcon,
    /// Undo what was done before a failure.
    DestroyWindow(Error),
    UnregisterClass(Error),
    Ready,
    Failed(Error),
}

/// What came of a step.
#[derive(Clone, Copy, Debug, PartialEq, Eq, Structural)]
pub enum TrayOutcome {
    Succeeded,
    Failed(Error),
}

impl TrayStep {
    /// What follows a step.
    pub open spec fn spec_next(self, outcome: TrayOutcome) -> TrayStep {
        match self {
            TrayStep::FindModule => match outcome {
                TrayOutcome::Succeeded => TrayStep::RegisterClass,
                TrayOutcome::Failed(error) => TrayStep::Failed(error),
            },
            TrayStep::RegisterClass => match outcome {
                TrayOutcome::Succeeded => TrayStep::CreateWindow,
                TrayOutcome::Failed(error) => TrayStep::Failed(error),
            },
            TrayStep::CreateWindow => match outcome {
                TrayOutcome::Succeeded => TrayStep::Register,
                TrayOutcome::Failed(error) => TrayStep::UnregisterClass(error),
            },
            TrayStep::Register => match outcome {
                TrayOutcome::Succeeded => TrayStep::EnsureIcon,
                TrayOutcome::Failed(error) => TrayStep::DestroyWindow(error),
            },
            TrayStep::EnsureIcon => TrayStep::Ready,
            TrayStep::DestroyWindow(error) => TrayStep::UnregisterClass(error),
            TrayStep::UnregisterClass(error) => TrayStep::Failed(error),
            TrayStep::Ready | TrayStep::Failed(_) => self,
        }
    }

    /// What follows a step.
    pub fn next(self, outcome: TrayOutcome) -> (next: TrayStep)
        ensures
            next == self.spec_next(outcome),
    {
        match self {
            TrayStep::FindModule => match outcome {
                TrayOutcome::Succeeded => TrayStep::RegisterClass,
                TrayOutcome::Failed(error) => TrayStep::Failed(error),
            },
            TrayStep::RegisterClass => match outcome {
                TrayOutcome::Succeeded => TrayStep::CreateWindow,
                TrayOutcome::Failed(error) => TrayStep::Failed(error),
            },
            TrayStep::CreateWindow => match outcome {
                TrayOutcome::Succeeded => TrayStep::Register,
                TrayOutcome::Failed(error) => TrayStep::UnregisterClass(error),
            },
            TrayStep::Register => match outcome {
                TrayOutcome::Succeeded => TrayStep::EnsureIcon,
                TrayOutcome::Failed(error) => TrayStep::DestroyWindow(error),
            },
            TrayStep::EnsureIcon => TrayStep::Ready,
            TrayStep::DestroyWindow(error) => TrayStep::UnregisterClass(error),
            TrayStep::UnregisterClass(error) => TrayStep::Failed(error),
            TrayStep::Ready | TrayStep::Failed(_) => self,
        }
    }

    /// What follows a number of steps.
    pub open spec fn after(self, outcomes: Seq<TrayOutcome>) -> TrayStep
        decreases outcomes.len(),
    {
        if outcomes.len() == 0 {
            self
        } else {
            self.after(outcomes.drop_last()).spec_next(outcomes.last())
        }
    }

    /// Whether the window class is registered after a number of steps.
    pub open spec fn holds_class(self, outcomes: Seq<TrayOutcome>) -> bool
        decreases outcomes.len(),
    {
        if outcomes.len() == 0 {
            false
        } else {
            match self.after(outcomes.drop_last()) {
                TrayStep::RegisterClass => outcomes.last() is Succeeded,
                TrayStep::UnregisterClass(_) => false,
                _ => self.holds_class(outcomes.drop_last()),
            }
        }
    }

    /// Whether the window exists after a number of steps.
    pub open spec fn holds_window(self, outcomes: Seq<TrayOutcome>) -> bool
        decreases outcomes.len(),
    {
        if outcomes.len() == 0 {
            false
        } else {
            match self.after(outcomes.drop_last()) {
                TrayStep::CreateWindow => outcomes.last() is Succeeded,
                TrayStep::DestroyWindow(_) => false,
                _ => self.holds_window(outcomes.drop_last()),
            }
        }
    }

    /// The stage that a failure of the step is reported as. Registrations have their own stages,
    /// and no other step fails.
    pub fn failure_stage(self) -> (stage: Option<Stage>)
        ensures
            stage == match self {
                TrayStep::FindModule | TrayStep::RegisterClass => Some(Stage::RegisterWindowClass),
                TrayStep::CreateWindow => Some(Stage::CreateMessageWindow),
                _ => None,
            },
    {
        match self {
            TrayStep::FindModule | TrayStep::RegisterClass => Some(Stage::RegisterWindowClass),
            TrayStep::CreateWindow => Some(Stage::CreateMessageWindow),
            _ => None,
        }
    }

    /// Begins to create the window.
    pub fn create() -> (step: TrayStep)
        ensures
            step == TrayStep::FindModule,
    {
        TrayStep::FindModule
    }
}

/// How the window goes.
#[derive(Clone, Copy, Debug, PartialEq, Eq, Structural)]
pub enum TeardownStep {
    WithdrawRegistrations,
    DeleteIcon,
    DestroyWindow,
    UnregisterClass,
}

/// What is to be done to take the window down. Registrations go while there still is a window to
/// notify.
pub fn teardown(icon_added: bool) -> (steps: Vec<TeardownStep>)
    ensures
        steps@ == seq![TeardownStep::WithdrawRegistrations] + (if icon_added {
            seq![TeardownStep::DeleteIcon]
        } else {
            seq![]
        }) + seq![TeardownStep::DestroyWindow, TeardownStep::UnregisterClass],
{
    let mut steps: Vec<TeardownStep> = Vec::new();
    steps.push(TeardownStep::WithdrawRegistrations);
    if icon_added {
        steps.push(TeardownStep::DeleteIcon);
    }
    steps.push(TeardownStep::DestroyWindow);
    steps.push(TeardownStep::UnregisterClass);
    assert(steps@ =~= seq![TeardownStep::WithdrawRegistrations] + (if icon_added {
        seq![TeardownStep::DeleteIcon]
    } else {
        seq![]
    }) + seq![TeardownStep::DestroyWindow, TeardownStep::UnregisterClass]);
    steps
}

/// A position that is kept as a number is the same position when it is read.
pub proof fn position_survives_encoding(position: Option<u8>)
    ensures
        numbered_position(position_number(position)) == position,
{
}

/// Nothing that happens to the tray icon records a sample unless the program is in probe mode.
pub proof fn samples_are_recorded_in_probe_mode_only(w_param: u64, l_param: i64, command: i32)
    ensures
        tray_action(w_param, l_param, false) != Some(TrayAction::Signal(WindowSignal::Probe)),
        chosen_signal(command, false) != Some(WindowSignal::Probe),
{
}

/// What a window message leads to in the end, where a power setting that it points to was looked at
/// and is `setting`, with so many bytes of data that begin with `state`.
pub open spec fn settled_action(
    message: u32,
    w_param: u64,
    l_param: i64,
    context: Option<WindowContext>,
    setting: u128,
    data_length: u32,
    state: Option<u32>,
) -> WindowAction {
    match message_action(message, w_param, l_param, context) {
        WindowAction::InspectPowerSetting => setting_action(setting, data_length, state),
        action => action,
    }
}

/// The daemon is told to set the white level again after a resume, when the session's display is
/// turned on, when the session is unlocked, when displays come or go, and when the display mode
/// changes.
pub proof fn lifecycle_messages_reconcile(
    message: u32,
    w_param: u64,
    l_param: i64,
    context: WindowContext,
    setting: u128,
    data_length: u32,
    state: Option<u32>,
)
    requires
        message != TRAY_CALLBACK,
        message != context.taskbar_created_msg,
        ({
            ||| message == WM_POWERBROADCAST && w_param == PBT_APMRESUMEAUTOMATIC
            ||| message == WM_POWERBROADCAST && w_param == PBT_POWERSETTINGCHANGE && l_param != 0
                && setting == GUID_SESSION_DISPLAY_STATUS && data_length >= 4 && state == Some(
                POWER_MONITOR_ON,
            )
            ||| message == WM_WTSSESSION_CHANGE && w_param == WTS_SESSION_UNLOCK
            ||| message == WM_DEVICECHANGE && w_param <= u32::MAX && device_event_matters(
                w_param as u32,
            )
            ||| message == WM_DISPLAYCHANGE
        }),
    ensures
        settled_action(
            message,
            w_param,
            l_param,
            Some(context),
            setting,
            data_length,
            state,
        ) is Reconcile,
{
}

/// No other message has the white level set again.
pub proof fn only_lifecycle_messages_reconcile(
    message: u32,
    w_param: u64,
    l_param: i64,
    context: Option<WindowContext>,
    setting: u128,
    data_length: u32,
    state: Option<u32>,
)
    requires
        settled_action(
            message,
            w_param,
            l_param,
            context,
            setting,
            data_length,
            state,
        ) is Reconcile,
    ensures
        context is Some,
        ({
            ||| message == WM_POWERBROADCAST && w_param == PBT_APMRESUMEAUTOMATIC
            ||| message == WM_POWERBROADCAST && w_param == PBT_POWERSETTINGCHANGE && l_param != 0
                && setting == GUID_SESSION_DISPLAY_STATUS && data_length >= 4 && state == Some(
                POWER_MONITOR_ON,
            )
            ||| message == WM_WTSSESSION_CHANGE && w_param == WTS_SESSION_UNLOCK
            ||| message == WM_DEVICECHANGE && w_param <= u32::MAX && device_event_matters(
                w_param as u32,
            )
            ||| message == WM_DISPLAYCHANGE
        }),
{
}

/// A window without its context never signals anything.
pub proof fn window_without_context_is_silent(message: u32, w_param: u64, l_param: i64)
    ensures
        ({
            let action = message_action(message, w_param, l_param, None);
            action is Reply || action is Forget || action is Default
        }),
{
}

/// The tray icon is there in the end exactly if its picture could be loaded and it could be changed
/// or added.
pub proof fn icon_is_changed_or_added(loaded: bool, modified: bool, added: bool, version: bool)
    ensures
        ({
            let end = IconStep::LoadIcon.spec_next(loaded).spec_next(modified).spec_next(
                added,
            ).spec_next(version);
            end == IconStep::Done(loaded && (modified || added))
        }),
{
}

/// What is in force is what the steps did.
proof fn registrations_are_tracked(outcomes: Seq<Result<(), Error>>)
    ensures
        Registrations::none().after(outcomes).wf(),
        registered(outcomes) == Registrations::none().after(outcomes).in_force(),
    decreases outcomes.len(),
{
    if outcomes.len() == 0 {
        assert(registered(outcomes) =~= Registrations::none().in_force());
    } else {
        registrations_are_tracked(outcomes.drop_last());
        let before = Registrations::none().after(outcomes.drop_last());
        let after = Registrations::none().after(outcomes);
        match before.spec_step() {
            RegistrationStep::Make(registration) => {
                if outcomes.last() is Ok {
                    assert(after.in_force() =~= before.in_force().push(registration));
                }
            },
            RegistrationStep::Withdraw(registration) => {
                let test = |other: Registration| other != registration;
                let shorter = after.in_force();
                assert(before.in_force() =~= shorter.push(registration));
                assert(shorter.push(registration).drop_last() =~= shorter);
                others_are_kept(shorter, registration);
                reveal(Seq::filter);
                assert(shorter.push(registration).filter(test) == shorter.filter(test));
            },
            RegistrationStep::Done(_) => {},
        }
    }
}

/// Taking something out that is not there changes nothing.
proof fn others_are_kept(registrations: Seq<Registration>, registration: Registration)
    requires
        forall|i: int| 0 <= i < registrations.len() ==> registrations[i] != registration,
    ensures
        registrations.filter(|other: Registration| other != registration) == registrations,
    decreases registrations.len(),
{
    reveal(Seq::filter);
    if registrations.len() > 0 {
        let shorter = registrations.drop_last();
        assert forall|i: int| 0 <= i < shorter.len() implies shorter[i] != registration by {
            assert(shorter[i] == registrations[i]);
        }
        others_are_kept(shorter, registration);
        assert(shorter.push(registrations.last()) =~= registrations);
    }
}

/// In the end all four registrations are in force, or none: all if each could be made, and none if
/// one failed, however many were made before it.
pub proof fn registrations_are_all_or_none(outcomes: Seq<Result<(), Error>>)
    ensures
        match Registrations::none().after(outcomes).spec_step() {
            RegistrationStep::Done(Ok(_)) => registered(outcomes) == registration_order(),
            RegistrationStep::Done(Err(_)) => registered(outcomes) == Seq::<Registration>::empty(),
            RegistrationStep::Make(_) => true,
            // The one to be withdrawn is the last that was made and not withdrawn yet.
            RegistrationStep::Withdraw(registration) => registered(outcomes).len() > 0
                && registered(outcomes).last() == registration,
        },
{
    registrations_are_tracked(outcomes);
    assert(registration_order().take(4) =~= registration_order());
}

/// A registration that fails is reported as what it was, once those before it are withdrawn.
pub proof fn failed_registration_is_reported(
    registrations: Registrations,
    error: Error,
    undo: Seq<Result<(), Error>>,
)
    requires
        registrations.wf(),
        registrations.spec_step() is Make,
        undo.len() >= registrations.made,
    ensures
        registrations.next(Err(error)).after(undo).spec_step() == RegistrationStep::Done(
            Err(error),
        ),
{
    failed_registration_unwinds(registrations, error, undo);
}

proof fn failed_registration_unwinds(
    registrations: Registrations,
    error: Error,
    undo: Seq<Result<(), Error>>,
)
    requires
        registrations.wf(),
        registrations.spec_step() is Make,
    ensures
        registrations.next(Err(error)).after(undo) == (Registrations {
            made: if undo.len() <= registrations.made {
                (registrations.made - undo.len()) as u8
            } else {
                0
            },
            failure: Some(error),
        }),
    decreases undo.len(),
{
    if undo.len() > 0 {
        failed_registration_unwinds(registrations, error, undo.drop_last());
    }
}

/// A creation that failed leaves neither a window nor a window class behind, and one that succeeded
/// has both. A window is destroyed only where there is one, and a class unregistered only where it
/// is registered and its window is gone.
pub proof fn failed_creation_leaves_nothing(outcomes: Seq<TrayOutcome>)
    ensures
        ({
            let step = TrayStep::FindModule.after(outcomes);
            let class = TrayStep::FindModule.holds_class(outcomes);
            let window = TrayStep::FindModule.holds_window(outcomes);
            &&& step is Ready ==> class && window
            &&& step is Failed ==> !class && !window
            &&& step is DestroyWindow ==> class && window
            &&& step is UnregisterClass ==> class && !window
        }),
{
    creation_holds_what_it_made(outcomes);
}

/// What is there at each step.
proof fn creation_holds_what_it_made(outcomes: Seq<TrayOutcome>)
    ensures
        ({
            let step = TrayStep::FindModule.after(outcomes);
            &&& TrayStep::FindModule.holds_class(outcomes) == !(step is FindModule
                || step is RegisterClass || step is Failed)
            &&& TrayStep::FindModule.holds_window(outcomes) == (step is Register
                || step is EnsureIcon || step is DestroyWindow || step is Ready)
        }),
    decreases outcomes.len(),
{
    if outcomes.len() > 0 {
        creation_holds_what_it_made(outcomes.drop_last());
    }
}

/// A failure to create the window is reported as what it was, however much had to be undone.
pub proof fn creation_reports_its_failure(step: TrayStep, error: Error, undo: Seq<TrayOutcome>)
    requires
        step is FindModule || step is RegisterClass || step is CreateWindow || step is Register,
        undo.len() >= 2,
    ensures
        step.spec_next(TrayOutcome::Failed(error)).after(undo) == TrayStep::Failed(error),
    decreases undo.len(),
{
    reveal_with_fuel(TrayStep::after, 3);
    if undo.len() > 2 {
        creation_reports_its_failure(step, error, undo.drop_last());
    } else {
        assert(undo.drop_last().drop_last() =~= Seq::<TrayOutcome>::empty());
    }
}

/// Which events of the tray icon lead to what. Only the icon of the program counts, and of the second
/// parameter only the low 32 bits do.
pub proof fn icon_events_lead_to_actions(w_param: u64, l_param: i64, probe_mode: bool)
    ensures
        ({
            let action = tray_action(w_param, l_param, probe_mode);
            let word = l_param as int % 0x1_0000_0000;
            &&& action == Some(TrayAction::Signal(WindowSignal::Exit)) <==> word == 0x1_0000 + 515
                || (word == 0x1_0000 + 1025 && !probe_mode)
            &&& action == Some(TrayAction::Signal(WindowSignal::Probe)) <==> word == 0x1_0000 + 1025
                && probe_mode
            &&& action != Some(TrayAction::Signal(WindowSignal::Reconcile))
            &&& (action matches Some(TrayAction::ShowMenu { .. })) <==> word == 0x1_0000 + 123
            &&& action is None <==> word != 0x1_0000 + 515 && word != 0x1_0000 + 1025 && word
                != 0x1_0000 + 123
        }),
{
}

/// The menu is shown where the event says: the low two halves of the first parameter are the place, as
/// signed numbers.
pub proof fn menu_is_shown_at_the_place_of_the_event(w_param: u64, l_param: i64, probe_mode: bool)
    ensures
        tray_action(w_param, l_param, probe_mode) matches Some(TrayAction::ShowMenu { x, y }) ==> {
            &&& -0x8000 <= x < 0x8000
            &&& -0x8000 <= y < 0x8000
            &&& (w_param as int - x) % 0x1_0000 == 0
            &&& (w_param as int / 0x1_0000 - y) % 0x1_0000 == 0
        },
{
    let place = w_param as int % 0x1_0000_0000;
    let rest = w_param as int / 0x1_0000_0000;
    assert(w_param as int == rest * 0x1_0000_0000 + place);
    assert(w_param as int / 0x1_0000 == rest * 0x1_0000 + place / 0x1_0000);
}

/// What each message leads to that neither the tray icon nor the taskbar sent, in a window that has
/// its context.
pub proof fn messages_lead_to_actions(
    message: u32,
    w_param: u64,
    l_param: i64,
    context: WindowContext,
)
    requires
        message != 0x8001 || tray_action(w_param, l_param, context.probe_mode) is None,
        message != context.taskbar_created_msg || message == 0,
    ensures
        ({
            let action = message_action(message, w_param, l_param, Some(context));
            let resumed = message == 536 && w_param == 18;
            let setting = message == 536 && w_param == 0x8013 && l_param != 0;
            let unlocked = message == 689 && w_param == 8;
            let device = message == 537 && (w_param == 0x8000 || w_param == 0x8004 || w_param == 7
                || w_param == 24);
            &&& action == WindowAction::Reconcile(1) <==> resumed
            &&& action == WindowAction::Reconcile(0) <==> unlocked || device || message == 126
            &&& action is InspectPowerSetting <==> setting
            &&& action == WindowAction::Reply(1) <==> message == 536 && !resumed && !setting
            &&& action == WindowAction::Reply(0) <==> message == 16
            &&& action is Forget <==> message == 130
            &&& action is Default <==> !(message == 536 || unlocked || device || message == 126
                || message == 16 || message == 130)
        }),
{
}

/// An event of the tray icon counts before anything else, and then the taskbar's message, if it has
/// one. Without a context only closing and destruction are special.
pub proof fn icon_and_taskbar_come_first(
    message: u32,
    w_param: u64,
    l_param: i64,
    context: WindowContext,
)
    ensures
        ({
            let action = message_action(message, w_param, l_param, Some(context));
            let tray = tray_action(w_param, l_param, context.probe_mode);
            &&& message == 0x8001 && tray is Some ==> action == WindowAction::Tray(tray->0)
            &&& !(message == 0x8001 && tray is Some) ==> !(action is Tray)
            &&& action is RestoreIcon <==> context.taskbar_created_msg != 0 && message
                == context.taskbar_created_msg && !(message == 0x8001 && tray is Some)
        }),
        ({
            let action = message_action(message, w_param, l_param, None);
            &&& action == WindowAction::Reply(0) <==> message == 16
            &&& action is Forget <==> message == 130
            &&& action is Default <==> message != 16 && message != 130
        }),
{
}

/// How the icon comes about: its picture is loaded, an icon that is there is changed, one that is not
/// is added and then asked for events of the newer kind.
pub proof fn icon_steps_follow_each_other(step: IconStep, succeeded: bool)
    ensures
        ({
            let next = step.spec_next(succeeded);
            &&& step is LoadIcon && succeeded ==> next is Modify
            &&& step is Modify && !succeeded ==> next is Add
            &&& step is Add && succeeded ==> next is SetVersion
            &&& (step is LoadIcon || step is Add) && !succeeded ==> next == IconStep::Done(false)
            &&& (step is Modify && succeeded) || step is SetVersion ==> next == IconStep::Done(true)
            &&& step is Done ==> next == step
        }),
{
}

/// The notifications are registered for in this order, and each once: resume, the power of the
/// display, the session, the display devices.
pub proof fn registrations_have_an_order(registrations: Registrations)
    requires
        registrations.wf(),
    ensures
        registrations.failure is None ==> {
            &&& registrations.made == 0 ==> registrations.spec_step() == RegistrationStep::Make(
                Registration::SuspendResume,
            )
            &&& registrations.made == 1 ==> registrations.spec_step() == RegistrationStep::Make(
                Registration::DisplayPower,
            )
            &&& registrations.made == 2 ==> registrations.spec_step() == RegistrationStep::Make(
                Registration::Session,
            )
            &&& registrations.made == 3 ==> registrations.spec_step() == RegistrationStep::Make(
                Registration::DisplayDevice,
            )
            &&& registrations.made == 4 ==> registrations.spec_step() == RegistrationStep::Done(
                Ok(()),
            )
        },
        registrations.in_force().len() == registrations.made,
        Registrations::none().made == 0 && Registrations::none().failure is None,
{
}

/// A registration that was made counts as the latest, one that failed ends the making, and one that
/// was withdrawn is no longer in force, however its withdrawal went.
pub proof fn registrations_are_made_and_withdrawn(
    registrations: Registrations,
    outcome: Result<(), Error>,
)
    requires
        registrations.wf(),
    ensures
        ({
            let next = registrations.next(outcome);
            let making = registrations.failure is None && registrations.made < 4;
            let undoing = registrations.failure is Some && registrations.made > 0;
            &&& making && outcome is Ok ==> next.made == registrations.made + 1
                && next.failure is None
            &&& making && outcome is Err ==> next.made == registrations.made && next.failure == Some(
                outcome->Err_0,
            )
            &&& undoing ==> next.made == registrations.made - 1 && next.failure
                == registrations.failure
            &&& !making && !undoing ==> next == registrations
        }),
{
}

/// The window comes about step by step, and is ready whether or not its icon could be put up.
pub proof fn window_comes_about_step_by_step(step: TrayStep, outcome: TrayOutcome)
    ensures
        step is FindModule ==> step.spec_next(TrayOutcome::Succeeded) is RegisterClass,
        step is RegisterClass ==> step.spec_next(TrayOutcome::Succeeded) is CreateWindow,
        step is CreateWindow ==> step.spec_next(TrayOutcome::Succeeded) is Register,
        step is Register ==> step.spec_next(TrayOutcome::Succeeded) is EnsureIcon,
        step is EnsureIcon ==> step.spec_next(outcome) is Ready,
        step is Ready || step is Failed ==> step.spec_next(outcome) == step,
{
}

/// A failure undoes what was done: the window, if there is one, and then its class, if it is
/// registered.
pub proof fn failure_undoes_what_was_done(step: TrayStep, error: Error, outcome: TrayOutcome)
    ensures
        ({
            let next = step.spec_next(TrayOutcome::Failed(error));
            &&& step is FindModule || step is RegisterClass ==> next == TrayStep::Failed(error)
            &&& step is CreateWindow ==> next == TrayStep::UnregisterClass(error)
            &&& step is Register ==> next == TrayStep::DestroyWindow(error)
        }),
        step == TrayStep::DestroyWindow(error) ==> step.spec_next(outcome)
            == TrayStep::UnregisterClass(error),
        step == TrayStep::UnregisterClass(error) ==> step.spec_next(outcome) == TrayStep::Failed(
            error,
        ),
{
}

} // verus!
