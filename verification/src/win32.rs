//! Failure categories of the daemon, and the process exit code that each is reported as.

use vstd::prelude::*;
use windows_core::Error as WindowsError;

verus! {

/// The part of the program that failed.
#[derive(Clone, Copy, Debug, PartialEq, Eq, Structural)]
pub enum Stage {
    InteractiveSession,
    ProcessPowerPolicy,
    ProcessBackgroundMode,
    EventThreadPowerPolicy,
    SingleInstance,
    RegisterWindowClass,
    CreateMessageWindow,
    CreateEvent,
    CreateDebounceTimer,
    RegisterPowerNotifications,
    RegisterSessionNotifications,
    RegisterDisplayNotifications,
    WmiSnapshot,
    WmiSubscription,
    EventWait,
    GpuResetSubscription,
    ProbeConfiguration,
    ProbeLog,
}

impl Stage {
    /// The number under which process supervisors know the stage. It never changes.
    pub open spec fn spec_number(self) -> u8 {
        match self {
            Stage::InteractiveSession => 1,
            Stage::ProcessPowerPolicy => 2,
            Stage::ProcessBackgroundMode => 3,
            Stage::EventThreadPowerPolicy => 4,
            Stage::SingleInstance => 5,
            Stage::RegisterWindowClass => 6,
            Stage::CreateMessageWindow => 7,
            Stage::CreateEvent => 8,
            Stage::CreateDebounceTimer => 9,
            Stage::RegisterPowerNotifications => 10,
            Stage::RegisterSessionNotifications => 11,
            Stage::RegisterDisplayNotifications => 12,
            Stage::WmiSnapshot => 13,
            Stage::WmiSubscription => 14,
            Stage::EventWait => 15,
            Stage::GpuResetSubscription => 16,
            Stage::ProbeConfiguration => 17,
            Stage::ProbeLog => 18,
        }
    }

    /// Returns the stage's number.
    pub fn number(self) -> (number: u8)
        ensures
            number == self.spec_number(),
            1 <= number <= 18,
    {
        match self {
            Stage::InteractiveSession => 1,
            Stage::ProcessPowerPolicy => 2,
            Stage::ProcessBackgroundMode => 3,
            Stage::EventThreadPowerPolicy => 4,
            Stage::SingleInstance => 5,
            Stage::RegisterWindowClass => 6,
            Stage::CreateMessageWindow => 7,
            Stage::CreateEvent => 8,
            Stage::CreateDebounceTimer => 9,
            Stage::RegisterPowerNotifications => 10,
            Stage::RegisterSessionNotifications => 11,
            Stage::RegisterDisplayNotifications => 12,
            Stage::WmiSnapshot => 13,
            Stage::WmiSubscription => 14,
            Stage::EventWait => 15,
            Stage::GpuResetSubscription => 16,
            Stage::ProbeConfiguration => 17,
            Stage::ProbeLog => 18,
        }
    }
}

/// The error object that the Windows API bindings hand out.
#[verifier::external_type_specification]
#[verifier::external_body]
pub struct ExWindowsError(WindowsError);

/// The `HRESULT` that an error object of the Windows API bindings carries.
pub uninterp spec fn windows_error_code(error: WindowsError) -> i32;

/// Calls `windows::core::Error::code` and hands out the number inside the `HRESULT`.
///
/// Trusted: the number depends on the error object alone, so it has a name.
#[verifier::external_body]
pub(crate) fn code_of_windows_error(error: &WindowsError) -> (code: i32)
    ensures
        code == windows_error_code(*error),
{
    error.code().0
}

/// The `HRESULT` that stands for a Win32 error code, as 32 bits. Success, and what already is an
/// `HRESULT` for a failure, stay as they are. Any other code keeps its low half and gets the
/// facility of Win32 errors and the mark of a failure.
pub open spec fn win32_hresult(code: u32) -> u32 {
    if code == 0 || code >= 0x8000_0000 {
        code
    } else {
        (0x8007_0000 + code % 0x1_0000) as u32
    }
}

/// Calls `windows::core::HRESULT::from_win32` and hands out the number inside the `HRESULT`.
///
/// Trusted: what the number is for every code.
#[verifier::external_body]
pub(crate) fn hresult_from_win32(code: u32) -> (hresult: i32)
    ensures
        crate::packet::word(hresult) == win32_hresult(code),
{
    windows_core::HRESULT::from_win32(code).0
}

/// A failure: where it happened, and the system's code for it (zero if there is none).
#[derive(Clone, Copy, Debug, PartialEq, Eq, Structural)]
pub struct Error {
    pub stage: Stage,
    pub code: i32,
}

impl Error {
    /// The failure of a call that left `last_error` as the thread's last error code.
    pub fn last(stage: Stage, last_error: u32) -> (error: Self)
        ensures
            error.stage == stage,
            // The same 32 bits, read as a signed number.
            error.code as int == if last_error <= i32::MAX {
                last_error as int
            } else {
                last_error - 0x1_0000_0000
            },
    {
        let code: i32 = last_error as i32;
        assert(code as int == if last_error <= i32::MAX {
            last_error as int
        } else {
            last_error - 0x1_0000_0000
        }) by {
            assert(last_error <= 0x7fff_ffffu32 ==> (last_error as i32) as int == last_error as int) by (bit_vector);
            assert(last_error > 0x7fff_ffffu32 ==> (last_error as i32) as int == last_error - 0x1_0000_0000) by (bit_vector);
        }
        Error { stage, code }
    }

    /// The failure of a call that reported `error`.
    pub fn windows(stage: Stage, error: &WindowsError) -> (result: Self)
        ensures
            result == (Error { stage, code: windows_error_code(*error) }),
    {
        Error::with_code(stage, code_of_windows_error(error))
    }

    /// The failure of a call that reported the code `code`.
    pub fn with_code(stage: Stage, code: i32) -> (result: Self)
        ensures
            result == (Error { stage, code }),
    {
        Error { stage, code }
    }

    /// A failure for which the system has no code.
    pub fn condition(stage: Stage) -> (error: Self)
        ensures
            error == (Error { stage, code: 0 }),
    {
        Error { stage, code: 0 }
    }

    /// The exit code that reports the failure.
    pub open spec fn spec_exit_code(self) -> u8 {
        (self.stage.spec_number() * 2 + if self.code != 0 { 1int } else { 0int }) as u8
    }

    /// Twice the stage's number, and one more if the system gave a code.
    pub fn exit_code(self) -> (exit_code: u8)
        ensures
            exit_code == self.stage.spec_number() * 2 + if self.code != 0 { 1int } else { 0int },
            exit_code == self.spec_exit_code(),
    {
        self.stage.number() * 2 + if self.code != 0 { 1 } else { 0 }
    }
}

/// Every failure has a nonzero exit code, and the stage can be read off it: half the exit code,
/// rounded down, is the stage's number.
pub proof fn exit_code_is_nonzero_and_reveals_stage(error: Error)
    ensures
        error.spec_exit_code() != 0,
        error.spec_exit_code() / 2 == error.stage.spec_number(),
        error.spec_exit_code() % 2 == 1 <==> error.code != 0,
{
}

/// Two failures have one exit code exactly if they happened in one stage and both or neither
/// have a system code.
pub proof fn exit_codes_are_distinct(first: Error, second: Error)
    ensures
        first.spec_exit_code() == second.spec_exit_code() <==> first.stage == second.stage && (
        first.code != 0 <==> second.code != 0),
{
}

/// The exit code of each failure, which process supervisors rely on: it is even where the system gave
/// no code, and the next odd number where it did.
pub proof fn exit_codes_are_fixed(error: Error)
    ensures
        ({
            let base = error.spec_exit_code() - if error.code != 0 {
                1int
            } else {
                0int
            };
            &&& error.stage is InteractiveSession <==> base == 2
            &&& error.stage is ProcessPowerPolicy <==> base == 4
            &&& error.stage is ProcessBackgroundMode <==> base == 6
            &&& error.stage is EventThreadPowerPolicy <==> base == 8
            &&& error.stage is SingleInstance <==> base == 10
            &&& error.stage is RegisterWindowClass <==> base == 12
            &&& error.stage is CreateMessageWindow <==> base == 14
            &&& error.stage is CreateEvent <==> base == 16
            &&& error.stage is CreateDebounceTimer <==> base == 18
            &&& error.stage is RegisterPowerNotifications <==> base == 20
            &&& error.stage is RegisterSessionNotifications <==> base == 22
            &&& error.stage is RegisterDisplayNotifications <==> base == 24
            &&& error.stage is WmiSnapshot <==> base == 26
            &&& error.stage is WmiSubscription <==> base == 28
            &&& error.stage is EventWait <==> base == 30
            &&& error.stage is GpuResetSubscription <==> base == 32
            &&& error.stage is ProbeConfiguration <==> base == 34
            &&& error.stage is ProbeLog <==> base == 36
        }),
{
}

} // verus!
