//! The session that the daemon needs.

use vstd::prelude::*;

use windows_core::Error as WindowsError;

use crate::win32::{windows_error_code, Error, Stage};

verus! {

/// The flag of a window station that the user can see.
pub const WSF_VISIBLE: u32 = 1;

/// Decides, from the flags of the process's window station, whether the user can be shown
/// anything.
pub fn ensure_interactive_window_station(flags: u32) -> (result: Result<(), Error>)
    ensures
        result is Ok <==> flags % 2 == 1,
        result matches Err(error) ==> error == (Error { stage: Stage::InteractiveSession, code: 0 }),
{
    assert(flags & 1 == 0 <==> flags % 2 == 0) by (bit_vector);
    if flags & WSF_VISIBLE == 0 {
        return Err(Error::condition(Stage::InteractiveSession));
    }
    Ok(())
}

/// The same, where the calls that read the flags may have reported an error object. It is then the
/// failure.
pub fn check_window_station(flags: Result<u32, WindowsError>) -> (result: Result<(), Error>)
    ensures
        match flags {
            Ok(flags) => {
                &&& result is Ok <==> flags % 2 == 1
                &&& result matches Err(error) ==> error == (Error {
                    stage: Stage::InteractiveSession,
                    code: 0,
                })
            },
            Err(error) => result == Err::<(), Error>(
                Error { stage: Stage::InteractiveSession, code: windows_error_code(error) },
            ),
        },
{
    match flags {
        Ok(flags) => ensure_interactive_window_station(flags),
        Err(error) => Err(Error::windows(Stage::InteractiveSession, &error)),
    }
}

} // verus!
