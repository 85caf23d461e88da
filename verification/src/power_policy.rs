//! How the process and its threads ask to be treated: as work in the background that may be slowed
//! down.

use vstd::prelude::*;

use windows_core::Error as WindowsError;

use crate::win32::{code_of_windows_error, windows_error_code, Error, Stage};

verus! {

pub const PROCESS_POWER_THROTTLING_CURRENT_VERSION: u32 = 1;

pub const PROCESS_POWER_THROTTLING_EXECUTION_SPEED: u32 = 1;

pub const PROCESS_POWER_THROTTLING_IGNORE_TIMER_RESOLUTION: u32 = 4;

pub const THREAD_POWER_THROTTLING_CURRENT_VERSION: u32 = 1;

pub const THREAD_POWER_THROTTLING_EXECUTION_SPEED: u32 = 1;

/// Both ways in which a process can be slowed down.
pub const PROCESS_THROTTLING_FLAGS: u32 = 5;

/// A request to be slowed down: which ways are meant, and which of them are to be on.
#[derive(Clone, Copy, Debug, PartialEq, Eq, Structural)]
pub struct Throttling {
    pub version: u32,
    pub control_mask: u32,
    pub state_mask: u32,
}

/// One call of the policy.
#[derive(Clone, Copy, Debug, PartialEq, Eq, Structural)]
pub enum PolicyCall {
    ThrottleProcess(Throttling),
    /// Background mode stays on until the process ends.
    EnterBackgroundMode,
    ThrottleThread(Throttling),
}

impl PolicyCall {
    /// The stage that a failure of the call is reported as.
    pub open spec fn spec_failure_stage(self) -> Stage {
        match self {
            PolicyCall::ThrottleProcess(_) => Stage::ProcessPowerPolicy,
            PolicyCall::EnterBackgroundMode => Stage::ProcessBackgroundMode,
            PolicyCall::ThrottleThread(_) => Stage::EventThreadPowerPolicy,
        }
    }

    /// The stage that a failure of the call is reported as.
    pub fn failure_stage(self) -> (stage: Stage)
        ensures
            stage == self.spec_failure_stage(),
            stage is ProcessPowerPolicy <==> self is ThrottleProcess,
            stage is ProcessBackgroundMode <==> self is EnterBackgroundMode,
            stage is EventThreadPowerPolicy <==> self is ThrottleThread,
    {
        match self {
            PolicyCall::ThrottleProcess(_) => Stage::ProcessPowerPolicy,
            PolicyCall::EnterBackgroundMode => Stage::ProcessBackgroundMode,
            PolicyCall::ThrottleThread(_) => Stage::EventThreadPowerPolicy,
        }
    }

    /// The call after this one. A failure, given by its code, is the policy's result.
    pub open spec fn next(self, outcome: Result<(), i32>) -> Result<Option<PolicyCall>, Error> {
        match outcome {
            Err(code) => Err(Error { stage: self.spec_failure_stage(), code }),
            Ok(_) => Ok(
                if self is ThrottleProcess {
                    Some(PolicyCall::EnterBackgroundMode)
                } else {
                    None
                },
            ),
        }
    }

    /// The call to make after this one, if there is one. A call that failed with a code ends the
    /// policy, and no further call is made.
    pub fn after_call(self, outcome: Result<(), i32>) -> (next: Result<Option<PolicyCall>, Error>)
        ensures
            next == self.next(outcome),
    {
        match outcome {
            Err(code) => Err(Error::with_code(self.failure_stage(), code)),
            Ok(()) => match self {
                PolicyCall::ThrottleProcess(_) => Ok(Some(PolicyCall::EnterBackgroundMode)),
                PolicyCall::EnterBackgroundMode | PolicyCall::ThrottleThread(_) => Ok(None),
            },
        }
    }

    /// The same, for a call that may have reported an error object.
    pub fn answer(self, outcome: Result<(), WindowsError>) -> (next: Result<
        Option<PolicyCall>,
        Error,
    >)
        ensures
            next == self.next(
                match outcome {
                    Ok(_) => Ok(()),
                    Err(error) => Err(windows_error_code(error)),
                },
            ),
    {
        match outcome {
            Ok(()) => self.after_call(Ok(())),
            Err(error) => self.after_call(Err(code_of_windows_error(&error))),
        }
    }
}

/// The calls for the process, in this order and up to the first that fails.
pub fn apply_process_policy() -> (calls: [PolicyCall; 2])
    ensures
        calls@ == seq![
            PolicyCall::ThrottleProcess(
                Throttling {
                    version: PROCESS_POWER_THROTTLING_CURRENT_VERSION,
                    control_mask: PROCESS_THROTTLING_FLAGS,
                    state_mask: PROCESS_THROTTLING_FLAGS,
                },
            ),
            PolicyCall::EnterBackgroundMode,
        ],
        calls@[0] matches PolicyCall::ThrottleProcess(throttling) && throttling.version == 1
            && throttling.control_mask == 5 && throttling.state_mask == 5,
{
    let calls: [PolicyCall; 2] = [
        PolicyCall::ThrottleProcess(
            Throttling {
                version: PROCESS_POWER_THROTTLING_CURRENT_VERSION,
                control_mask: PROCESS_THROTTLING_FLAGS,
                state_mask: PROCESS_THROTTLING_FLAGS,
            },
        ),
        PolicyCall::EnterBackgroundMode,
    ];
    assert(calls@ =~= seq![calls@[0], calls@[1]]);
    calls
}

/// The call for a thread that handles events.
pub fn apply_to_current_event_thread() -> (call: PolicyCall)
    ensures
        call == PolicyCall::ThrottleThread(
            Throttling {
                version: THREAD_POWER_THROTTLING_CURRENT_VERSION,
                control_mask: THREAD_POWER_THROTTLING_EXECUTION_SPEED,
                state_mask: THREAD_POWER_THROTTLING_EXECUTION_SPEED,
            },
        ),
        call matches PolicyCall::ThrottleThread(throttling) && throttling.version == 1
            && throttling.control_mask == 1 && throttling.state_mask == 1,
{
    PolicyCall::ThrottleThread(
        Throttling {
            version: THREAD_POWER_THROTTLING_CURRENT_VERSION,
            control_mask: THREAD_POWER_THROTTLING_EXECUTION_SPEED,
            state_mask: THREAD_POWER_THROTTLING_EXECUTION_SPEED,
        },
    )
}

/// The calls that a policy makes, and its result.
pub struct PolicyRun {
    pub calls: Seq<PolicyCall>,
    pub result: Result<(), Error>,
}

impl PolicyCall {
    /// How many calls a policy makes from this one on at most.
    pub open spec fn calls_left(self) -> nat {
        if self is ThrottleProcess {
            2
        } else {
            1
        }
    }

    /// What a policy does that begins with this call, if call number `i` from here on comes to
    /// `outcomes[i]`.
    pub open spec fn run(self, outcomes: Seq<Result<(), i32>>) -> PolicyRun
        decreases self.calls_left(),
    {
        match self.next(outcomes[0]) {
            Err(error) => PolicyRun { calls: seq![self], result: Err(error) },
            Ok(None) => PolicyRun { calls: seq![self], result: Ok(()) },
            Ok(Some(call)) => {
                let rest = call.run(outcomes.skip(1));
                PolicyRun { calls: seq![self] + rest.calls, result: rest.result }
            },
        }
    }
}

/// The policy for the process slows it down first. If that fails, that is the result, and background
/// mode is not entered; if entering it fails, that is the result; else the policy succeeds.
pub proof fn process_policy_stops_at_the_first_failure(
    throttling: Throttling,
    first: Result<(), i32>,
    second: Result<(), i32>,
)
    ensures
        ({
            let call = PolicyCall::ThrottleProcess(throttling);
            let run = call.run(seq![first, second]);
            match (first, second) {
                (Err(code), _) => run == (PolicyRun {
                    calls: seq![call],
                    result: Err(Error { stage: Stage::ProcessPowerPolicy, code }),
                }),
                (Ok(_), Err(code)) => run == (PolicyRun {
                    calls: seq![call, PolicyCall::EnterBackgroundMode],
                    result: Err(Error { stage: Stage::ProcessBackgroundMode, code }),
                }),
                (Ok(_), Ok(_)) => run == (PolicyRun {
                    calls: seq![call, PolicyCall::EnterBackgroundMode],
                    result: Ok(()),
                }),
            }
        }),
{
    reveal_with_fuel(PolicyCall::run, 3);
    let call = PolicyCall::ThrottleProcess(throttling);
    let rest = seq![first, second].skip(1);
    assert(rest[0] == second);
    assert(seq![call] + seq![PolicyCall::EnterBackgroundMode] =~= seq![
        call,
        PolicyCall::EnterBackgroundMode,
    ]);
}

/// The policy for a thread is one call, whose failure is the result.
pub proof fn thread_policy_is_one_call(throttling: Throttling, outcome: Result<(), i32>)
    ensures
        ({
            let call = PolicyCall::ThrottleThread(throttling);
            call.run(seq![outcome]) == (PolicyRun {
                calls: seq![call],
                result: match outcome {
                    Ok(_) => Ok(()),
                    Err(code) => Err(Error { stage: Stage::EventThreadPowerPolicy, code }),
                },
            })
        }),
{
}

/// The flags for the process are the two ways of being slowed down, and nothing else.
pub proof fn process_flags_are_both_mechanisms()
    ensures
        PROCESS_THROTTLING_FLAGS == PROCESS_POWER_THROTTLING_EXECUTION_SPEED
            | PROCESS_POWER_THROTTLING_IGNORE_TIMER_RESOLUTION,
{
    assert(5u32 == 1u32 | 4u32) by (bit_vector);
}

} // verus!
