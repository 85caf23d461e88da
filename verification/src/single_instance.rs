//! One instance of the daemon per session.
//!
//! The first instance holds a named mutex. A later one finds it, asks the first to set the white
//! level again through a named event, and ends.

use vstd::prelude::*;

use crate::win32::Error;

verus! {

/// The name of the event through which a later instance asks the first for a refresh.
pub const REFRESH_EVENT_NAME: &'static str = "Local\\Calibrator.ThinkPadX915p.Refresh";

/// The name of the mutex that the first instance holds.
pub const MUTEX_NAME: &'static str = "Local\\Calibrator.ThinkPadX915p";

/// The system's code for a named object that existed before.
pub const ALREADY_EXISTS: u32 = 183;

/// Whether the refresh event stays signaled until it is reset. It does not: the wait that notices
/// it resets it, so a request that comes while the white level is being set is not lost.
pub fn refresh_event_manual_reset() -> (result: bool)
    ensures
        !result,
{
    false
}

/// What came of a call.
#[derive(Clone, Copy, Debug, PartialEq, Eq, Structural)]
pub enum CallOutcome {
    Succeeded,
    /// The mutex was there already.
    AlreadyExisted,
    Failed(Error),
}

/// What the creation of the mutex came to, if it succeeded and left `last_error` as the thread's
/// last error code.
pub fn mutex_outcome(last_error: u32) -> (outcome: CallOutcome)
    ensures
        outcome == if last_error == ALREADY_EXISTS {
            CallOutcome::AlreadyExisted
        } else {
            CallOutcome::Succeeded
        },
        outcome is AlreadyExisted <==> last_error == 183,
        outcome is Succeeded <==> last_error != 183,
{
    if last_error == ALREADY_EXISTS {
        CallOutcome::AlreadyExisted
    } else {
        CallOutcome::Succeeded
    }
}

/// What it all comes to.
#[derive(Clone, Copy, Debug, PartialEq, Eq, Structural)]
pub enum Acquire {
    /// This is the only instance. It holds the mutex and the event.
    Acquired,
    AlreadyRunning,
    Failed(Error),
}

/// What to do next.
#[derive(Clone, Copy, Debug, PartialEq, Eq, Structural)]
pub enum AcquireStep {
    /// Create the event, or open it if it is there. This comes before the mutex: whoever gets the
    /// mutex then has an event that the others can signal.
    CreateRefreshEvent,
    CreateMutex,
    SignalRefresh,
    CloseMutex,
    CloseRefreshEvent,
    Done(Acquire),
}

/// The attempt to become the only instance.
#[derive(Clone, Copy, Debug, PartialEq, Eq, Structural)]
pub struct InstanceGuard {
    /// Whether an instance that is running is to set the white level again.
    pub request_refresh: bool,
    pub step: AcquireStep,
    /// What it will come to when the handles are closed.
    pub verdict: Acquire,
}

impl InstanceGuard {
    /// The attempt at its start.
    pub open spec fn start(request_refresh: bool) -> InstanceGuard {
        InstanceGuard {
            request_refresh,
            step: AcquireStep::CreateRefreshEvent,
            verdict: Acquire::AlreadyRunning,
        }
    }

    /// The attempt with `step` to be done next, on the way to `verdict`.
    pub open spec fn heading(self, step: AcquireStep, verdict: Acquire) -> InstanceGuard {
        InstanceGuard { step, verdict, ..self }
    }

    /// The attempt after a call. Closing a handle counts as done however it went.
    pub open spec fn next(self, outcome: CallOutcome) -> InstanceGuard {
        match self.step {
            AcquireStep::CreateRefreshEvent => match outcome {
                CallOutcome::Failed(error) => self.heading(
                    AcquireStep::Done(Acquire::Failed(error)),
                    Acquire::Failed(error),
                ),
                _ => self.heading(AcquireStep::CreateMutex, self.verdict),
            },
            AcquireStep::CreateMutex => match outcome {
                CallOutcome::Failed(error) => self.heading(
                    AcquireStep::CloseRefreshEvent,
                    Acquire::Failed(error),
                ),
                CallOutcome::AlreadyExisted => self.heading(
                    if self.request_refresh {
                        AcquireStep::SignalRefresh
                    } else {
                        AcquireStep::CloseMutex
                    },
                    Acquire::AlreadyRunning,
                ),
                CallOutcome::Succeeded => self.heading(
                    AcquireStep::Done(Acquire::Acquired),
                    Acquire::Acquired,
                ),
            },
            AcquireStep::SignalRefresh => self.heading(
                AcquireStep::CloseMutex,
                match outcome {
                    CallOutcome::Failed(error) => Acquire::Failed(error),
                    _ => Acquire::AlreadyRunning,
                },
            ),
            AcquireStep::CloseMutex => self.heading(AcquireStep::CloseRefreshEvent, self.verdict),
            AcquireStep::CloseRefreshEvent => self.heading(
                AcquireStep::Done(self.verdict),
                self.verdict,
            ),
            AcquireStep::Done(_) => self,
        }
    }

    /// Starts the attempt.
    pub fn acquire(request_refresh: bool) -> (guard: Self)
        ensures
            guard == InstanceGuard::start(request_refresh),
    {
        InstanceGuard {
            request_refresh,
            step: AcquireStep::CreateRefreshEvent,
            verdict: Acquire::AlreadyRunning,
        }
    }

    /// Takes the outcome of the call that was made last.
    pub fn answer(&mut self, outcome: CallOutcome)
        ensures
            *final(self) == old(self).next(outcome),
    {
        match self.step {
            AcquireStep::CreateRefreshEvent => match outcome {
                CallOutcome::Failed(error) => {
                    self.verdict = Acquire::Failed(error);
                    self.step = AcquireStep::Done(self.verdict);
                },
                _ => {
                    self.step = AcquireStep::CreateMutex;
                },
            },
            AcquireStep::CreateMutex => match outcome {
                CallOutcome::Failed(error) => {
                    self.verdict = Acquire::Failed(error);
                    self.step = AcquireStep::CloseRefreshEvent;
                },
                CallOutcome::AlreadyExisted => {
                    self.verdict = Acquire::AlreadyRunning;
                    self.step = if self.request_refresh {
                        AcquireStep::SignalRefresh
                    } else {
                        AcquireStep::CloseMutex
                    };
                },
                CallOutcome::Succeeded => {
                    self.verdict = Acquire::Acquired;
                    self.step = AcquireStep::Done(Acquire::Acquired);
                },
            },
            AcquireStep::SignalRefresh => {
                self.verdict = match outcome {
                    CallOutcome::Failed(error) => Acquire::Failed(error),
                    _ => Acquire::AlreadyRunning,
                };
                self.step = AcquireStep::CloseMutex;
            },
            AcquireStep::CloseMutex => {
                self.step = AcquireStep::CloseRefreshEvent;
            },
            AcquireStep::CloseRefreshEvent => {
                self.step = AcquireStep::Done(self.verdict);
            },
            AcquireStep::Done(_) => {},
        }
    }

    /// The attempt after a number of calls.
    pub open spec fn after(self, outcomes: Seq<CallOutcome>) -> InstanceGuard
        decreases outcomes.len(),
    {
        if outcomes.len() == 0 {
            self
        } else {
            self.after(outcomes.drop_last()).next(outcomes.last())
        }
    }
}

/// The handles that are open.
pub struct OpenHandles {
    pub event: bool,
    pub mutex: bool,
}

/// The handles that are open after a call.
pub open spec fn handles_after(
    handles: OpenHandles,
    step: AcquireStep,
    outcome: CallOutcome,
) -> OpenHandles {
    match step {
        AcquireStep::CreateRefreshEvent => OpenHandles { event: !(outcome is Failed), ..handles },
        AcquireStep::CreateMutex => OpenHandles { mutex: !(outcome is Failed), ..handles },
        AcquireStep::CloseMutex => OpenHandles { mutex: false, ..handles },
        AcquireStep::CloseRefreshEvent => OpenHandles { event: false, ..handles },
        _ => handles,
    }
}

/// The handles that are open after a number of calls.
pub open spec fn open_handles(request_refresh: bool, outcomes: Seq<CallOutcome>) -> OpenHandles
    decreases outcomes.len(),
{
    if outcomes.len() == 0 {
        OpenHandles { event: false, mutex: false }
    } else {
        handles_after(
            open_handles(request_refresh, outcomes.drop_last()),
            InstanceGuard::start(request_refresh).after(outcomes.drop_last()).step,
            outcomes.last(),
        )
    }
}

/// No handle is lost: an attempt that is over holds both handles if it succeeded, and none
/// otherwise. A handle is closed only while it is open.
pub proof fn handles_are_kept_or_closed(request_refresh: bool, outcomes: Seq<CallOutcome>)
    ensures
        ({
            let guard = InstanceGuard::start(request_refresh).after(outcomes);
            let handles = open_handles(request_refresh, outcomes);
            match guard.step {
                AcquireStep::CreateRefreshEvent => !handles.event && !handles.mutex,
                AcquireStep::CreateMutex => handles.event && !handles.mutex,
                AcquireStep::SignalRefresh => handles.event && handles.mutex,
                AcquireStep::CloseMutex => handles.event && handles.mutex,
                AcquireStep::CloseRefreshEvent => handles.event && !handles.mutex,
                AcquireStep::Done(Acquire::Acquired) => handles.event && handles.mutex,
                AcquireStep::Done(_) => !handles.event && !handles.mutex,
            }
        }),
        ({
            let guard = InstanceGuard::start(request_refresh).after(outcomes);
            (guard.step is CloseMutex || guard.step is CloseRefreshEvent) ==> !(guard.verdict
                is Acquired)
        }),
    decreases outcomes.len(),
{
    if outcomes.len() > 0 {
        handles_are_kept_or_closed(request_refresh, outcomes.drop_last());
        attempt_keeps_request(request_refresh, outcomes.drop_last());
    }
}

/// Whether a refresh is wanted does not change, and no attempt is headed for success before the
/// mutex is there.
proof fn attempt_keeps_request(request_refresh: bool, outcomes: Seq<CallOutcome>)
    ensures
        InstanceGuard::start(request_refresh).after(outcomes).request_refresh == request_refresh,
        InstanceGuard::start(request_refresh).after(outcomes).verdict is Acquired
            ==> InstanceGuard::start(request_refresh).after(outcomes).step == AcquireStep::Done(
            Acquire::Acquired,
        ),
    decreases outcomes.len(),
{
    if outcomes.len() > 0 {
        attempt_keeps_request(request_refresh, outcomes.drop_last());
    }
}

/// A second launch asks the first instance for a refresh exactly if it was asked to, and then ends
/// as one that is not needed.
pub proof fn second_launch_requests_refresh(request_refresh: bool)
    ensures
        ({
            let found = InstanceGuard::start(request_refresh).next(CallOutcome::Succeeded).next(
                CallOutcome::AlreadyExisted,
            );
            &&& found.step is SignalRefresh <==> request_refresh
            &&& found.verdict == Acquire::AlreadyRunning
        }),
{
}

/// The first instance is never asked for a refresh by an attempt that does not want one, nor by
/// one that found no other instance.
pub proof fn refresh_is_signaled_only_on_request(
    request_refresh: bool,
    outcomes: Seq<CallOutcome>,
)
    requires
        InstanceGuard::start(request_refresh).after(outcomes).step is SignalRefresh,
    ensures
        request_refresh,
        outcomes.last() == CallOutcome::AlreadyExisted,
{
    if outcomes.len() > 0 {
        attempt_keeps_request(request_refresh, outcomes.drop_last());
    }
}

/// How each call leads to the next. A failure closes what is open and is the result, whatever it was;
/// closing goes on however it went.
pub proof fn calls_follow_each_other(guard: InstanceGuard, outcome: CallOutcome, error: Error)
    ensures
        guard.step is CreateRefreshEvent ==> guard.next(CallOutcome::Failed(error)).step
            == AcquireStep::Done(Acquire::Failed(error)),
        guard.step is CreateRefreshEvent && !(outcome is Failed) ==> guard.next(outcome).step
            == AcquireStep::CreateMutex,
        guard.step is CreateMutex ==> {
            &&& guard.next(CallOutcome::Succeeded).step == AcquireStep::Done(Acquire::Acquired)
            &&& guard.next(CallOutcome::Failed(error)).step == AcquireStep::CloseRefreshEvent
            &&& guard.next(CallOutcome::Failed(error)).verdict == Acquire::Failed(error)
            &&& guard.next(CallOutcome::AlreadyExisted).step == if guard.request_refresh {
                AcquireStep::SignalRefresh
            } else {
                AcquireStep::CloseMutex
            }
            &&& guard.next(CallOutcome::AlreadyExisted).verdict == Acquire::AlreadyRunning
        },
        guard.step is SignalRefresh ==> {
            &&& guard.next(outcome).step == AcquireStep::CloseMutex
            &&& guard.next(CallOutcome::Failed(error)).verdict == Acquire::Failed(error)
            &&& !(outcome is Failed) ==> guard.next(outcome).verdict == Acquire::AlreadyRunning
        },
        guard.step is CloseMutex ==> guard.next(outcome).step == AcquireStep::CloseRefreshEvent
            && guard.next(outcome).verdict == guard.verdict,
        guard.step is CloseRefreshEvent ==> guard.next(outcome).step == AcquireStep::Done(
            guard.verdict,
        ),
        guard.step is Done ==> guard.next(outcome) == guard,
        guard.next(outcome).request_refresh == guard.request_refresh,
        InstanceGuard::start(guard.request_refresh).step is CreateRefreshEvent,
        InstanceGuard::start(guard.request_refresh).request_refresh == guard.request_refresh,
{
}

/// Every launch in a session means the same objects.
pub proof fn launches_share_their_objects()
    ensures
        REFRESH_EVENT_NAME@ == MUTEX_NAME@ + ".Refresh"@,
        MUTEX_NAME@ == "Local\\Calibrator.ThinkPadX915p"@,
{
    reveal_strlit("Local\\Calibrator.ThinkPadX915p.Refresh");
    reveal_strlit("Local\\Calibrator.ThinkPadX915p");
    reveal_strlit(".Refresh");
    assert(REFRESH_EVENT_NAME@ =~= MUTEX_NAME@ + ".Refresh"@);
}

} // verus!
