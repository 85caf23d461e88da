//! The daemon's event loop: what it waits for, and what each wake-up leads to.

use vstd::prelude::*;

use crate::win32::{Error, Stage};

verus! {

/// The wait's result for a failure.
pub const WAIT_FAILED: u32 = 0xffff_ffff;

/// The wait's result for the first thing that is waited for.
pub const WAIT_OBJECT_0: u32 = 0;

/// The message that ends a message loop.
pub const WM_QUIT: u32 = 18;

/// How long brightness changes are gathered before they are acted on, in units of 100 ns: 150 ms.
pub const DEBOUNCE_100NS: i64 = 1_500_000;

/// How much later than asked for the system may fire that timer, in milliseconds.
pub const DEBOUNCE_TOLERANCE_MS: u32 = 50;

/// How long failures are gathered before the event log is told, in units of 100 ns: 5 s.
pub const LOG_FLUSH_100NS: i64 = 50_000_000;

/// How much later than asked for the system may fire that timer, in milliseconds. It is much,
/// because nobody waits for an entry in the event log.
pub const LOG_FLUSH_TOLERANCE_MS: u32 = 2_000;

/// What wakes the loop up.
#[derive(Clone, Copy, Debug, PartialEq, Eq, Structural)]
pub enum WaitSource {
    /// The debounce timer fired.
    DebounceTimer,
    /// The timer of the diagnostics fired.
    LogFlushTimer,
    /// The panel's brightness changed.
    Brightness,
    /// The session, a display or the power state changed.
    Reconcile,
    /// The user wants to end the program.
    Exit,
    /// The brightness events broke down.
    WmiFailure,
    /// The event log may hold a recovery of the display driver.
    GpuReset,
    /// The user wants to record a sample.
    Probe,
    /// The program was launched a second time.
    Refresh,
    /// There are window messages.
    Messages,
}

impl WaitSource {
    /// The place in the list of what is waited for. Window messages come after the list.
    pub open spec fn index(self) -> int {
        match self {
            WaitSource::DebounceTimer => 0,
            WaitSource::LogFlushTimer => 1,
            WaitSource::Brightness => 2,
            WaitSource::Reconcile => 3,
            WaitSource::Exit => 4,
            WaitSource::WmiFailure => 5,
            WaitSource::GpuReset => 6,
            WaitSource::Probe => 7,
            WaitSource::Refresh => 8,
            WaitSource::Messages => 9,
        }
    }
}

/// What a wait came to.
#[derive(Clone, Copy, Debug, PartialEq, Eq, Structural)]
pub enum WaitOutcome {
    Signaled(WaitSource),
    Failed,
    Unknown,
}

/// Reads the result of a wait.
pub fn wait_outcome(wait: u32) -> (outcome: WaitOutcome)
    ensures
        outcome is Failed <==> wait == WAIT_FAILED,
        outcome matches WaitOutcome::Signaled(source) ==> wait - WAIT_OBJECT_0 == source.index(),
        outcome is Signaled <==> WAIT_OBJECT_0 <= wait <= WAIT_OBJECT_0 + 9,
        outcome is Signaled <==> wait <= 9,
        outcome is Failed <==> wait == 0xffff_ffff,
{
    if wait == WAIT_FAILED {
        return WaitOutcome::Failed;
    }
    let index: u32 = wait.wrapping_sub(WAIT_OBJECT_0);
    match index {
        0 => WaitOutcome::Signaled(WaitSource::DebounceTimer),
        1 => WaitOutcome::Signaled(WaitSource::LogFlushTimer),
        2 => WaitOutcome::Signaled(WaitSource::Brightness),
        3 => WaitOutcome::Signaled(WaitSource::Reconcile),
        4 => WaitOutcome::Signaled(WaitSource::Exit),
        5 => WaitOutcome::Signaled(WaitSource::WmiFailure),
        6 => WaitOutcome::Signaled(WaitSource::GpuReset),
        7 => WaitOutcome::Signaled(WaitSource::Probe),
        8 => WaitOutcome::Signaled(WaitSource::Refresh),
        9 => WaitOutcome::Signaled(WaitSource::Messages),
        _ => WaitOutcome::Unknown,
    }
}

/// The handles that the loop waits for.
#[derive(Debug)]
pub struct WaitHandles<T> {
    pub debounce_timer: T,
    pub log_flush_timer: T,
    pub brightness_signal: T,
    pub reconcile_signal: T,
    pub exit_signal: T,
    pub wmi_failure_signal: T,
    pub gpu_reset_signal: T,
    pub probe_signal: T,
    pub refresh_signal: T,
}

impl<T: Copy> WaitHandles<T> {
    /// The handle that stands for a source; none for window messages.
    pub open spec fn handle(&self, source: WaitSource) -> Option<T> {
        match source {
            WaitSource::DebounceTimer => Some(self.debounce_timer),
            WaitSource::LogFlushTimer => Some(self.log_flush_timer),
            WaitSource::Brightness => Some(self.brightness_signal),
            WaitSource::Reconcile => Some(self.reconcile_signal),
            WaitSource::Exit => Some(self.exit_signal),
            WaitSource::WmiFailure => Some(self.wmi_failure_signal),
            WaitSource::GpuReset => Some(self.gpu_reset_signal),
            WaitSource::Probe => Some(self.probe_signal),
            WaitSource::Refresh => Some(self.refresh_signal),
            WaitSource::Messages => None,
        }
    }

    /// The handles in the order in which they are waited for.
    pub fn as_array(&self) -> (handles: [T; 9])
        ensures
            handles@.len() == 9,
            forall|source: WaitSource|
                #![trigger self.handle(source)]
                match self.handle(source) {
                    Some(handle) => 0 <= source.index() < 9 && handles@[source.index()] == handle,
                    None => source.index() == 9,
                },
            handles@ == seq![
                self.debounce_timer,
                self.log_flush_timer,
                self.brightness_signal,
                self.reconcile_signal,
                self.exit_signal,
                self.wmi_failure_signal,
                self.gpu_reset_signal,
                self.probe_signal,
                self.refresh_signal,
            ],
    {
        let handles: [T; 9] = [
            self.debounce_timer,
            self.log_flush_timer,
            self.brightness_signal,
            self.reconcile_signal,
            self.exit_signal,
            self.wmi_failure_signal,
            self.gpu_reset_signal,
            self.probe_signal,
            self.refresh_signal,
        ];
        assert(handles@ =~= seq![
            self.debounce_timer,
            self.log_flush_timer,
            self.brightness_signal,
            self.reconcile_signal,
            self.exit_signal,
            self.wmi_failure_signal,
            self.gpu_reset_signal,
            self.probe_signal,
            self.refresh_signal,
        ]);
        handles
    }
}

/// One thing to do after a wake-up.
#[derive(Clone, Copy, Debug, PartialEq, Eq, Structural)]
pub enum Effect {
    ResetBrightness,
    ResetReconcile,
    ResetGpuReset,
    ResetProbe,
    ArmDebounce,
    CancelDebounce,
    /// Read the brightness and set the white level that goes with it.
    Reconcile,
    /// Let the diagnostics write what is pending.
    FlushLog,
    /// Take the recoveries of the display driver from the event log.
    DrainGpuReset,
    /// Read the white level, record it, and show the next position.
    CaptureProbe,
    /// Handle the window messages.
    DrainMessages,
}

impl Effect {
    /// The stage that a failure of the effect is reported as.
    pub open spec fn spec_failure_stage(self) -> Stage {
        match self {
            Effect::ArmDebounce | Effect::Reconcile => Stage::CreateDebounceTimer,
            Effect::DrainGpuReset => Stage::GpuResetSubscription,
            Effect::CaptureProbe => Stage::ProbeLog,
            _ => Stage::EventWait,
        }
    }

    /// The stage that a failure of the effect is reported as.
    pub fn failure_stage(self) -> (stage: Stage)
        ensures
            stage == self.spec_failure_stage(),
            stage is CreateDebounceTimer <==> self is ArmDebounce || self is Reconcile,
            stage is GpuResetSubscription <==> self is DrainGpuReset,
            stage is ProbeLog <==> self is CaptureProbe,
            stage is EventWait <==> self is ResetBrightness || self is ResetReconcile
                || self is ResetGpuReset || self is ResetProbe || self is CancelDebounce
                || self is FlushLog || self is DrainMessages,
    {
        match self {
            Effect::ArmDebounce | Effect::Reconcile => Stage::CreateDebounceTimer,
            Effect::DrainGpuReset => Stage::GpuResetSubscription,
            Effect::CaptureProbe => Stage::ProbeLog,
            _ => Stage::EventWait,
        }
    }
}

/// What a wake-up leads to: things to do, in this order and up to the first that fails, or the end
/// of the loop.
#[derive(Debug)]
pub enum LoopStep {
    Perform(Vec<Effect>),
    Finish(Result<(), Error>),
}

/// The loop's state.
#[derive(Clone, Copy, Debug, PartialEq, Eq, Structural)]
pub struct EventLoop {
    /// Whether the white level may be changed.
    pub adjusting: bool,
    /// Whether samples are recorded.
    pub probing: bool,
    /// Whether recoveries of the display driver are noticed.
    pub gpu_reset: bool,
    /// Whether the debounce timer was started, and nothing has made it moot.
    pub debounce_armed: bool,
}

/// A wake-up, for statements about many of them.
pub struct Wake {
    pub source: WaitSource,
    /// Whether the event log, if it is drained now, holds recoveries of the display driver.
    pub observed: bool,
}

/// The effect, if a condition holds.
pub open spec fn effect_if(condition: bool, effect: Effect) -> Seq<Effect> {
    if condition {
        seq![effect]
    } else {
        seq![]
    }
}

impl EventLoop {
    /// The loop before its first wait.
    pub open spec fn start(adjusting: bool, probing: bool, gpu_reset: bool) -> EventLoop {
        EventLoop { adjusting, probing, gpu_reset, debounce_armed: false }
    }

    /// The end of the loop, if a source ends it.
    pub open spec fn verdict(source: WaitSource) -> Option<Result<(), Error>> {
        match source {
            WaitSource::Exit => Some(Ok(())),
            WaitSource::WmiFailure => Some(Err(Error { stage: Stage::WmiSubscription, code: 0 })),
            _ => None,
        }
    }

    /// What a source leads to.
    pub open spec fn effects(self, source: WaitSource) -> Seq<Effect> {
        match source {
            // A timer that was cancelled may have fired all the same.
            WaitSource::DebounceTimer => effect_if(
                self.debounce_armed && self.adjusting,
                Effect::Reconcile,
            ),
            WaitSource::LogFlushTimer => seq![Effect::FlushLog],
            WaitSource::Brightness => seq![Effect::ResetBrightness] + effect_if(
                self.adjusting,
                Effect::ArmDebounce,
            ),
            // The brightness is read now, so a pending debounce would only do the same again.
            WaitSource::Reconcile => seq![Effect::ResetReconcile, Effect::ResetBrightness] + effect_if(
                self.debounce_armed,
                Effect::CancelDebounce,
            ) + effect_if(self.adjusting, Effect::Reconcile),
            WaitSource::Refresh => effect_if(self.debounce_armed, Effect::CancelDebounce) + seq![
                Effect::ResetBrightness,
            ] + effect_if(self.adjusting, Effect::Reconcile),
            WaitSource::GpuReset => seq![Effect::ResetGpuReset] + effect_if(
                self.gpu_reset,
                Effect::DrainGpuReset,
            ),
            WaitSource::Probe => seq![Effect::ResetProbe] + effect_if(
                self.probing,
                Effect::CaptureProbe,
            ),
            WaitSource::Messages => seq![Effect::DrainMessages],
            WaitSource::Exit | WaitSource::WmiFailure => seq![],
        }
    }

    /// The state after a source was handled.
    pub open spec fn next(self, source: WaitSource) -> EventLoop {
        EventLoop {
            debounce_armed: match source {
                WaitSource::DebounceTimer | WaitSource::Reconcile | WaitSource::Refresh => false,
                WaitSource::Brightness => self.debounce_armed || self.adjusting,
                _ => self.debounce_armed,
            },
            ..self
        }
    }

    /// Whether the white level is set after the event log was drained, which held recoveries of
    /// the display driver or not.
    pub open spec fn adjusts_after_drain(self, observed: bool) -> bool {
        observed && self.adjusting
    }

    /// All that a wake-up leads to: what its source leads to, and what follows the draining of the
    /// event log.
    pub open spec fn wake_effects(self, wake: Wake) -> Seq<Effect> {
        self.effects(wake.source) + effect_if(
            self.effects(wake.source).contains(Effect::DrainGpuReset) && self.adjusts_after_drain(
                wake.observed,
            ),
            Effect::Reconcile,
        )
    }

    /// The state after a number of wake-ups.
    pub open spec fn after(self, wakes: Seq<Wake>) -> EventLoop
        decreases wakes.len(),
    {
        if wakes.len() == 0 {
            self
        } else {
            self.after(wakes.drop_last()).next(wakes.last().source)
        }
    }

    /// All that a number of wake-ups lead to, one after the other.
    pub open spec fn all_effects(self, wakes: Seq<Wake>) -> Seq<Effect>
        decreases wakes.len(),
    {
        if wakes.len() == 0 {
            seq![]
        } else {
            self.all_effects(wakes.drop_last()) + self.after(wakes.drop_last()).wake_effects(
                wakes.last(),
            )
        }
    }

    /// The loop before its first wait.
    pub fn new(adjusting: bool, probing: bool, gpu_reset: bool) -> (state: Self)
        ensures
            state == EventLoop::start(adjusting, probing, gpu_reset),
            state.adjusting == adjusting,
            state.probing == probing,
            state.gpu_reset == gpu_reset,
            !state.debounce_armed,
    {
        EventLoop { adjusting, probing, gpu_reset, debounce_armed: false }
    }

    /// Handles the result of a wait. `last_error` is the thread's last error code right after it.
    pub fn wake(&mut self, wait: u32, last_error: u32) -> (step: LoopStep)
        ensures
            wait == WAIT_FAILED ==> (step matches LoopStep::Finish(Err(error)) && error.stage
                == Stage::EventWait && crate::packet::word(error.code) == last_error),
            wait == WAIT_FAILED ==> *final(self) == *old(self),
            WAIT_OBJECT_0 + 9 < wait < WAIT_FAILED ==> step == LoopStep::Finish(
                Err(Error { stage: Stage::EventWait, code: 0 }),
            ) && *final(self) == *old(self),
            forall|source: WaitSource|
                #![trigger source.index()]
                wait == WAIT_OBJECT_0 + source.index() ==> {
                    &&& match EventLoop::verdict(source) {
                        Some(result) => step == LoopStep::Finish(result),
                        None => step matches LoopStep::Perform(effects) && effects@
                            == old(self).effects(source),
                    }
                    &&& *final(self) == old(self).next(source)
                },
    {
        match wait_outcome(wait) {
            WaitOutcome::Failed => LoopStep::Finish(Err(Error::last(Stage::EventWait, last_error))),
            WaitOutcome::Unknown => LoopStep::Finish(Err(Error::condition(Stage::EventWait))),
            WaitOutcome::Signaled(source) => self.handle(source),
        }
    }

    /// Handles a source.
    pub fn handle(&mut self, source: WaitSource) -> (step: LoopStep)
        ensures
            match EventLoop::verdict(source) {
                Some(result) => step == LoopStep::Finish(result),
                None => step matches LoopStep::Perform(effects) && effects@ == old(self).effects(
                    source,
                ),
            },
            *final(self) == old(self).next(source),
            source is Exit <==> step == LoopStep::Finish(Ok(())),
            source is Exit || source is WmiFailure <==> step is Finish,
            final(self).adjusting == old(self).adjusting,
            final(self).probing == old(self).probing,
            final(self).gpu_reset == old(self).gpu_reset,
            final(self).debounce_armed <==> {
                ||| source is Brightness && old(self).adjusting
                ||| old(self).debounce_armed && !(source is DebounceTimer || source is Reconcile
                    || source is Refresh)
            },
    {
        let mut effects: Vec<Effect> = Vec::new();
        let armed: bool = self.debounce_armed;
        match source {
            WaitSource::DebounceTimer => {
                self.debounce_armed = false;
                if armed && self.adjusting {
                    effects.push(Effect::Reconcile);
                }
            },
            WaitSource::LogFlushTimer => effects.push(Effect::FlushLog),
            WaitSource::Brightness => {
                effects.push(Effect::ResetBrightness);
                if self.adjusting {
                    effects.push(Effect::ArmDebounce);
                    self.debounce_armed = true;
                }
            },
            WaitSource::Reconcile => {
                effects.push(Effect::ResetReconcile);
                effects.push(Effect::ResetBrightness);
                if armed {
                    effects.push(Effect::CancelDebounce);
                    self.debounce_armed = false;
                }
                if self.adjusting {
                    effects.push(Effect::Reconcile);
                }
            },
            WaitSource::Exit => {
                return LoopStep::Finish(Ok(()));
            },
            WaitSource::WmiFailure => {
                return LoopStep::Finish(Err(Error::condition(Stage::WmiSubscription)));
            },
            WaitSource::GpuReset => {
                effects.push(Effect::ResetGpuReset);
                if self.gpu_reset {
                    effects.push(Effect::DrainGpuReset);
                }
            },
            WaitSource::Probe => {
                effects.push(Effect::ResetProbe);
                if self.probing {
                    effects.push(Effect::CaptureProbe);
                }
            },
            WaitSource::Refresh => {
                if armed {
                    effects.push(Effect::CancelDebounce);
                    self.debounce_armed = false;
                }
                effects.push(Effect::ResetBrightness);
                if self.adjusting {
                    effects.push(Effect::Reconcile);
                }
            },
            WaitSource::Messages => effects.push(Effect::DrainMessages),
        }
        assert(effects@ =~= old(self).effects(source));
        LoopStep::Perform(effects)
    }
}

/// What to do about a window message.
#[derive(Clone, Copy, Debug, PartialEq, Eq, Structural)]
pub enum MessageStep {
    /// Hand it to its window, and look for the next.
    Dispatch,
    /// All messages are handled; the loop goes on.
    Drained,
    /// The message ends the loop.
    Quit,
}

/// What to do about a window message, or about there being none left.
pub open spec fn message_step(message: Option<u32>) -> MessageStep {
    match message {
        None => MessageStep::Drained,
        Some(message) => if message == WM_QUIT {
            MessageStep::Quit
        } else {
            MessageStep::Dispatch
        },
    }
}

/// Decides about a window message, or about there being none left.
pub fn drain_messages(message: Option<u32>) -> (step: MessageStep)
    ensures
        step == message_step(message),
        step is Quit <==> message == Some(18u32),
        step is Drained <==> message is None,
{
    match message {
        None => MessageStep::Drained,
        Some(message) => {
            if message == WM_QUIT {
                MessageStep::Quit
            } else {
                MessageStep::Dispatch
            }
        },
    }
}

impl MessageStep {
    /// The end of the loop, if the step ends it.
    pub open spec fn verdict(self) -> Option<Result<(), Error>> {
        match self {
            MessageStep::Quit => Some(Ok(())),
            MessageStep::Dispatch | MessageStep::Drained => None,
        }
    }

    /// The end of the loop, if the step ends it: a message that asks for it ends the loop with
    /// success.
    pub fn loop_step(self) -> (step: Option<LoopStep>)
        ensures
            match self.verdict() {
                Some(result) => step == Some(LoopStep::Finish(result)),
                None => step is None,
            },
            step is Some <==> self is Quit,
            step matches Some(step) ==> step == LoopStep::Finish(Ok(())),
    {
        match self {
            MessageStep::Quit => Some(LoopStep::Finish(Ok(()))),
            MessageStep::Dispatch | MessageStep::Drained => None,
        }
    }
}

/// What the handling of waiting messages, in their order, ends with.
pub open spec fn drained(messages: Seq<u32>) -> MessageStep
    decreases messages.len(),
{
    if messages.len() == 0 {
        message_step(None)
    } else {
        match message_step(Some(messages[0])) {
            MessageStep::Dispatch => drained(messages.skip(1)),
            step => step,
        }
    }
}

/// The end of the loop, if handling a source ends it, when `messages` are the window messages that
/// wait.
pub open spec fn ending(source: WaitSource, messages: Seq<u32>) -> Option<Result<(), Error>> {
    match source {
        WaitSource::Messages => drained(messages).verdict(),
        _ => EventLoop::verdict(source),
    }
}

/// Messages end the loop exactly if one of them asks for it.
proof fn drained_quits_on_request(messages: Seq<u32>)
    ensures
        drained(messages) is Quit <==> messages.contains(WM_QUIT),
        !(drained(messages) is Dispatch),
    decreases messages.len(),
{
    if messages.len() > 0 {
        drained_quits_on_request(messages.skip(1));
        if messages[0] != WM_QUIT && messages.contains(WM_QUIT) {
            let i = choose|i: int| 0 <= i < messages.len() && messages[i] == WM_QUIT;
            assert(messages.skip(1)[i - 1] == WM_QUIT);
        }
        if messages.skip(1).contains(WM_QUIT) {
            let i = choose|i: int| 0 <= i < messages.len() - 1 && messages.skip(1)[i] == WM_QUIT;
            assert(messages[i + 1] == WM_QUIT);
        }
    }
}

/// As long as what is waited for can be waited for and every effect succeeds, the loop ends only
/// when the user wants to end the program or a window message asks for it, both with success, or
/// when the brightness events broke down, with a failure. Everything else leads to another wait.
pub proof fn loop_ends_only_on_request(source: WaitSource, messages: Seq<u32>)
    ensures
        ending(source, messages) == Some(Ok::<(), Error>(())) <==> (source == WaitSource::Exit || (
        source == WaitSource::Messages && messages.contains(WM_QUIT))),
        ending(source, messages) == Some(
            Err::<(), Error>(Error { stage: Stage::WmiSubscription, code: 0 }),
        ) <==> source == WaitSource::WmiFailure,
        ending(source, messages) is Some ==> source == WaitSource::Exit || source
            == WaitSource::WmiFailure || source == WaitSource::Messages,
        ending(source, messages) is Some && source == WaitSource::Messages ==> ending(
            source,
            messages,
        ) == Some(Ok::<(), Error>(())),
{
    drained_quits_on_request(messages);
}

/// When a timer is to fire. Times before now are relative, in units of 100 ns. Without a period it
/// fires once.
#[derive(Clone, Copy, Debug, PartialEq, Eq, Structural)]
pub struct TimerSchedule {
    pub due_time: i64,
    pub period: i32,
    pub tolerance_ms: u32,
}

/// The schedule of the debounce timer: once, 150 ms from now.
pub open spec fn debounce_schedule() -> TimerSchedule {
    TimerSchedule {
        due_time: (-1_500_000) as i64,
        period: 0,
        tolerance_ms: DEBOUNCE_TOLERANCE_MS,
    }
}

/// The schedule of the debounce timer: once, 150 ms from now.
pub fn arm_debounce() -> (schedule: TimerSchedule)
    ensures
        schedule == debounce_schedule(),
        schedule.due_time == -1_500_000,
        schedule.period == 0,
        schedule.tolerance_ms == 50,
{
    TimerSchedule {
        due_time: -DEBOUNCE_100NS,
        period: 0,
        tolerance_ms: DEBOUNCE_TOLERANCE_MS,
    }
}

/// The schedule of the diagnostics' timer: once, five seconds from now.
pub open spec fn log_flush_schedule() -> TimerSchedule {
    TimerSchedule {
        due_time: (-50_000_000) as i64,
        period: 0,
        tolerance_ms: LOG_FLUSH_TOLERANCE_MS,
    }
}

/// The schedule of the diagnostics' timer: once, five seconds from now.
pub fn arm_log_flush() -> (schedule: TimerSchedule)
    ensures
        schedule == log_flush_schedule(),
        schedule.due_time == -50_000_000,
        schedule.period == 0,
        schedule.tolerance_ms == 2_000,
{
    TimerSchedule {
        due_time: -LOG_FLUSH_100NS,
        period: 0,
        tolerance_ms: LOG_FLUSH_TOLERANCE_MS,
    }
}

/// How often an effect occurs.
pub open spec fn occurrences(effects: Seq<Effect>, effect: Effect) -> nat
    decreases effects.len(),
{
    if effects.len() == 0 {
        0
    } else {
        occurrences(effects.drop_last(), effect) + if effects.last() == effect {
            1nat
        } else {
            0nat
        }
    }
}

/// Occurrences in a concatenation add up.
proof fn occurrences_add_up(first: Seq<Effect>, second: Seq<Effect>, effect: Effect)
    ensures
        occurrences(first + second, effect) == occurrences(first, effect) + occurrences(
            second,
            effect,
        ),
    decreases second.len(),
{
    if second.len() == 0 {
        assert(first + second =~= first);
    } else {
        occurrences_add_up(first, second.drop_last(), effect);
        assert((first + second).drop_last() =~= first + second.drop_last());
    }
}

/// An effect that does not occur has no occurrences.
proof fn absent_effect(effects: Seq<Effect>, effect: Effect)
    ensures
        occurrences(effects, effect) == 0 <==> !effects.contains(effect),
    decreases effects.len(),
{
    if effects.len() > 0 {
        absent_effect(effects.drop_last(), effect);
        assert(effects =~= effects.drop_last().push(effects.last()));
        if effects.contains(effect) {
            let i = choose|i: int| 0 <= i < effects.len() && effects[i] == effect;
            if i < effects.len() - 1 {
                assert(effects.drop_last()[i] == effect);
            }
        }
        if effects.drop_last().contains(effect) {
            let i = choose|i: int|
                0 <= i < effects.drop_last().len() && effects.drop_last()[i] == effect;
            assert(effects[i] == effect);
        }
        if effects.last() == effect {
            assert(effects[effects.len() - 1] == effect);
        }
    }
}

/// How often the white level is set at a wake-up.
pub open spec fn sets_at_once(state: EventLoop, wake: Wake) -> nat {
    let sets = match wake.source {
        WaitSource::Reconcile | WaitSource::Refresh => state.adjusting,
        WaitSource::DebounceTimer => state.adjusting && state.debounce_armed,
        WaitSource::GpuReset => state.adjusting && state.gpu_reset && wake.observed,
        _ => false,
    };
    if sets {
        1
    } else {
        0
    }
}

/// What a source alone leads to.
proof fn source_sets(state: EventLoop, source: WaitSource)
    ensures
        occurrences(state.effects(source), Effect::Reconcile) == if source == WaitSource::GpuReset {
            0
        } else {
            sets_at_once(state, Wake { source, observed: false })
        },
        state.effects(source).contains(Effect::DrainGpuReset) <==> source == WaitSource::GpuReset
            && state.gpu_reset,
{
    reveal_with_fuel(occurrences, 5);
    let effects = state.effects(source);
    let one = seq![Effect::Reconcile];
    assert(one.drop_last() =~= Seq::<Effect>::empty());
    if source == WaitSource::GpuReset && state.gpu_reset {
        assert(effects[1] == Effect::DrainGpuReset);
    }
    match source {
        WaitSource::Reconcile => {
            let start = seq![Effect::ResetReconcile, Effect::ResetBrightness] + effect_if(
                state.debounce_armed,
                Effect::CancelDebounce,
            );
            absent_effect(start, Effect::Reconcile);
            occurrences_add_up(start, effect_if(state.adjusting, Effect::Reconcile), Effect::Reconcile);
        },
        WaitSource::Refresh => {
            let start = effect_if(state.debounce_armed, Effect::CancelDebounce) + seq![
                Effect::ResetBrightness,
            ];
            absent_effect(start, Effect::Reconcile);
            occurrences_add_up(start, effect_if(state.adjusting, Effect::Reconcile), Effect::Reconcile);
        },
        WaitSource::DebounceTimer => {},
        _ => {
            absent_effect(effects, Effect::Reconcile);
        },
    }
}

/// A wake-up sets the white level once, or not at all.
///
/// A change of the session, the displays or the power state does so, and a second launch of the
/// program; the debounce timer does so if it was started and not made moot since; and the event log
/// does so if it held recoveries of the display driver.
pub proof fn source_sets_once_at_most(state: EventLoop, wake: Wake)
    ensures
        occurrences(state.wake_effects(wake), Effect::Reconcile) == sets_at_once(state, wake),
{
    let effects = state.effects(wake.source);
    let follow_up = effect_if(
        effects.contains(Effect::DrainGpuReset) && state.adjusts_after_drain(wake.observed),
        Effect::Reconcile,
    );
    source_sets(state, wake.source);
    occurrences_add_up(effects, follow_up, Effect::Reconcile);
    reveal_with_fuel(occurrences, 2);
    if follow_up.len() > 0 {
        assert(follow_up.drop_last() =~= Seq::<Effect>::empty());
    }
}

/// After the event log was drained the white level is set exactly if recoveries of the display
/// driver were observed, and never in probe mode.
pub proof fn recovery_sets_exactly_if_observed(state: EventLoop, observed: bool)
    requires
        state.gpu_reset,
    ensures
        occurrences(
            state.wake_effects(Wake { source: WaitSource::GpuReset, observed }),
            Effect::Reconcile,
        ) == if state.adjusting && observed {
            1nat
        } else {
            0nat
        },
{
    source_sets_once_at_most(state, Wake { source: WaitSource::GpuReset, observed });
}

/// In probe mode nothing ever sets the white level or gets ready to, whatever happens.
pub proof fn probe_mode_never_adjusts(state: EventLoop, wakes: Seq<Wake>)
    requires
        !state.adjusting,
    ensures
        !state.all_effects(wakes).contains(Effect::Reconcile),
        !state.all_effects(wakes).contains(Effect::ArmDebounce),
        !state.after(wakes).adjusting,
    decreases wakes.len(),
{
    if wakes.len() > 0 {
        let before = state.all_effects(wakes.drop_last());
        let last = state.after(wakes.drop_last()).wake_effects(wakes.last());
        probe_mode_never_adjusts(state, wakes.drop_last());
        assert(!last.contains(Effect::Reconcile));
        assert(!last.contains(Effect::ArmDebounce));
        assert forall|i: int| 0 <= i < (before + last).len() implies (before + last)[i]
            != Effect::Reconcile && (before + last)[i] != Effect::ArmDebounce by {
            if i < before.len() {
                assert((before + last)[i] == before[i]);
            } else {
                assert((before + last)[i] == last[i - before.len()]);
            }
        }
    }
}

/// Whether the brightness changed after the last time that the debounce timer fired or a change of
/// the session, the displays or the power state, or a second launch, made it moot.
pub open spec fn brightness_is_news(wakes: Seq<Wake>) -> bool
    decreases wakes.len(),
{
    if wakes.len() == 0 {
        false
    } else {
        match wakes.last().source {
            WaitSource::Brightness => true,
            WaitSource::DebounceTimer | WaitSource::Reconcile | WaitSource::Refresh => false,
            _ => brightness_is_news(wakes.drop_last()),
        }
    }
}

/// The debounce timer counts exactly while there is news of the brightness. So a timer that fires
/// although it was cancelled, or fires twice, does nothing.
pub proof fn debounce_is_armed_while_brightness_is_news(
    adjusting: bool,
    probing: bool,
    gpu_reset: bool,
    wakes: Seq<Wake>,
)
    ensures
        EventLoop::start(adjusting, probing, gpu_reset).after(wakes).debounce_armed == (adjusting
            && brightness_is_news(wakes)),
        EventLoop::start(adjusting, probing, gpu_reset).after(wakes).adjusting == adjusting,
    decreases wakes.len(),
{
    if wakes.len() > 0 {
        debounce_is_armed_while_brightness_is_news(
            adjusting,
            probing,
            gpu_reset,
            wakes.drop_last(),
        );
    }
}

/// After the white level was set at once, a debounce timer that still fires does nothing.
pub proof fn stale_debounce_does_nothing(state: EventLoop, source: WaitSource)
    requires
        source == WaitSource::Reconcile || source == WaitSource::Refresh || source
            == WaitSource::DebounceTimer,
    ensures
        state.next(source).effects(WaitSource::DebounceTimer) == Seq::<Effect>::empty(),
{
}

/// The wake-up for a source other than the event log.
pub open spec fn wake_by(source: WaitSource) -> Wake {
    Wake { source, observed: false }
}

/// A number of brightness changes.
pub open spec fn brightness_burst(count: nat) -> Seq<Wake> {
    Seq::new(count, |i: int| wake_by(WaitSource::Brightness))
}

/// While a burst of brightness changes lasts, the white level is not set.
proof fn burst_only_arms(state: EventLoop, count: nat)
    requires
        state.adjusting,
    ensures
        occurrences(state.all_effects(brightness_burst(count)), Effect::Reconcile) == 0,
        state.after(brightness_burst(count)).adjusting,
        count > 0 ==> state.after(brightness_burst(count)).debounce_armed,
    decreases count,
{
    if count > 0 {
        let burst = brightness_burst(count);
        let shorter = brightness_burst((count - 1) as nat);
        assert(burst.drop_last() =~= shorter);
        burst_only_arms(state, (count - 1) as nat);
        source_sets_once_at_most(state.after(shorter), wake_by(WaitSource::Brightness));
        occurrences_add_up(
            state.all_effects(shorter),
            state.after(shorter).wake_effects(wake_by(WaitSource::Brightness)),
            Effect::Reconcile,
        );
    }
}

/// A burst of brightness changes, however long, sets the white level once: when the debounce timer
/// fires after it.
pub proof fn brightness_burst_sets_once(state: EventLoop, count: nat)
    requires
        state.adjusting,
        count > 0,
    ensures
        occurrences(
            state.all_effects(brightness_burst(count).push(wake_by(WaitSource::DebounceTimer))),
            Effect::Reconcile,
        ) == 1,
{
    let burst = brightness_burst(count);
    burst_only_arms(state, count);
    assert(burst.push(wake_by(WaitSource::DebounceTimer)).drop_last() =~= burst);
    source_sets_once_at_most(state.after(burst), wake_by(WaitSource::DebounceTimer));
    occurrences_add_up(
        state.all_effects(burst),
        state.after(burst).wake_effects(wake_by(WaitSource::DebounceTimer)),
        Effect::Reconcile,
    );
}

/// Which effects a source has. An effect occurs for these sources and states, and for no others.
pub proof fn effects_belong_to_their_sources(state: EventLoop, source: WaitSource)
    ensures
        ({
            let effects = state.effects(source);
            let at_once = source is Reconcile || source is Refresh;
            &&& effects.contains(Effect::ResetBrightness) <==> source is Brightness || at_once
            &&& effects.contains(Effect::ResetReconcile) <==> source is Reconcile
            &&& effects.contains(Effect::ResetGpuReset) <==> source is GpuReset
            &&& effects.contains(Effect::ResetProbe) <==> source is Probe
            &&& effects.contains(Effect::ArmDebounce) <==> source is Brightness && state.adjusting
            &&& effects.contains(Effect::CancelDebounce) <==> at_once && state.debounce_armed
            &&& effects.contains(Effect::Reconcile) <==> state.adjusting && (at_once || (
            source is DebounceTimer && state.debounce_armed))
            &&& effects.contains(Effect::FlushLog) <==> source is LogFlushTimer
            &&& effects.contains(Effect::DrainGpuReset) <==> source is GpuReset && state.gpu_reset
            &&& effects.contains(Effect::CaptureProbe) <==> source is Probe && state.probing
            &&& effects.contains(Effect::DrainMessages) <==> source is Messages
        }),
{
    let effects = state.effects(source);
    assert(effects.len() <= 4);
    assert(effects.len() > 0 ==> effects.contains(effects[0]));
    assert(effects.len() > 1 ==> effects.contains(effects[1]));
    assert(effects.len() > 2 ==> effects.contains(effects[2]));
    assert(effects.len() > 3 ==> effects.contains(effects[3]));
}

/// Whether an effect only takes back that its source is signaled, or makes a timer moot.
pub open spec fn clears_the_way(effect: Effect) -> bool {
    effect is ResetBrightness || effect is ResetReconcile || effect is ResetGpuReset
        || effect is ResetProbe || effect is CancelDebounce
}

/// No effect occurs twice. A signal is taken back, and a timer made moot, before anything is done
/// about it, so that nothing that happens meanwhile is lost; and one thing is done at most.
pub proof fn signals_are_taken_back_first(state: EventLoop, source: WaitSource, i: int, j: int)
    requires
        0 <= i < j < state.effects(source).len(),
    ensures
        state.effects(source)[i] != state.effects(source)[j],
        clears_the_way(state.effects(source)[i]),
        source is Reconcile && state.effects(source)[i] is ResetBrightness ==> !(
        state.effects(source)[j] is ResetReconcile),
        source is Reconcile && state.effects(source)[i] is CancelDebounce ==>
            state.effects(source)[j] is Reconcile,
        source is Refresh && state.effects(source)[i] is ResetBrightness ==>
            state.effects(source)[j] is Reconcile,
{
}

/// What the loop remembers of a source: whether the debounce timer was started, and nothing else
/// changes.
pub proof fn only_the_debounce_is_remembered(state: EventLoop, source: WaitSource)
    ensures
        ({
            let next = state.next(source);
            &&& next.adjusting == state.adjusting
            &&& next.probing == state.probing
            &&& next.gpu_reset == state.gpu_reset
            &&& source is Brightness ==> next.debounce_armed == (state.debounce_armed
                || state.adjusting)
            &&& source is DebounceTimer || source is Reconcile || source is Refresh ==>
                !next.debounce_armed
            &&& !(source is Brightness || source is DebounceTimer || source is Reconcile
                || source is Refresh) ==> next.debounce_armed == state.debounce_armed
        }),
{
}

/// The white level is set after the event log was drained exactly if recoveries were observed and the
/// white level may be changed; and then it is the last thing that is done.
pub proof fn recovery_is_followed_up_last(state: EventLoop, wake: Wake)
    ensures
        state.adjusts_after_drain(wake.observed) <==> wake.observed && state.adjusting,
        wake.source is GpuReset && state.gpu_reset && wake.observed && state.adjusting ==>
            state.wake_effects(wake) == state.effects(wake.source).push(Effect::Reconcile),
        !(wake.source is GpuReset && state.gpu_reset && wake.observed && state.adjusting) ==>
            state.wake_effects(wake) == state.effects(wake.source),
{
    effects_belong_to_their_sources(state, wake.source);
    assert(state.wake_effects(wake) =~= if wake.source is GpuReset && state.gpu_reset
        && wake.observed && state.adjusting {
        state.effects(wake.source).push(Effect::Reconcile)
    } else {
        state.effects(wake.source)
    });
}

} // verus!
