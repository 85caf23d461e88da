//! What the event log is told about failures, and when.

use vstd::prelude::*;

use crate::display::ApplyOutcome;
use crate::packet::{to_word, word};
use crate::text::{decimal, hexadecimal, push_decimal, push_hexadecimal};

verus! {

/// A short description of an outcome that is a failure. That there is no HDR panel is normal on
/// many desktops and not a failure.
pub open spec fn description(outcome: ApplyOutcome) -> Option<Seq<char>> {
    match outcome {
        ApplyOutcome::AppliedAndVerified
        | ApplyOutcome::AlreadyCorrect
        | ApplyOutcome::NoHdrTarget => None,
        ApplyOutcome::AmbiguousInternalTargets => Some(
            "reconcile: ambiguous internal HDR targets"@,
        ),
        ApplyOutcome::TopologyUnavailable => Some("reconcile: display topology query failed"@),
        ApplyOutcome::InspectionUnavailable => Some("reconcile: HDR target inspection failed"@),
        ApplyOutcome::SetFailed(code) => Some(
            "reconcile: DisplayConfigSetDeviceInfo failed (HRESULT 0x"@ + hexadecimal(
                word(code) as nat,
                8,
            ) + ")"@,
        ),
        ApplyOutcome::VerificationFailed { expected, observed } => Some(
            "reconcile: verification failed (expected SDR white level "@ + decimal(expected as nat)
                + ", read "@ + (match observed {
                Some(level) => decimal(level as nat),
                None => "unavailable"@,
            }) + ")"@,
        ),
    }
}

/// A short description of an outcome that is a failure.
pub fn outcome_description(outcome: &ApplyOutcome) -> (result: Option<String>)
    ensures
        result is Some <==> description(*outcome) is Some,
        result is Some ==> result->0@ == description(*outcome)->0,
{
    match *outcome {
        ApplyOutcome::AppliedAndVerified
        | ApplyOutcome::AlreadyCorrect
        | ApplyOutcome::NoHdrTarget => None,
        ApplyOutcome::AmbiguousInternalTargets => Some(
            "reconcile: ambiguous internal HDR targets".to_owned(),
        ),
        ApplyOutcome::TopologyUnavailable => Some(
            "reconcile: display topology query failed".to_owned(),
        ),
        ApplyOutcome::InspectionUnavailable => Some(
            "reconcile: HDR target inspection failed".to_owned(),
        ),
        ApplyOutcome::SetFailed(code) => {
            let mut text: String =
                "reconcile: DisplayConfigSetDeviceInfo failed (HRESULT 0x".to_owned();
            push_hexadecimal(&mut text, to_word(code), 8);
            text.append(")");
            Some(text)
        },
        ApplyOutcome::VerificationFailed { expected, observed } => {
            let mut text: String =
                "reconcile: verification failed (expected SDR white level ".to_owned();
            push_decimal(&mut text, expected as u128);
            text.append(", read ");
            match observed {
                Some(level) => push_decimal(&mut text, level as u128),
                None => text.append("unavailable"),
            }
            text.append(")");
            Some(text)
        },
    }
}

/// Gathers failures until a timer fires, and then reports the last of them.
///
/// A burst of attempts so leads to one entry in the event log at most, and to none if the last
/// attempt of the burst succeeded.
#[derive(Debug)]
pub struct Diagnostics {
    pending: Option<String>,
    flush_armed: bool,
}

/// The gathered failures, as mathematics sees them: the description of the last attempt if it
/// failed, and whether the timer is running.
#[verifier::ext_equal]
pub struct DiagnosticsView {
    pub pending: Option<Seq<char>>,
    pub flush_armed: bool,
}

impl View for Diagnostics {
    type V = DiagnosticsView;

    closed spec fn view(&self) -> DiagnosticsView {
        DiagnosticsView {
            pending: match self.pending {
                Some(text) => Some(text@),
                None => None,
            },
            flush_armed: self.flush_armed,
        }
    }
}

/// What happens to the diagnostics.
pub enum DiagnosticsEvent {
    /// An attempt ended.
    Outcome(ApplyOutcome),
    /// The timer fired.
    Flush,
}

impl DiagnosticsView {
    /// Nothing has happened yet.
    pub open spec fn fresh() -> DiagnosticsView {
        DiagnosticsView { pending: None, flush_armed: false }
    }

    /// After an attempt: its failure, or nothing if it succeeded. A failure starts the timer.
    pub open spec fn recorded(self, outcome: ApplyOutcome) -> DiagnosticsView {
        DiagnosticsView {
            pending: description(outcome),
            flush_armed: self.flush_armed || description(outcome) is Some,
        }
    }

    /// Whether an attempt makes it necessary to start the timer.
    pub open spec fn must_arm(self, outcome: ApplyOutcome) -> bool {
        description(outcome) is Some && !self.flush_armed
    }

    /// After an event.
    pub open spec fn next(self, event: DiagnosticsEvent) -> DiagnosticsView {
        match event {
            DiagnosticsEvent::Outcome(outcome) => self.recorded(outcome),
            DiagnosticsEvent::Flush => DiagnosticsView::fresh(),
        }
    }

    /// After a number of events.
    pub open spec fn after(self, events: Seq<DiagnosticsEvent>) -> DiagnosticsView
        decreases events.len(),
    {
        if events.len() == 0 {
            self
        } else {
            self.after(events.drop_last()).next(events.last())
        }
    }
}

impl Diagnostics {
    /// Nothing has happened yet.
    pub fn new() -> (diagnostics: Self)
        ensures
            diagnostics@ == DiagnosticsView::fresh(),
    {
        Diagnostics { pending: None, flush_armed: false }
    }

    /// Notes the outcome of an attempt. Returns whether the timer is to be started: a failure came,
    /// and the timer is not running.
    pub fn record(&mut self, outcome: &ApplyOutcome) -> (should_arm: bool)
        ensures
            final(self)@ == old(self)@.recorded(*outcome),
            should_arm == old(self)@.must_arm(*outcome),
    {
        match outcome_description(outcome) {
            Some(text) => {
                self.pending = Some(text);
                // A timer that is running reports whatever failure is current when it fires.
                let should_arm: bool = !self.flush_armed;
                self.flush_armed = true;
                should_arm
            },
            None => {
                // A timer that is running will find nothing to report.
                self.pending = None;
                false
            },
        }
    }

    /// Takes note that the timer fired. Returns the entry to write, if there is one.
    pub fn flush(&mut self) -> (entry: Option<String>)
        ensures
            final(self)@ == DiagnosticsView::fresh(),
            entry is Some <==> old(self)@.pending is Some,
            entry is Some ==> entry->0@ == old(self)@.pending->0,
    {
        self.flush_armed = false;
        let entry: Option<String> = self.pending.take();
        entry
    }
}

/// Whether a failure came after the last time that the timer fired.
pub open spec fn failed_since_flush(events: Seq<DiagnosticsEvent>) -> bool
    decreases events.len(),
{
    if events.len() == 0 {
        false
    } else {
        match events.last() {
            DiagnosticsEvent::Flush => false,
            DiagnosticsEvent::Outcome(outcome) => description(outcome) is Some
                || failed_since_flush(events.drop_last()),
        }
    }
}

/// What is pending is the last attempt's failure, whatever came before. If the last attempt
/// succeeded, or the timer has fired since, nothing is.
pub proof fn pending_is_the_last_failure(events: Seq<DiagnosticsEvent>)
    ensures
        DiagnosticsView::fresh().after(events).pending == if events.len() == 0 {
            None
        } else {
            match events.last() {
                DiagnosticsEvent::Flush => None,
                DiagnosticsEvent::Outcome(outcome) => description(outcome),
            }
        },
{
}

/// The timer runs exactly from the first failure until it fires.
pub proof fn timer_runs_from_failure_to_flush(events: Seq<DiagnosticsEvent>)
    ensures
        DiagnosticsView::fresh().after(events).flush_armed == failed_since_flush(events),
    decreases events.len(),
{
    if events.len() > 0 {
        timer_runs_from_failure_to_flush(events.drop_last());
    }
}

/// How often the timer was started since it fired last.
pub open spec fn starts_since_flush(events: Seq<DiagnosticsEvent>) -> nat
    decreases events.len(),
{
    if events.len() == 0 {
        0
    } else {
        match events.last() {
            DiagnosticsEvent::Flush => 0,
            DiagnosticsEvent::Outcome(outcome) => starts_since_flush(events.drop_last())
                + if DiagnosticsView::fresh().after(events.drop_last()).must_arm(outcome) {
                1nat
            } else {
                0nat
            },
        }
    }
}

/// Between two firings the timer is started once if there is a failure, and not at all otherwise.
/// So a burst of failures leads to one entry at most.
pub proof fn timer_is_started_once_per_burst(events: Seq<DiagnosticsEvent>)
    ensures
        starts_since_flush(events) == if failed_since_flush(events) {
            1nat
        } else {
            0nat
        },
    decreases events.len(),
{
    if events.len() > 0 {
        timer_is_started_once_per_burst(events.drop_last());
        timer_runs_from_failure_to_flush(events.drop_last());
    }
}

/// Whenever something is pending the timer is running, so that it will be reported.
pub proof fn pending_failure_will_be_reported(events: Seq<DiagnosticsEvent>)
    ensures
        DiagnosticsView::fresh().after(events).pending is Some ==> DiagnosticsView::fresh().after(
            events,
        ).flush_armed,
    decreases events.len(),
{
    if events.len() > 0 {
        pending_failure_will_be_reported(events.drop_last());
    }
}

/// Exactly these outcomes are described, whatever they carry: setting that failed, a level that was
/// not there afterwards, several panels, and a system that would not tell.
pub proof fn only_failures_are_described(outcome: ApplyOutcome)
    ensures
        description(outcome) is Some <==> {
            ||| outcome is AmbiguousInternalTargets
            ||| outcome is TopologyUnavailable
            ||| outcome is InspectionUnavailable
            ||| outcome is SetFailed
            ||| outcome is VerificationFailed
        },
{
}

/// The description of a write that failed ends with its status, as the eight hexadecimal digits of
/// its 32 bits.
pub proof fn failed_write_is_described_by_its_status(code: i32)
    ensures
        ({
            let bits: u32 = if code >= 0 {
                code as u32
            } else {
                (code + 0x1_0000_0000) as u32
            };
            let front = "reconcile: DisplayConfigSetDeviceInfo failed (HRESULT 0x"@;
            let digits = description(ApplyOutcome::SetFailed(code))->0.subrange(
                front.len() as int,
                front.len() as int + 8,
            );
            &&& description(ApplyOutcome::SetFailed(code))->0 == front + digits + ")"@
            &&& crate::text::hex_value(digits) == bits
        }),
{
    let front = "reconcile: DisplayConfigSetDeviceInfo failed (HRESULT 0x"@;
    let digits = hexadecimal(word(code) as nat, 8);
    let text = description(ApplyOutcome::SetFailed(code))->0;
    crate::text::eight_digits_hold_a_word(word(code));
    crate::packet::word_keeps_the_bits(code);
    assert(text =~= front + digits + ")"@);
    assert(text.subrange(front.len() as int, front.len() as int + 8) =~= digits);
}

/// The description of a level that was not there afterwards names the expected level and the one that
/// was read, or that none could be.
pub proof fn failed_verification_names_both_levels(expected: u32, observed: u32)
    ensures
        description(ApplyOutcome::VerificationFailed { expected, observed: Some(observed) })
            == Some(
            "reconcile: verification failed (expected SDR white level "@ + decimal(expected as nat)
                + ", read "@ + decimal(observed as nat) + ")"@,
        ),
        description(ApplyOutcome::VerificationFailed { expected, observed: None }) == Some(
            "reconcile: verification failed (expected SDR white level "@ + decimal(expected as nat)
                + ", read "@ + "unavailable"@ + ")"@,
        ),
{
}

/// Recording a failure makes it pending and starts the timer unless it runs; recording anything else
/// leaves nothing pending and the timer as it is. The timer's firing leaves nothing.
pub proof fn recording_and_flushing(state: DiagnosticsView, outcome: ApplyOutcome)
    ensures
        description(outcome) is Some ==> {
            &&& state.recorded(outcome).pending == description(outcome)
            &&& state.recorded(outcome).flush_armed
            &&& state.must_arm(outcome) <==> !state.flush_armed
        },
        description(outcome) is None ==> {
            &&& state.recorded(outcome).pending is None
            &&& state.recorded(outcome).flush_armed == state.flush_armed
            &&& !state.must_arm(outcome)
        },
        DiagnosticsView::fresh().pending is None && !DiagnosticsView::fresh().flush_armed,
{
}

/// The other failures are described by what could not be done.
pub proof fn failures_without_details_are_told_apart()
    ensures
        description(ApplyOutcome::AmbiguousInternalTargets) == Some(
            "reconcile: ambiguous internal HDR targets"@,
        ),
        description(ApplyOutcome::TopologyUnavailable) == Some(
            "reconcile: display topology query failed"@,
        ),
        description(ApplyOutcome::InspectionUnavailable) == Some(
            "reconcile: HDR target inspection failed"@,
        ),
{
}

} // verus!
