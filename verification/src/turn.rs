//! One turn of the event loop: the effects of a wake-up, one after the other and up to the first
//! that fails.

use vstd::prelude::*;

use crate::event_loop::{
    effect_if, Effect, EventLoop, LoopStep, MessageStep, WaitSource, Wake, WAIT_FAILED, WAIT_OBJECT_0,
};
use crate::win32::{Error, Stage};

verus! {

/// What came of an effect.
#[derive(Clone, Copy, Debug, PartialEq, Eq, Structural)]
pub enum EffectOutcome {
    Done,
    /// The event log was drained, and held recoveries of the display driver or not.
    Drained { observed: bool },
    /// The window messages were handled.
    Handled(MessageStep),
    Failed(Error),
}

/// What to do next.
#[derive(Clone, Copy, Debug, PartialEq, Eq)]
pub enum TurnStep {
    Perform(Effect),
    /// The turn is over, and the loop waits again.
    Wait,
    /// The loop is over.
    Finish(Result<(), Error>),
}

/// A turn of the event loop.
#[derive(Debug)]
pub struct Turn {
    effects: Vec<Effect>,
    position: usize,
    adjusting: bool,
    ended: Option<Result<(), Error>>,
}

/// A turn of the event loop, as mathematics sees it.
pub struct TurnView {
    /// The effects.
    pub effects: Seq<Effect>,
    /// How many of them were performed.
    pub position: int,
    /// Whether the white level may be changed.
    pub adjusting: bool,
    /// The loop's result, if the loop is over.
    pub ended: Option<Result<(), Error>>,
}

impl View for Turn {
    type V = TurnView;

    closed spec fn view(&self) -> TurnView {
        TurnView {
            effects: self.effects@,
            position: self.position as int,
            adjusting: self.adjusting,
            ended: self.ended,
        }
    }
}

impl TurnView {
    /// The turn for a source, at its start.
    pub open spec fn start(state: EventLoop, source: WaitSource) -> TurnView {
        TurnView {
            effects: state.effects(source),
            position: 0,
            adjusting: state.adjusting,
            ended: EventLoop::verdict(source),
        }
    }

    /// No more effects performed than there are; as many effects as memory can hold.
    pub open spec fn wf(self) -> bool {
        0 <= self.position <= self.effects.len() <= usize::MAX
    }

    /// What to do next.
    pub open spec fn step(self) -> TurnStep {
        match self.ended {
            Some(result) => TurnStep::Finish(result),
            None => if self.position < self.effects.len() {
                TurnStep::Perform(self.effects[self.position])
            } else {
                TurnStep::Wait
            },
        }
    }

    /// The turn with one more effect performed.
    pub open spec fn advanced(self) -> TurnView {
        TurnView { position: self.position + 1, ..self }
    }

    /// The turn and the loop are over.
    pub open spec fn finished(self, result: Result<(), Error>) -> TurnView {
        TurnView { ended: Some(result), ..self }
    }

    /// The turn after an effect.
    ///
    /// A failure is the loop's result. Recoveries of the display driver have the white level set. A
    /// window message that asks for it ends the loop.
    pub open spec fn next(self, outcome: EffectOutcome) -> TurnView {
        match self.step() {
            TurnStep::Perform(effect) => match outcome {
                EffectOutcome::Done => self.advanced(),
                EffectOutcome::Drained { observed } => TurnView {
                    effects: self.effects + effect_if(
                        effect == Effect::DrainGpuReset && observed && self.adjusting,
                        Effect::Reconcile,
                    ),
                    ..self.advanced()
                },
                EffectOutcome::Handled(step) => match step.verdict() {
                    Some(result) => self.finished(result),
                    None => self.advanced(),
                },
                EffectOutcome::Failed(error) => self.finished(Err(error)),
            },
            TurnStep::Wait | TurnStep::Finish(_) => self,
        }
    }

    /// The turn after a number of effects.
    pub open spec fn after(self, outcomes: Seq<EffectOutcome>) -> TurnView
        decreases outcomes.len(),
    {
        if outcomes.len() == 0 {
            self
        } else {
            self.after(outcomes.drop_last()).next(outcomes.last())
        }
    }

    /// The effects that were performed when a number of outcomes came.
    pub open spec fn performed(self, outcomes: Seq<EffectOutcome>) -> Seq<Effect>
        decreases outcomes.len(),
    {
        if outcomes.len() == 0 {
            seq![]
        } else {
            self.performed(outcomes.drop_last()) + match self.after(outcomes.drop_last()).step() {
                TurnStep::Perform(effect) => seq![effect],
                _ => seq![],
            }
        }
    }
}

impl Turn {
    /// Begins the turn for the result of a wait. `last_error` is the thread's last error code right
    /// after it.
    pub fn begin(state: &mut EventLoop, wait: u32, last_error: u32) -> (turn: Turn)
        ensures
            turn@.wf(),
            wait == WAIT_FAILED ==> (turn@.step() matches TurnStep::Finish(Err(error))
                && error.stage == Stage::EventWait && crate::packet::word(error.code)
                == last_error),
            WAIT_OBJECT_0 + 9 < wait < WAIT_FAILED ==> turn@.step() == TurnStep::Finish(
                Err(Error { stage: Stage::EventWait, code: 0 }),
            ),
            wait > WAIT_OBJECT_0 + 9 ==> *final(state) == *old(state),
            forall|source: WaitSource|
                #![trigger source.index()]
                wait == WAIT_OBJECT_0 + source.index() ==> turn@ == TurnView::start(
                    *old(state),
                    source,
                ) && *final(state) == old(state).next(source),
    {
        let adjusting: bool = state.adjusting;
        let ghost before = *state;
        match state.wake(wait, last_error) {
            LoopStep::Perform(effects) => {
                let turn = Turn { effects, position: 0, adjusting, ended: None };
                assert(turn.effects.len() <= usize::MAX);
                turn
            },
            LoopStep::Finish(result) => {
                let turn = Turn {
                    effects: Vec::new(),
                    position: 0,
                    adjusting,
                    ended: Some(result),
                };
                assert forall|source: WaitSource|
                    #![trigger source.index()]
                    wait == WAIT_OBJECT_0 + source.index() implies turn@ == TurnView::start(
                    before,
                    source,
                ) by {
                    assert(turn@.effects =~= before.effects(source));
                }
                turn
            },
        }
    }

    /// What to do next.
    pub fn step(&self) -> (step: TurnStep)
        requires
            self@.wf(),
        ensures
            step == self@.step(),
    {
        match self.ended {
            Some(result) => TurnStep::Finish(result),
            None => {
                if self.position < self.effects.len() {
                    TurnStep::Perform(self.effects[self.position])
                } else {
                    TurnStep::Wait
                }
            },
        }
    }

    /// Takes the outcome of the effect that was to be performed.
    pub fn complete(&mut self, outcome: EffectOutcome)
        requires
            old(self)@.wf(),
        ensures
            final(self)@ == old(self)@.next(outcome),
            final(self)@.wf(),
    {
        let effect: Effect = match self.step() {
            TurnStep::Perform(effect) => effect,
            _ => {
                return;
            },
        };
        match outcome {
            EffectOutcome::Done => {
                self.position = self.position + 1;
            },
            EffectOutcome::Drained { observed } => {
                self.position = self.position + 1;
                if effect == Effect::DrainGpuReset && observed && self.adjusting {
                    self.effects.push(Effect::Reconcile);
                }
                assert(self.effects.len() <= usize::MAX);
                assert(self@.effects =~= old(self)@.next(outcome).effects);
            },
            EffectOutcome::Handled(step) => match step.loop_step() {
                Some(LoopStep::Finish(result)) => {
                    self.ended = Some(result);
                },
                _ => {
                    self.position = self.position + 1;
                },
            },
            EffectOutcome::Failed(error) => {
                self.ended = Some(Err(error));
            },
        }
    }
}

/// What an effect comes to when it succeeds, the event log holding recoveries or not, and no window
/// message ending the loop.
pub open spec fn success(effect: Effect, observed: bool) -> EffectOutcome {
    match effect {
        Effect::DrainGpuReset => EffectOutcome::Drained { observed },
        Effect::DrainMessages => EffectOutcome::Handled(MessageStep::Drained),
        _ => EffectOutcome::Done,
    }
}

/// The outcomes of the first `count` effects of a wake-up, if they succeed.
pub open spec fn successes(state: EventLoop, wake: Wake, count: nat) -> Seq<EffectOutcome> {
    Seq::new(count, |i: int| success(state.wake_effects(wake)[i], wake.observed))
}

/// Draining the event log is the last effect of a source.
proof fn draining_comes_last(state: EventLoop, source: WaitSource)
    ensures
        forall|i: int|
            0 <= i < state.effects(source).len() && #[trigger] state.effects(source)[i]
                == Effect::DrainGpuReset ==> i == state.effects(source).len() - 1,
{
}

/// A turn with the effects `base` while everything succeeds, where `all` are the effects with what
/// follows the draining of the event log.
proof fn effects_are_performed(
    base: Seq<Effect>,
    all: Seq<Effect>,
    adjusting: bool,
    observed: bool,
    count: nat,
)
    requires
        forall|i: int|
            0 <= i < base.len() && #[trigger] base[i] == Effect::DrainGpuReset ==> i == base.len()
                - 1,
        all == base + effect_if(
            base.contains(Effect::DrainGpuReset) && observed && adjusting,
            Effect::Reconcile,
        ),
        count <= all.len(),
    ensures
        ({
            let start = TurnView { effects: base, position: 0, adjusting, ended: None };
            let outcomes = Seq::new(count, |i: int| success(all[i], observed));
            let turn = start.after(outcomes);
            &&& turn.position == count
            &&& turn.ended is None
            &&& turn.adjusting == adjusting
            &&& turn.effects == if count < base.len() {
                base
            } else {
                all
            }
            &&& start.performed(outcomes) == all.take(count as int)
        }),
    decreases count,
{
    let start = TurnView { effects: base, position: 0, adjusting, ended: None };
    let outcomes = Seq::new(count, |i: int| success(all[i], observed));
    if count == 0 {
        assert(all.take(0) =~= Seq::<Effect>::empty());
        if base.len() == 0 {
            assert(all =~= base);
        }
    } else {
        let shorter = Seq::new((count - 1) as nat, |i: int| success(all[i], observed));
        assert(outcomes.drop_last() =~= shorter);
        effects_are_performed(base, all, adjusting, observed, (count - 1) as nat);
        let turn = start.after(shorter);
        let effect = all[count - 1];
        assert(turn.effects[count - 1] == effect);
        assert(turn.step() == TurnStep::Perform(effect));
        assert(all.take(count as int) =~= all.take(count - 1).push(effect));
        assert(start.performed(outcomes) =~= all.take(count as int));
        assert(outcomes.last() == success(effect, observed));
        if effect == Effect::DrainGpuReset {
            assert(count <= base.len());
            assert(base[count - 1] == Effect::DrainGpuReset);
            assert(base.contains(Effect::DrainGpuReset));
            assert(turn.effects == base);
            assert(start.after(outcomes).effects =~= all);
        } else {
            assert(start.after(outcomes) == turn.advanced());
            if count == base.len() {
                if base.contains(Effect::DrainGpuReset) {
                    let i = choose|i: int| 0 <= i < base.len() && base[i] == Effect::DrainGpuReset;
                    assert(base[count - 1] == effect);
                }
                assert(all =~= base);
            }
        }
    }
}

/// The turn for a wake-up while everything succeeds.
proof fn turn_keeps_going(state: EventLoop, wake: Wake, count: nat)
    requires
        EventLoop::verdict(wake.source) is None,
        count <= state.wake_effects(wake).len(),
    ensures
        ({
            let turn = TurnView::start(state, wake.source).after(successes(state, wake, count));
            &&& turn.position == count
            &&& turn.ended is None
            &&& turn.effects == if count < state.effects(wake.source).len() {
                state.effects(wake.source)
            } else {
                state.wake_effects(wake)
            }
        }),
        TurnView::start(state, wake.source).performed(successes(state, wake, count))
            == state.wake_effects(wake).take(count as int),
{
    let base = state.effects(wake.source);
    let all = state.wake_effects(wake);
    draining_comes_last(state, wake.source);
    effects_are_performed(base, all, state.adjusting, wake.observed, count);
    assert(successes(state, wake, count) =~= Seq::new(
        count,
        |i: int| success(all[i], wake.observed),
    ));
}

/// A turn in which everything succeeds performs all effects of its wake-up, in their order, and then
/// the loop waits again.
pub proof fn turn_performs_every_effect(state: EventLoop, wake: Wake)
    requires
        EventLoop::verdict(wake.source) is None,
    ensures
        ({
            let outcomes = successes(state, wake, state.wake_effects(wake).len());
            let start = TurnView::start(state, wake.source);
            &&& start.performed(outcomes) == state.wake_effects(wake)
            &&& start.after(outcomes).step() == TurnStep::Wait
        }),
{
    let all = state.wake_effects(wake);
    turn_keeps_going(state, wake, all.len());
    assert(all.take(all.len() as int) =~= all);
}

/// Nothing follows the end of the loop.
proof fn ended_turn_stays(turn: TurnView, later: Seq<EffectOutcome>)
    requires
        turn.ended is Some,
    ensures
        turn.after(later) == turn,
        turn.performed(later) == Seq::<Effect>::empty(),
    decreases later.len(),
{
    if later.len() > 0 {
        ended_turn_stays(turn, later.drop_last());
        assert(turn.performed(later) =~= Seq::<Effect>::empty());
    }
}

/// Outcomes can be taken in two parts.
proof fn turn_in_two_parts(
    turn: TurnView,
    first: Seq<EffectOutcome>,
    second: Seq<EffectOutcome>,
)
    ensures
        turn.after(first + second) == turn.after(first).after(second),
        turn.performed(first + second) == turn.performed(first) + turn.after(first).performed(
            second,
        ),
    decreases second.len(),
{
    if second.len() == 0 {
        assert(first + second =~= first);
        assert(turn.performed(first) + turn.after(first).performed(second) =~= turn.performed(
            first,
        ));
    } else {
        turn_in_two_parts(turn, first, second.drop_last());
        assert((first + second).drop_last() =~= first + second.drop_last());
        assert(turn.performed(first + second) =~= turn.performed(first) + turn.after(
            first,
        ).performed(second));
    }
}

/// A failure ends a turn that has an effect to perform.
proof fn failure_is_the_last(turn: TurnView, error: Error, later: Seq<EffectOutcome>)
    requires
        turn.ended is None,
        turn.position < turn.effects.len(),
    ensures
        ({
            let outcomes = seq![EffectOutcome::Failed(error)] + later;
            &&& turn.after(outcomes) == turn.finished(Err(error))
            &&& turn.performed(outcomes) == seq![turn.effects[turn.position]]
        }),
{
    let failure = seq![EffectOutcome::Failed(error)];
    let effect = seq![turn.effects[turn.position]];
    turn_in_two_parts(turn, failure, later);
    assert(failure.drop_last() =~= Seq::<EffectOutcome>::empty());
    assert(turn.after(failure.drop_last()) == turn);
    assert(turn.performed(failure.drop_last()) =~= Seq::<Effect>::empty());
    assert(turn.after(failure) == turn.finished(Err(error)));
    assert(turn.performed(failure) =~= effect);
    ended_turn_stays(turn.finished(Err(error)), later);
    assert(effect + Seq::<Effect>::empty() =~= effect);
}

/// The first effect that fails is the last that is performed, and its failure is the loop's result,
/// whatever comes later.
pub proof fn first_failure_ends_the_loop(
    state: EventLoop,
    wake: Wake,
    count: nat,
    error: Error,
    later: Seq<EffectOutcome>,
)
    requires
        EventLoop::verdict(wake.source) is None,
        count < state.wake_effects(wake).len(),
    ensures
        ({
            let outcomes = successes(state, wake, count) + (seq![EffectOutcome::Failed(error)]
                + later);
            let start = TurnView::start(state, wake.source);
            &&& start.performed(outcomes) == state.wake_effects(wake).take(count as int + 1)
            &&& start.after(outcomes).step() == TurnStep::Finish(Err(error))
        }),
{
    let all = state.wake_effects(wake);
    let start = TurnView::start(state, wake.source);
    let before = successes(state, wake, count);
    let rest = seq![EffectOutcome::Failed(error)] + later;
    turn_keeps_going(state, wake, count);
    let turn = start.after(before);
    assert(turn.effects[count as int] == all[count as int]);
    failure_is_the_last(turn, error, later);
    turn_in_two_parts(start, before, rest);
    assert(all.take(count as int + 1) =~= all.take(count as int) + seq![all[count as int]]);
}

/// What an outcome of the effect that was to be performed leads to.
///
/// A failure and the message that ends the loop are the loop's result. Anything else leads to the
/// next effect. The white level is set in addition exactly if the event log was drained, recoveries
/// were observed, and the white level may be changed.
pub proof fn outcome_decides_the_turn(turn: TurnView, effect: Effect, outcome: EffectOutcome)
    requires
        turn.step() == TurnStep::Perform(effect),
    ensures
        ({
            let next = turn.next(outcome);
            let over = outcome is Failed || outcome == EffectOutcome::Handled(MessageStep::Quit);
            let follow_up = effect is DrainGpuReset && turn.adjusting && outcome == (
            EffectOutcome::Drained { observed: true });
            &&& outcome matches EffectOutcome::Failed(error) ==> next.step() == TurnStep::Finish(
                Err(error),
            )
            &&& outcome == EffectOutcome::Handled(MessageStep::Quit) ==> next.step()
                == TurnStep::Finish(Ok(()))
            &&& over <==> next.ended is Some
            &&& !over ==> next.position == turn.position + 1
            &&& follow_up ==> next.effects == turn.effects.push(Effect::Reconcile)
            &&& !follow_up ==> next.effects == turn.effects
            &&& next.adjusting == turn.adjusting
        }),
{
    assert(turn.effects + seq![Effect::Reconcile] =~= turn.effects.push(Effect::Reconcile));
    assert(turn.effects + Seq::<Effect>::empty() =~= turn.effects);
}

/// A turn begins with the first effect of its source, unless the source ends the loop; it goes through
/// the effects one by one; and behind the last of them the loop waits.
pub proof fn turn_goes_through_the_effects(turn: TurnView, state: EventLoop, source: WaitSource)
    ensures
        turn.ended matches Some(result) ==> turn.step() == TurnStep::Finish(result),
        turn.ended is None && turn.position < turn.effects.len() ==> turn.step()
            == TurnStep::Perform(turn.effects[turn.position]),
        turn.ended is None && turn.position >= turn.effects.len() ==> turn.step() is Wait,
        TurnView::start(state, source).position == 0,
        TurnView::start(state, source).effects == state.effects(source),
        TurnView::start(state, source).adjusting == state.adjusting,
        source is Exit ==> TurnView::start(state, source).step() == TurnStep::Finish(Ok(())),
        source is WmiFailure ==> (TurnView::start(state, source).step() matches TurnStep::Finish(
            Err(error),
        ) && error.stage is WmiSubscription && error.code == 0),
        !(source is Exit || source is WmiFailure) ==> TurnView::start(state, source).ended is None,
{
}

} // verus!
