//! Recoveries of the display driver, as the event log reports them.

use vstd::prelude::*;
use windows_core::Error as WindowsError;

use crate::packet::word;
use crate::win32::{
    code_of_windows_error, hresult_from_win32, win32_hresult, windows_error_code, Error, Stage,
};

verus! {

/// The channel of the event log to which recoveries are written.
pub const CHANNEL: &'static str = "System";

/// The query that selects the recoveries: the display driver stopped responding and has recovered.
pub const QUERY: &'static str = "*[System[Provider[@Name='Display'] and (EventID=4101)]]";

/// How many events are taken at a time.
pub const BATCH_SIZE: usize = 16;

/// The system's code for there being no more events.
pub const NO_MORE_ITEMS: u32 = 259;

/// Whether an `HRESULT` says that there are no more events.
pub open spec fn is_no_more_items(code: i32) -> bool {
    word(code) == win32_hresult(NO_MORE_ITEMS)
}

/// What to do after an attempt to take events.
#[derive(Clone, Copy, Debug, PartialEq, Eq)]
pub enum DrainStep {
    /// Close the events that were taken, this many, and take more.
    Continue(usize),
    /// The events are drained, and there were some or not; or it failed.
    Done(Result<bool, Error>),
}

/// The events that were taken so far: whether there were any.
#[derive(Clone, Copy, Debug, PartialEq, Eq, Structural)]
pub struct Drain {
    pub observed: bool,
}

impl Drain {
    /// What an attempt leads to, given how many events it took or the code with which it failed.
    pub open spec fn spec_step(self, batch: Result<u32, i32>) -> DrainStep {
        match batch {
            Ok(returned) => DrainStep::Continue(
                if returned <= BATCH_SIZE {
                    returned as usize
                } else {
                    BATCH_SIZE
                },
            ),
            Err(code) => DrainStep::Done(
                if is_no_more_items(code) {
                    Ok(self.observed)
                } else {
                    Err(Error { stage: Stage::GpuResetSubscription, code })
                },
            ),
        }
    }

    /// The events taken after an attempt.
    pub open spec fn next(self, batch: Result<u32, i32>) -> Drain {
        Drain { observed: self.observed || (batch matches Ok(returned) && returned != 0) }
    }

    /// Nothing has been taken yet.
    pub open spec fn fresh() -> Drain {
        Drain { observed: false }
    }

    /// Nothing has been taken yet.
    pub fn new() -> (drain: Self)
        ensures
            drain == Drain::fresh(),
    {
        Drain { observed: false }
    }

    /// Takes the result of an attempt: how many events were taken, or the error object.
    pub fn drain(&mut self, batch: Result<u32, WindowsError>) -> (step: DrainStep)
        ensures
            ({
                let plain: Result<u32, i32> = match batch {
                    Ok(returned) => Ok(returned),
                    Err(error) => Err(windows_error_code(error)),
                };
                step == old(self).spec_step(plain) && *final(self) == old(self).next(plain)
            }),
    {
        let plain: Result<u32, i32> = match batch {
            Ok(returned) => Ok(returned),
            Err(error) => Err(code_of_windows_error(&error)),
        };
        self.drain_code(plain)
    }

    /// Takes the result of an attempt: how many events were taken, or the code of the failure.
    pub fn drain_code(&mut self, batch: Result<u32, i32>) -> (step: DrainStep)
        ensures
            step == old(self).spec_step(batch),
            *final(self) == old(self).next(batch),
            match batch {
                Ok(returned) => {
                    &&& step == DrainStep::Continue(
                        if returned <= 16 {
                            returned as usize
                        } else {
                            16
                        },
                    )
                    &&& final(self).observed <==> old(self).observed || returned > 0
                },
                Err(code) => {
                    &&& code == -2_147_024_637 ==> step == DrainStep::Done(Ok(old(self).observed))
                    &&& code != -2_147_024_637 ==> (step matches DrainStep::Done(Err(error))
                        && error.stage is GpuResetSubscription && error.code == code)
                    &&& *final(self) == *old(self)
                },
            },
    {
        match batch {
            Ok(returned) => {
                self.observed = self.observed || returned != 0;
                if returned <= BATCH_SIZE as u32 {
                    DrainStep::Continue(returned as usize)
                } else {
                    DrainStep::Continue(BATCH_SIZE)
                }
            },
            Err(code) => {
                let no_more: i32 = hresult_from_win32(NO_MORE_ITEMS);
                proof {
                    crate::packet::words_are_distinct(code, no_more);
                    one_code_ends_the_drain(*self, code);
                }
                if code == no_more {
                    DrainStep::Done(Ok(self.observed))
                } else {
                    DrainStep::Done(Err(Error::with_code(Stage::GpuResetSubscription, code)))
                }
            },
        }
    }

    /// The events taken after a number of attempts that succeeded.
    pub open spec fn after(self, batches: Seq<u32>) -> Drain
        decreases batches.len(),
    {
        if batches.len() == 0 {
            self
        } else {
            self.after(batches.drop_last()).next(Ok(batches.last()))
        }
    }
}

/// Draining tells that there was a recovery exactly if some attempt took one.
pub proof fn drain_observes_any_event(batches: Seq<u32>, code: i32)
    requires
        is_no_more_items(code),
    ensures
        Drain::fresh().after(batches).spec_step(Err(code)) == DrainStep::Done(
            Ok(exists|i: int| 0 <= i < batches.len() && #[trigger] batches[i] != 0),
        ),
    decreases batches.len(),
{
    if batches.len() > 0 {
        let before = batches.drop_last();
        drain_observes_any_event(before, code);
        if exists|i: int| 0 <= i < before.len() && #[trigger] before[i] != 0 {
            let i = choose|i: int| 0 <= i < before.len() && #[trigger] before[i] != 0;
            assert(batches[i] != 0);
        }
        if batches.last() != 0 {
            assert(batches[batches.len() - 1] != 0);
        }
        if exists|i: int| 0 <= i < batches.len() && #[trigger] batches[i] != 0 {
            let i = choose|i: int| 0 <= i < batches.len() && #[trigger] batches[i] != 0;
            if i < before.len() {
                assert(before[i] != 0);
            }
        }
    }
}

/// The only code that says that there are no more events is this one, and any other is a failure.
pub proof fn one_code_ends_the_drain(drain: Drain, code: i32)
    ensures
        is_no_more_items(code) <==> code == -2_147_024_637,
        code == -2_147_024_637 ==> drain.spec_step(Err(code)) == DrainStep::Done(Ok(drain.observed)),
        code != -2_147_024_637 ==> (drain.spec_step(Err(code)) matches DrainStep::Done(
            Err(error),
        ) && error.stage is GpuResetSubscription && error.code == code),
{
    crate::packet::word_keeps_the_bits(code);
}

} // verus!
