//! The panel's brightness, as the system reports it.

use vstd::prelude::*;

use crate::win32::{Error, Stage};

verus! {

/// Where the brightness provider lives.
pub const NAMESPACE: &'static str = "ROOT\\WMI";

/// The query for brightness events.
pub const EVENT_QUERY: &'static str =
    "SELECT Active, Brightness, InstanceName FROM WmiMonitorBrightnessEvent";

/// The query for the brightness now.
pub const SNAPSHOT_QUERY: &'static str =
    "SELECT Active, CurrentBrightness, InstanceName FROM WmiMonitorBrightness WHERE Active = TRUE";

/// What the system says of one monitor.
#[derive(Clone, Copy, Debug, PartialEq, Eq, Structural)]
pub struct BrightnessRecord {
    pub active: bool,
    pub brightness: u8,
}

impl BrightnessRecord {
    /// Whether the record is about a monitor in use and its brightness is a percentage.
    pub open spec fn usable(self) -> bool {
        self.active && self.brightness <= 100
    }

    /// Whether the record is about a monitor in use and its brightness is a percentage.
    pub fn is_usable(&self) -> (result: bool)
        ensures
            result == self.usable(),
            result <==> self.active && self.brightness <= 100,
    {
        self.active && self.brightness <= 100
    }
}

/// Whether all usable records give the brightness `level`, and there is one.
pub open spec fn agreed_brightness(records: Seq<BrightnessRecord>, level: u8) -> bool {
    &&& exists|i: int| 0 <= i < records.len() && (#[trigger] records[i]).usable()
    &&& forall|i: int|
        0 <= i < records.len() && (#[trigger] records[i]).usable() ==> records[i].brightness
            == level
}

/// The brightness that all usable records agree on.
fn agreed(records: &Vec<BrightnessRecord>) -> (level: Option<u8>)
    ensures
        forall|value: u8| level == Some(value) <==> #[trigger] agreed_brightness(records@, value),
{
    let mut level: Option<u8> = None;
    let mut index: usize = 0;
    while index < records.len()
        invariant
            index <= records.len(),
            level is None ==> forall|i: int|
                0 <= i < index ==> !(#[trigger] records@[i]).usable(),
            level is Some ==> exists|i: int|
                0 <= i < index && (#[trigger] records@[i]).usable() && records@[i].brightness
                    == level->0,
            level is Some ==> forall|i: int|
                0 <= i < index && (#[trigger] records@[i]).usable() ==> records@[i].brightness
                    == level->0,
        decreases records.len() - index,
    {
        let record: BrightnessRecord = records[index];
        if record.is_usable() {
            match level {
                None => {
                    level = Some(record.brightness);
                    assert(records@[index as int].usable());
                },
                Some(first) => {
                    if record.brightness != first {
                        proof {
                            let i = choose|i: int|
                                0 <= i < index && (#[trigger] records@[i]).usable()
                                    && records@[i].brightness == first;
                            assert(records@[i].usable() && records@[index as int].usable());
                        }
                        return None;
                    }
                },
            }
        }
        index = index + 1;
    }
    level
}

/// The brightness that all usable records agree on. Records that disagree leave open which of them
/// is about the internal panel, so there is none then; nor if the records could not be read.
pub fn current_brightness(records: Option<Vec<BrightnessRecord>>) -> (level: Option<u8>)
    ensures
        forall|value: u8|
            level == Some(value) <==> records is Some && #[trigger] agreed_brightness(
                records->0@,
                value,
            ),
        level matches Some(value) ==> exists|i: int|
            0 <= i < records->0@.len() && (#[trigger] records->0@[i]).active
                && records->0@[i].brightness == value && value <= 100,
{
    match records {
        None => None,
        Some(records) => {
            let level: Option<u8> = agreed(&records);
            proof {
                if let Some(value) = level {
                    assert(agreed_brightness(records@, value));
                    brightness_is_what_active_monitors_agree_on(records@, value);
                }
            }
            level
        },
    }
}

/// One item of the stream of brightness events.
#[derive(Clone, Copy, Debug, PartialEq, Eq, Structural)]
pub enum WatchItem {
    Event(BrightnessRecord),
    /// An event that could not be read.
    Broken,
    /// The stream ended.
    Ended,
    /// The daemon wants the watch to end.
    Shutdown,
}

/// What an item leads to.
#[derive(Clone, Copy, Debug, PartialEq, Eq, Structural)]
pub enum WatchAction {
    /// Tell the daemon that the brightness changed, and go on.
    SignalBrightness,
    /// Go on.
    Ignore,
    /// Tell the daemon that there will be no more events, and stop.
    SignalFailure,
    Stop,
}

/// Decides about an item of the stream.
pub fn watch(item: WatchItem) -> (action: WatchAction)
    ensures
        action == match item {
            WatchItem::Event(record) => if record.usable() {
                WatchAction::SignalBrightness
            } else {
                WatchAction::Ignore
            },
            WatchItem::Broken | WatchItem::Ended => WatchAction::SignalFailure,
            WatchItem::Shutdown => WatchAction::Stop,
        },
        action is SignalBrightness <==> (item matches WatchItem::Event(record) && record.active
            && record.brightness <= 100),
        action is Ignore <==> (item matches WatchItem::Event(record) && !(record.active
            && record.brightness <= 100)),
{
    match item {
        WatchItem::Event(record) => {
            if record.is_usable() {
                WatchAction::SignalBrightness
            } else {
                WatchAction::Ignore
            }
        },
        WatchItem::Broken | WatchItem::Ended => WatchAction::SignalFailure,
        WatchItem::Shutdown => WatchAction::Stop,
    }
}

/// What the watching thread does, one after the other.
#[derive(Clone, Copy, Debug, PartialEq, Eq, Structural)]
pub enum WatcherStep {
    /// Ask to be treated as work in the background.
    ApplyPolicy,
    Connect,
    Subscribe,
    /// Tell the thread that started this one that all is well.
    ReportReady,
    /// Handle the stream's items until one ends the watch.
    Watch,
    /// Tell the thread that started this one what failed.
    ReportFailure(Error),
    Stop,
}

impl WatcherStep {
    /// What follows a step that succeeded or failed.
    pub open spec fn spec_next(self, succeeded: bool) -> WatcherStep {
        match self {
            WatcherStep::ApplyPolicy => if succeeded {
                WatcherStep::Connect
            } else {
                WatcherStep::ReportFailure(Error { stage: Stage::EventThreadPowerPolicy, code: 0 })
            },
            WatcherStep::Connect => if succeeded {
                WatcherStep::Subscribe
            } else {
                WatcherStep::ReportFailure(Error { stage: Stage::WmiSubscription, code: 0 })
            },
            WatcherStep::Subscribe => if succeeded {
                WatcherStep::ReportReady
            } else {
                WatcherStep::ReportFailure(Error { stage: Stage::WmiSubscription, code: 0 })
            },
            WatcherStep::ReportReady => if succeeded {
                WatcherStep::Watch
            } else {
                WatcherStep::Stop
            },
            WatcherStep::Watch | WatcherStep::ReportFailure(_) | WatcherStep::Stop => {
                WatcherStep::Stop
            },
        }
    }

    /// What follows a step that succeeded or failed.
    pub fn next(self, succeeded: bool) -> (next: WatcherStep)
        ensures
            next == self.spec_next(succeeded),
    {
        match self {
            WatcherStep::ApplyPolicy => {
                if succeeded {
                    WatcherStep::Connect
                } else {
                    WatcherStep::ReportFailure(Error::condition(Stage::EventThreadPowerPolicy))
                }
            },
            WatcherStep::Connect => {
                if succeeded {
                    WatcherStep::Subscribe
                } else {
                    WatcherStep::ReportFailure(Error::condition(Stage::WmiSubscription))
                }
            },
            WatcherStep::Subscribe => {
                if succeeded {
                    WatcherStep::ReportReady
                } else {
                    WatcherStep::ReportFailure(Error::condition(Stage::WmiSubscription))
                }
            },
            WatcherStep::ReportReady => {
                if succeeded {
                    WatcherStep::Watch
                } else {
                    WatcherStep::Stop
                }
            },
            WatcherStep::Watch | WatcherStep::ReportFailure(_) | WatcherStep::Stop => {
                WatcherStep::Stop
            },
        }
    }

    /// What follows a number of steps.
    pub open spec fn after(self, successes: Seq<bool>) -> WatcherStep
        decreases successes.len(),
    {
        if successes.len() == 0 {
            self
        } else {
            self.after(successes.drop_last()).spec_next(successes.last())
        }
    }
}

/// What the starting thread learns of the watching one.
#[derive(Clone, Copy, Debug, PartialEq, Eq, Structural)]
pub enum WatcherStart {
    /// There is no thread.
    NotSpawned,
    Ready,
    Failed(Error),
    /// The thread ended without a word.
    Silent,
}

/// What a start of the watch comes to. Where it failed, the thread has ended or is about to.
pub fn start_result(start: WatcherStart) -> (result: Result<(), Error>)
    ensures
        result == match start {
            WatcherStart::Ready => Ok::<(), Error>(()),
            WatcherStart::Failed(error) => Err(error),
            WatcherStart::NotSpawned | WatcherStart::Silent => Err(
                Error { stage: Stage::WmiSubscription, code: 0 },
            ),
        },
{
    match start {
        WatcherStart::Ready => Ok(()),
        WatcherStart::Failed(error) => Err(error),
        WatcherStart::NotSpawned | WatcherStart::Silent => Err(
            Error::condition(Stage::WmiSubscription),
        ),
    }
}

/// One brightness at most is agreed on.
pub proof fn agreed_brightness_is_unique(records: Seq<BrightnessRecord>, first: u8, second: u8)
    requires
        agreed_brightness(records, first),
        agreed_brightness(records, second),
    ensures
        first == second,
        first <= 100,
{
    let i = choose|i: int| 0 <= i < records.len() && (#[trigger] records[i]).usable();
    assert(records[i].usable());
}

/// The stream is watched only after everything before it succeeded: four steps, none of which
/// failed.
pub proof fn watch_needs_every_step(successes: Seq<bool>)
    ensures
        WatcherStep::ApplyPolicy.after(successes) == WatcherStep::Watch <==> successes == seq![
            true,
            true,
            true,
            true,
        ],
{
    reveal_with_fuel(WatcherStep::after, 6);
    if successes.len() > 4 {
        watch_is_over_after(successes);
    } else {
        let s = successes;
        if s.len() == 4 {
            assert(s.drop_last().drop_last().drop_last().drop_last() =~= Seq::<bool>::empty());
            assert(s == seq![true, true, true, true] <==> s[0] && s[1] && s[2] && s[3]) by {
                if s[0] && s[1] && s[2] && s[3] {
                    assert(s =~= seq![true, true, true, true]);
                }
            }
        }
    }
}

/// After five steps the thread has stopped.
proof fn watch_is_over_after(successes: Seq<bool>)
    requires
        successes.len() > 4,
    ensures
        WatcherStep::ApplyPolicy.after(successes) == WatcherStep::Stop,
    decreases successes.len(),
{
    reveal_with_fuel(WatcherStep::after, 6);
    if successes.len() > 5 {
        watch_is_over_after(successes.drop_last());
    }
}

/// A record counts exactly if its monitor is in use and its brightness is a percentage, whatever the
/// percentage is.
pub proof fn every_percentage_of_an_active_monitor_counts(record: BrightnessRecord)
    ensures
        record.usable() <==> record.active && 0 <= record.brightness <= 100,
{
}

/// One active monitor gives its brightness, for every percentage; one that is not in use, or whose
/// brightness is no percentage, gives none.
pub proof fn single_monitor_gives_its_brightness(record: BrightnessRecord, level: u8)
    ensures
        agreed_brightness(seq![record], level) <==> record.active && record.brightness <= 100
            && record.brightness == level,
{
    let records = seq![record];
    if record.active && record.brightness <= 100 {
        assert(records[0].usable());
    }
}

/// A brightness is agreed on exactly if some monitor in use has it and no other monitor in use has
/// another percentage.
pub proof fn brightness_is_what_active_monitors_agree_on(
    records: Seq<BrightnessRecord>,
    level: u8,
)
    ensures
        agreed_brightness(records, level) <==> {
            &&& level <= 100
            &&& exists|i: int|
                0 <= i < records.len() && (#[trigger] records[i]).active && records[i].brightness
                    == level
            &&& forall|i: int|
                0 <= i < records.len() && (#[trigger] records[i]).active && records[i].brightness
                    <= 100 ==> records[i].brightness == level
        },
{
    if agreed_brightness(records, level) {
        let i = choose|i: int| 0 <= i < records.len() && (#[trigger] records[i]).usable();
        assert(records[i].active && records[i].brightness == level);
        assert forall|k: int|
            0 <= k < records.len() && (#[trigger] records[k]).active && records[k].brightness
                <= 100 implies records[k].brightness == level by {
            assert(records[k].usable());
        }
    }
    if level <= 100 && (exists|i: int|
        0 <= i < records.len() && (#[trigger] records[i]).active && records[i].brightness == level)
        && (forall|i: int|
        0 <= i < records.len() && (#[trigger] records[i]).active && records[i].brightness <= 100
            ==> records[i].brightness == level) {
        let i = choose|i: int|
            0 <= i < records.len() && (#[trigger] records[i]).active && records[i].brightness
                == level;
        assert(records[i].usable());
    }
}

/// Records that do not count make no difference.
pub proof fn unusable_records_make_no_difference(
    records: Seq<BrightnessRecord>,
    record: BrightnessRecord,
    level: u8,
)
    requires
        !record.active || record.brightness > 100,
    ensures
        agreed_brightness(records.push(record), level) == agreed_brightness(records, level),
{
    let more = records.push(record);
    assert forall|i: int| 0 <= i < records.len() implies more[i] == records[i] by {}
    if agreed_brightness(records, level) {
        let i = choose|i: int| 0 <= i < records.len() && (#[trigger] records[i]).usable();
        assert(more[i].usable());
    }
    if agreed_brightness(more, level) {
        let i = choose|i: int| 0 <= i < more.len() && (#[trigger] more[i]).usable();
        assert(records[i].usable());
        assert forall|k: int| 0 <= k < records.len() && (#[trigger] records[k]).usable() implies
            records[k].brightness == level by {
            assert(more[k].usable());
        }
    }
}

/// How the watching thread goes on. A failure before the stream is there is told to the thread that
/// started it, under the stage that it belongs to; after that there is nobody to tell.
pub proof fn watcher_goes_on_or_tells_why(step: WatcherStep, succeeded: bool)
    ensures
        ({
            let next = step.spec_next(succeeded);
            &&& step is ApplyPolicy && succeeded ==> next is Connect
            &&& step is Connect && succeeded ==> next is Subscribe
            &&& step is Subscribe && succeeded ==> next is ReportReady
            &&& step is ReportReady && succeeded ==> next is Watch
            &&& step is ApplyPolicy && !succeeded ==> (next matches WatcherStep::ReportFailure(
                error,
            ) && error.stage is EventThreadPowerPolicy && error.code == 0)
            &&& (step is Connect || step is Subscribe) && !succeeded ==> (
            next matches WatcherStep::ReportFailure(error) && error.stage is WmiSubscription
                && error.code == 0)
            &&& step is ReportReady && !succeeded ==> next is Stop
            &&& step is Watch || step is ReportFailure || step is Stop ==> next is Stop
        }),
{
}

} // verus!
