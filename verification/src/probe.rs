//! Probe mode: the operator sets the slider to given positions, and the white level that the
//! system reports at each is recorded. Also the command line, which selects the mode.

use vstd::prelude::*;

use crate::calibration::{encode_sdr_white_level, white_level};
use crate::csv::Row;
use crate::display::{ProbeOutcome, ProbeSample};
use crate::text::{
    byte_value, contents, decimal, fields, joined, parse_byte, same_text, signed_decimal, split,
    strip_prefix, truth,
};
use crate::win32::{Error, Stage};

verus! {

/// The positions that are probed unless others are given.
pub const DEFAULT_POSITIONS: [u8; 5] = [0, 25, 50, 75, 100];

/// The directory of the log, inside the user's local application data.
pub const LOG_DIRECTORY: &'static str = "Calibrator";

/// The name of the log.
pub const LOG_FILE: &'static str = "hdr-sdr-white-level-probe.csv";

/// The first line of the log.
pub const LOG_HEADER: &'static str =
    "epoch_ms,session,sequence,slider_position,adapter_low,adapter_high,target_id,raw_sdr_white_level,expected_sdr_white_level,encoding_matches,status";

/// The positions of a probe session.
#[derive(Debug)]
pub struct ProbeConfig {
    pub positions: Vec<u8>,
}

/// What the program is to do.
#[derive(Debug)]
pub enum RunConfig {
    Adjust,
    Probe(ProbeConfig),
}

/// Positions that can be probed: two or more, none above 100, each above the one before.
pub open spec fn valid_positions(positions: Seq<u8>) -> bool {
    &&& positions.len() >= 2
    &&& forall|i: int| 0 <= i < positions.len() ==> #[trigger] positions[i] <= 100
    &&& forall|i: int, j: int| 0 <= i < j < positions.len() ==> positions[i] < positions[j]
}

/// The numbers that the parts of a text stand for, if all of them stand for one.
pub open spec fn byte_values(parts: Seq<Seq<char>>) -> Option<Seq<u8>> {
    if forall|i: int| 0 <= i < parts.len() ==> byte_value(#[trigger] parts[i]) is Some {
        Some(parts.map_values(|part: Seq<char>| byte_value(part)->0))
    } else {
        None
    }
}

/// The positions that a list with commas stands for, if it is one that can be probed.
pub open spec fn listed_positions(text: Seq<char>) -> Option<Seq<u8>> {
    match byte_values(fields(text, ',')) {
        Some(positions) => if valid_positions(positions) {
            Some(positions)
        } else {
            None
        },
        None => None,
    }
}

/// Whether positions can be probed.
fn are_valid_positions(positions: &Vec<u8>) -> (result: bool)
    ensures
        result == valid_positions(positions@),
{
    if positions.len() < 2 {
        return false;
    }
    let mut index: usize = 0;
    while index < positions.len()
        invariant
            index <= positions.len(),
            forall|i: int| 0 <= i < index ==> #[trigger] positions@[i] <= 100,
            forall|i: int, j: int| 0 <= i < j < index ==> positions@[i] < positions@[j],
        decreases positions.len() - index,
    {
        if positions[index] > 100 {
            return false;
        }
        if index > 0 && positions[index - 1] >= positions[index] {
            assert(!(positions@[index - 1] < positions@[index as int]));
            return false;
        }
        assert forall|i: int| 0 <= i < index implies positions@[i] < positions@[index as int] by {
            if i < index - 1 {
                assert(positions@[i] < positions@[index - 1]);
            }
        }
        index = index + 1;
    }
    true
}

/// Reads positions from a list with commas.
pub fn parse_positions(values: &str) -> (result: Result<Vec<u8>, ()>)
    ensures
        result is Ok <==> listed_positions(values@) is Some,
        result is Ok ==> result->Ok_0@ == listed_positions(values@)->0,
        result matches Ok(positions) ==> {
            &&& positions@.len() >= 2
            &&& positions@.len() == fields(values@, ',').len()
            &&& forall|i: int|
                0 <= i < positions@.len() ==> #[trigger] positions@[i] <= 100 && byte_value(
                    fields(values@, ',')[i],
                ) == Some(positions@[i])
            &&& forall|i: int, j: int|
                0 <= i < j < positions@.len() ==> positions@[i] < positions@[j]
        },
{
    let parts = split(values, ',');
    let ghost texts = fields(values@, ',');
    assert(texts == contents(parts@));
    let mut positions: Vec<u8> = Vec::new();
    let mut index: usize = 0;
    while index < parts.len()
        invariant
            texts == fields(values@, ','),
            texts == contents(parts@),
            index <= parts.len(),
            positions.len() == index,
            forall|i: int|
                0 <= i < index ==> byte_value(#[trigger] texts[i]) == Some(positions@[i]),
        decreases parts.len() - index,
    {
        assert(texts[index as int] == parts@[index as int]@);
        match parse_byte(&parts[index]) {
            Some(position) => positions.push(position),
            None => {
                assert(byte_value(texts[index as int]) is None);
                return Err(());
            },
        }
        index = index + 1;
    }
    assert(byte_values(texts) is Some);
    assert(byte_values(texts)->0 =~= positions@);
    assert(positions@.len() == texts.len());
    assert forall|i: int| 0 <= i < positions@.len() implies byte_value(texts[i]) == Some(
        #[trigger] positions@[i],
    ) by {}
    if are_valid_positions(&positions) {
        Ok(positions)
    } else {
        Err(())
    }
}

/// The positions that an argument asks for. There are none if the argument is not a text or not
/// one that is understood.
pub open spec fn requested_positions(argument: Option<Seq<char>>) -> Option<Seq<u8>> {
    match argument {
        None => None,
        Some(text) => if text == "--probe"@ {
            Some(DEFAULT_POSITIONS@)
        } else {
            match crate::text::after_prefix(text, "--probe="@) {
                Some(list) => listed_positions(list),
                None => None,
            }
        },
    }
}

/// The text of an argument.
pub open spec fn argument_text(argument: Option<String>) -> Option<Seq<char>> {
    match argument {
        Some(text) => Some(text@),
        None => None,
    }
}

/// The positions that an argument asks for.
fn positions_of_argument(argument: &Option<String>) -> (result: Option<Vec<u8>>)
    ensures
        result is Some <==> requested_positions(argument_text(*argument)) is Some,
        result is Some ==> result->0@ == requested_positions(argument_text(*argument))->0,
{
    match argument {
        None => None,
        Some(text) => {
            if same_text(text.as_str(), "--probe") {
                let positions: Vec<u8> = vec![0, 25, 50, 75, 100];
                assert(positions@ =~= DEFAULT_POSITIONS@);
                Some(positions)
            } else {
                match strip_prefix(text.as_str(), "--probe=") {
                    Some(values) => match parse_positions(values) {
                        Ok(positions) => Some(positions),
                        Err(()) => None,
                    },
                    None => None,
                }
            }
        },
    }
}

/// Reads the command line. An argument that is not a text is given as `None`.
///
/// Without arguments the brightness is adjusted. One argument selects probe mode. Anything else
/// is refused.
pub fn parse_arguments(arguments: &Vec<Option<String>>) -> (result: Result<RunConfig, ()>)
    ensures
        result matches Ok(RunConfig::Adjust) <==> arguments@.len() == 0,
        result matches Ok(RunConfig::Probe(_)) <==> arguments@.len() == 1 && requested_positions(
            argument_text(arguments@[0]),
        ) is Some,
        result matches Ok(RunConfig::Probe(config)) ==> config.positions@ == requested_positions(
            argument_text(arguments@[0]),
        )->0,
{
    if arguments.len() == 0 {
        return Ok(RunConfig::Adjust);
    }
    if arguments.len() > 1 {
        return Err(());
    }
    match positions_of_argument(&arguments[0]) {
        Some(positions) => Ok(RunConfig::Probe(ProbeConfig { positions })),
        None => Err(()),
    }
}

impl RunConfig {
    /// Reads the command line, and reports a refusal as a failure of the program.
    pub fn from_arguments(arguments: &Vec<Option<String>>) -> (result: Result<Self, Error>)
        ensures
            result matches Ok(RunConfig::Adjust) <==> arguments@.len() == 0,
            result matches Ok(RunConfig::Probe(_)) <==> arguments@.len() == 1
                && requested_positions(argument_text(arguments@[0])) is Some,
            result matches Ok(RunConfig::Probe(config)) ==> config.positions@
                == requested_positions(argument_text(arguments@[0]))->0,
            result matches Err(error) ==> error == (Error {
                stage: Stage::ProbeConfiguration,
                code: 0,
            }),
    {
        match parse_arguments(arguments) {
            Ok(config) => Ok(config),
            Err(()) => Err(Error::condition(Stage::ProbeConfiguration)),
        }
    }

    /// Whether the program may change the white level.
    pub fn adjustment_enabled(&self) -> (result: bool)
        ensures
            result == (*self is Adjust),
    {
        match self {
            RunConfig::Adjust => true,
            RunConfig::Probe(_) => false,
        }
    }
}

/// The values of the row for a sample.
pub open spec fn sample_values(
    epoch: u128,
    session: u128,
    sequence: usize,
    position: u8,
    expected: u32,
    sample: ProbeSample,
    matches: bool,
) -> Seq<Seq<char>> {
    seq![
        decimal(epoch as nat),
        decimal(session as nat),
        decimal(sequence as nat),
        decimal(position as nat),
        decimal(sample.adapter_low as nat),
        signed_decimal(sample.adapter_high as int),
        decimal(sample.target_id as nat),
        decimal(sample.raw_white_level as nat),
        decimal(expected as nat),
        truth(matches),
        "sample"@,
    ]
}

/// The row for a sample.
pub fn sample_line(
    epoch: u128,
    session: u128,
    sequence: usize,
    position: u8,
    expected: u32,
    sample: ProbeSample,
    matches: bool,
) -> (line: String)
    ensures
        line@ == joined(
            sample_values(epoch, session, sequence, position, expected, sample, matches),
            ',',
        ),
{
    let row = Row::start(epoch).number(session).number(sequence as u128).number(
        position as u128,
    ).number(sample.adapter_low as u128).signed(sample.adapter_high).number(
        sample.target_id as u128,
    ).number(sample.raw_white_level as u128).number(expected as u128).boolean(matches).text(
        "sample",
    );
    assert(row.values() =~= sample_values(
        epoch,
        session,
        sequence,
        position,
        expected,
        sample,
        matches,
    ));
    row.finish()
}

/// The values of the row for an attempt without a sample.
pub open spec fn unavailable_values(
    epoch: u128,
    session: u128,
    sequence: usize,
    position: u8,
    expected: u32,
    status: Seq<char>,
) -> Seq<Seq<char>> {
    seq![
        decimal(epoch as nat),
        decimal(session as nat),
        decimal(sequence as nat),
        decimal(position as nat),
        seq![],
        seq![],
        seq![],
        seq![],
        decimal(expected as nat),
        "false"@,
        status,
    ]
}

/// The row for an attempt without a sample.
pub fn unavailable_line(
    epoch: u128,
    session: u128,
    sequence: usize,
    position: u8,
    expected: u32,
    status: &str,
) -> (line: String)
    ensures
        line@ == joined(
            unavailable_values(epoch, session, sequence, position, expected, status@),
            ',',
        ),
{
    let row = Row::start(epoch).number(session).number(sequence as u128).number(
        position as u128,
    ).empty().empty().empty().empty().number(expected as u128).boolean(false).text(status);
    assert(row.values() =~= unavailable_values(
        epoch,
        session,
        sequence,
        position,
        expected,
        status@,
    ));
    row.finish()
}

/// How the log calls an attempt without a sample.
pub open spec fn status_of(outcome: ProbeOutcome) -> Seq<char> {
    match outcome {
        ProbeOutcome::Sample(_) => "sample"@,
        ProbeOutcome::NoHdrTarget => "no_hdr_internal_target"@,
        ProbeOutcome::AmbiguousInternalTargets => "ambiguous_internal_targets"@,
        ProbeOutcome::TopologyUnavailable => "topology_unavailable"@,
        ProbeOutcome::InspectionUnavailable => "inspection_unavailable"@,
    }
}

/// Whether the log lacks its first line: it does not exist, or is empty.
pub fn needs_header(log_length: Option<u64>) -> (result: bool)
    ensures
        result == (log_length is None || log_length == Some(0u64)),
{
    match log_length {
        None => true,
        Some(length) => length == 0,
    }
}

/// Decides whether the log can be placed below a directory of which only the name's length is
/// known: a directory without a name, or none at all, will not do.
pub fn check_log_base(name_length: Option<usize>) -> (result: Result<(), Error>)
    ensures
        result is Ok <==> name_length is Some && name_length->0 != 0,
        result matches Err(error) ==> error == (Error { stage: Stage::ProbeLog, code: 0 }),
{
    match name_length {
        Some(length) => {
            if length == 0 {
                Err(Error::condition(Stage::ProbeLog))
            } else {
                Ok(())
            }
        },
        None => Err(Error::condition(Stage::ProbeLog)),
    }
}

/// How the log comes to be.
#[derive(Clone, Copy, Debug, PartialEq, Eq, Structural)]
pub enum LogStep {
    CreateDirectory,
    /// Look how long the log is, if there is one.
    Inspect,
    /// Open the log, or create it, to write behind what is there.
    Open { needs_header: bool },
    WriteHeader,
    FlushHeader,
    Ready,
    Failed(Error),
}

/// What came of a step.
#[derive(Clone, Copy, Debug, PartialEq, Eq, Structural)]
pub enum LogOutcome {
    Succeeded,
    /// The length of the log, if there is one.
    Length(Option<u64>),
    Failed,
}

impl LogStep {
    /// The failure of the log.
    pub open spec fn failed() -> LogStep {
        LogStep::Failed(Error { stage: Stage::ProbeLog, code: 0 })
    }

    /// The first step, where the log is to be placed below a directory whose name has this length.
    pub open spec fn first(name_length: Option<usize>) -> LogStep {
        match name_length {
            Some(length) => if length != 0 {
                LogStep::CreateDirectory
            } else {
                LogStep::failed()
            },
            None => LogStep::failed(),
        }
    }

    /// What follows a step. A log whose length cannot be read counts as missing.
    pub open spec fn spec_next(self, outcome: LogOutcome) -> LogStep {
        match self {
            LogStep::Inspect => LogStep::Open {
                needs_header: match outcome {
                    LogOutcome::Length(Some(length)) => length == 0,
                    _ => true,
                },
            },
            LogStep::Ready | LogStep::Failed(_) => self,
            _ => if outcome is Failed {
                LogStep::failed()
            } else {
                match self {
                    LogStep::CreateDirectory => LogStep::Inspect,
                    LogStep::Open { needs_header } => if needs_header {
                        LogStep::WriteHeader
                    } else {
                        LogStep::Ready
                    },
                    LogStep::WriteHeader => LogStep::FlushHeader,
                    _ => LogStep::Ready,
                }
            },
        }
    }

    /// Begins, with the length of the name of the directory below which the log is to be placed.
    pub fn begin(name_length: Option<usize>) -> (step: LogStep)
        ensures
            step == LogStep::first(name_length),
    {
        match check_log_base(name_length) {
            Ok(()) => LogStep::CreateDirectory,
            Err(error) => LogStep::Failed(error),
        }
    }

    /// What follows a step.
    pub fn next(self, outcome: LogOutcome) -> (next: LogStep)
        ensures
            next == self.spec_next(outcome),
    {
        match self {
            LogStep::Inspect => {
                let length: Option<u64> = match outcome {
                    LogOutcome::Length(length) => length,
                    _ => None,
                };
                LogStep::Open { needs_header: needs_header(length) }
            },
            LogStep::Ready | LogStep::Failed(_) => self,
            _ => {
                if let LogOutcome::Failed = outcome {
                    return LogStep::Failed(Error::condition(Stage::ProbeLog));
                }
                match self {
                    LogStep::CreateDirectory => LogStep::Inspect,
                    LogStep::Open { needs_header } => {
                        if needs_header {
                            LogStep::WriteHeader
                        } else {
                            LogStep::Ready
                        }
                    },
                    LogStep::WriteHeader => LogStep::FlushHeader,
                    _ => LogStep::Ready,
                }
            },
        }
    }
}

/// A probe session.
#[derive(Debug)]
pub struct ProbeRecorder {
    positions: Vec<u8>,
    next: usize,
    session: u128,
}

/// A probe session, as mathematics sees it: the positions, how many have their sample, and the
/// number that tells sessions apart in the log.
pub struct RecorderView {
    pub positions: Seq<u8>,
    pub next: int,
    pub session: u128,
}

impl View for ProbeRecorder {
    type V = RecorderView;

    closed spec fn view(&self) -> RecorderView {
        RecorderView { positions: self.positions@, next: self.next as int, session: self.session }
    }
}

impl RecorderView {
    /// No more samples than positions; as many positions as memory can hold.
    pub open spec fn wf(self) -> bool {
        0 <= self.next <= self.positions.len() <= usize::MAX
    }

    /// The position that the operator is to set next.
    pub open spec fn next_position(self) -> Option<u8> {
        if self.next < self.positions.len() {
            Some(self.positions[self.next])
        } else {
            None
        }
    }

    /// The line that an attempt adds to the log; none when all positions have their sample.
    pub open spec fn line(self, epoch: u128, outcome: ProbeOutcome) -> Option<Seq<char>> {
        match self.next_position() {
            None => None,
            Some(position) => {
                let expected = white_level(position as int) as u32;
                let sequence = (self.next + 1) as usize;
                Some(
                    joined(
                        match outcome {
                            ProbeOutcome::Sample(sample) => sample_values(
                                epoch,
                                self.session,
                                sequence,
                                position,
                                expected,
                                sample,
                                sample.raw_white_level == expected,
                            ),
                            _ => unavailable_values(
                                epoch,
                                self.session,
                                sequence,
                                position,
                                expected,
                                status_of(outcome),
                            ),
                        },
                        ',',
                    ),
                )
            },
        }
    }

    /// The session after an attempt whose line was written: a sample is counted, anything else
    /// leaves the position to be tried again.
    pub open spec fn recorded(self, outcome: ProbeOutcome) -> RecorderView {
        if self.next < self.positions.len() && outcome is Sample {
            RecorderView { next: self.next + 1, ..self }
        } else {
            self
        }
    }

    /// The session after a number of attempts.
    pub open spec fn after(self, outcomes: Seq<ProbeOutcome>) -> RecorderView
        decreases outcomes.len(),
    {
        if outcomes.len() == 0 {
            self
        } else {
            self.after(outcomes.drop_last()).recorded(outcomes.last())
        }
    }
}

impl ProbeRecorder {
    /// A session that begins now.
    pub fn create(config: ProbeConfig, session: u128) -> (recorder: Self)
        ensures
            recorder@ == (RecorderView { positions: config.positions@, next: 0, session }),
            recorder@.wf(),
    {
        let recorder = ProbeRecorder { positions: config.positions, next: 0, session };
        assert(recorder.positions.len() <= usize::MAX);
        recorder
    }

    /// The position that the operator is to set next.
    pub fn next_position(&self) -> (position: Option<u8>)
        requires
            self@.wf(),
        ensures
            position == self@.next_position(),
    {
        if self.next < self.positions.len() {
            Some(self.positions[self.next])
        } else {
            None
        }
    }

    /// The line that an attempt adds to the log.
    pub fn pending_line(&self, epoch: u128, outcome: ProbeOutcome) -> (line: Option<String>)
        requires
            self@.wf(),
        ensures
            line is Some <==> self@.line(epoch, outcome) is Some,
            line is Some ==> line->0@ == self@.line(epoch, outcome)->0,
    {
        let position: u8 = match self.next_position() {
            None => {
                return None;
            },
            Some(position) => position,
        };
        let expected: u32 = encode_sdr_white_level(position);
        let sequence: usize = self.next + 1;
        let status: &str = match outcome {
            ProbeOutcome::Sample(sample) => {
                let matches: bool = sample.raw_white_level == expected;
                let line = sample_line(
                    epoch,
                    self.session,
                    sequence,
                    position,
                    expected,
                    sample,
                    matches,
                );
                return Some(line);
            },
            ProbeOutcome::NoHdrTarget => "no_hdr_internal_target",
            ProbeOutcome::AmbiguousInternalTargets => "ambiguous_internal_targets",
            ProbeOutcome::TopologyUnavailable => "topology_unavailable",
            ProbeOutcome::InspectionUnavailable => "inspection_unavailable",
        };
        Some(unavailable_line(epoch, self.session, sequence, position, expected, status))
    }

    /// Notes an attempt: whether its line could be written, and whether what was written then
    /// reached the disk. Either is a failure if it did not work. An attempt whose line was written
    /// counts. When all positions have their sample there is no line, and nothing to fail.
    pub fn record(&mut self, outcome: ProbeOutcome, written: bool, flushed: bool) -> (result:
        Result<(), Error>)
        requires
            old(self)@.wf(),
        ensures
            final(self)@.wf(),
            result is Ok <==> (written && flushed) || old(self)@.next_position() is None,
            final(self)@ == if written {
                old(self)@.recorded(outcome)
            } else {
                old(self)@
            },
            result matches Err(error) ==> error == (Error { stage: Stage::ProbeLog, code: 0 }),
    {
        if self.next >= self.positions.len() {
            return Ok(());
        }
        if !written {
            return Err(Error::condition(Stage::ProbeLog));
        }
        if let ProbeOutcome::Sample(_) = outcome {
            self.next = self.next + 1;
        }
        self.finish(flushed)
    }

    /// Ends the session, or an attempt: what was written has to reach the disk.
    pub fn finish(&self, flushed: bool) -> (result: Result<(), Error>)
        ensures
            result is Ok <==> flushed,
            result matches Err(error) ==> error == (Error { stage: Stage::ProbeLog, code: 0 }),
    {
        if flushed {
            Ok(())
        } else {
            Err(Error::condition(Stage::ProbeLog))
        }
    }
}

/// The log gets a header exactly if it is new or empty, and it is ready then if both the header
/// could be written and it reached the disk.
pub proof fn new_log_gets_its_header(length: Option<u64>, written: LogOutcome, flushed: LogOutcome)
    ensures
        ({
            let opened = LogStep::CreateDirectory.spec_next(LogOutcome::Succeeded).spec_next(
                LogOutcome::Length(length),
            ).spec_next(LogOutcome::Succeeded);
            if length is None || length == Some(0u64) {
                &&& opened == LogStep::WriteHeader
                &&& opened.spec_next(written).spec_next(flushed) == if written is Failed
                    || flushed is Failed {
                    LogStep::failed()
                } else {
                    LogStep::Ready
                }
            } else {
                opened == LogStep::Ready
            }
        }),
{
}

/// Every command line that selects probe mode gives positions that can be probed.
pub proof fn requested_positions_are_valid(argument: Option<Seq<char>>)
    ensures
        requested_positions(argument) matches Some(positions) ==> valid_positions(positions),
{
}

/// Every sequence of positions that can be probed can be asked for: written in decimal with commas
/// between them, the positions are read back.
pub proof fn listed_positions_are_read_back(positions: Seq<u8>)
    requires
        valid_positions(positions),
    ensures
        listed_positions(
            joined(positions.map_values(|position: u8| decimal(position as nat)), ','),
        ) == Some(positions),
{
    let parts = positions.map_values(|position: u8| decimal(position as nat));
    assert forall|i: int| 0 <= i < parts.len() implies !(#[trigger] parts[i]).contains(',') by {
        decimal_has_no_comma(positions[i] as nat);
    }
    crate::text::fields_of_joined(parts, ',');
    assert forall|i: int| 0 <= i < parts.len() implies byte_value(#[trigger] parts[i]) == Some(
        positions[i],
    ) by {
        crate::text::decimal_is_read_back(positions[i] as nat);
    }
    assert(byte_values(parts) is Some);
    assert(byte_values(parts)->0 =~= positions);
}

proof fn decimal_has_no_comma(value: nat)
    ensures
        !decimal(value).contains(','),
{
    crate::text::decimal_is_read_back(value);
    assert forall|i: int| 0 <= i < decimal(value).len() implies decimal(value)[i] != ',' by {
        assert(crate::text::is_digit(decimal(value)[i]));
    }
}

proof fn signed_decimal_has_no_comma(value: int)
    ensures
        !signed_decimal(value).contains(','),
{
    let magnitude: nat = if value < 0 {
        (-value) as nat
    } else {
        value as nat
    };
    decimal_has_no_comma(magnitude);
    assert forall|i: int| 0 <= i < signed_decimal(value).len() implies signed_decimal(value)[i]
        != ',' by {
        if value < 0 && i > 0 {
            assert(signed_decimal(value)[i] == decimal(magnitude)[i - 1]);
        } else if value >= 0 {
            assert(signed_decimal(value)[i] == decimal(magnitude)[i]);
        }
    }
}

/// No status in the log holds a comma.
proof fn status_has_no_comma(outcome: ProbeOutcome)
    ensures
        !status_of(outcome).contains(','),
{
    reveal_strlit("sample");
    reveal_strlit("no_hdr_internal_target");
    reveal_strlit("ambiguous_internal_targets");
    reveal_strlit("topology_unavailable");
    reveal_strlit("inspection_unavailable");
}

/// The row for a sample has eleven fields, and they are the values that went into it.
pub proof fn sample_row_has_eleven_fields(
    epoch: u128,
    session: u128,
    sequence: usize,
    position: u8,
    expected: u32,
    sample: ProbeSample,
    matches: bool,
)
    ensures
        ({
            let values = sample_values(
                epoch,
                session,
                sequence,
                position,
                expected,
                sample,
                matches,
            );
            values.len() == 11 && fields(joined(values, ','), ',') == values
        }),
{
    let values = sample_values(epoch, session, sequence, position, expected, sample, matches);
    decimal_has_no_comma(epoch as nat);
    decimal_has_no_comma(session as nat);
    decimal_has_no_comma(sequence as nat);
    decimal_has_no_comma(position as nat);
    decimal_has_no_comma(sample.adapter_low as nat);
    signed_decimal_has_no_comma(sample.adapter_high as int);
    decimal_has_no_comma(sample.target_id as nat);
    decimal_has_no_comma(sample.raw_white_level as nat);
    decimal_has_no_comma(expected as nat);
    reveal_strlit("true");
    reveal_strlit("false");
    reveal_strlit("sample");
    crate::text::fields_of_joined(values, ',');
}

/// The row for an attempt without a sample has eleven fields too, if its status holds no comma.
/// Those about the panel are empty.
pub proof fn unavailable_row_has_eleven_fields(
    epoch: u128,
    session: u128,
    sequence: usize,
    position: u8,
    expected: u32,
    status: Seq<char>,
)
    requires
        !status.contains(','),
    ensures
        ({
            let values = unavailable_values(epoch, session, sequence, position, expected, status);
            values.len() == 11 && fields(joined(values, ','), ',') == values
        }),
{
    let values = unavailable_values(epoch, session, sequence, position, expected, status);
    decimal_has_no_comma(epoch as nat);
    decimal_has_no_comma(session as nat);
    decimal_has_no_comma(sequence as nat);
    decimal_has_no_comma(position as nat);
    decimal_has_no_comma(expected as nat);
    reveal_strlit("false");
    crate::text::fields_of_joined(values, ',');
}

/// Every line that a session adds to the log has eleven fields; the last tells what came of the
/// attempt.
pub proof fn every_line_has_eleven_fields(
    recorder: RecorderView,
    epoch: u128,
    outcome: ProbeOutcome,
)
    ensures
        recorder.line(epoch, outcome) matches Some(line) ==> fields(line, ',').len() == 11
            && fields(line, ',')[10] == status_of(outcome),
{
    if let Some(position) = recorder.next_position() {
        let expected = white_level(position as int) as u32;
        let sequence = (recorder.next + 1) as usize;
        match outcome {
            ProbeOutcome::Sample(sample) => {
                sample_row_has_eleven_fields(
                    epoch,
                    recorder.session,
                    sequence,
                    position,
                    expected,
                    sample,
                    sample.raw_white_level == expected,
                );
            },
            _ => {
                status_has_no_comma(outcome);
                unavailable_row_has_eleven_fields(
                    epoch,
                    recorder.session,
                    sequence,
                    position,
                    expected,
                    status_of(outcome),
                );
            },
        }
    }
}

/// How many of the attempts gave a sample.
pub open spec fn samples(outcomes: Seq<ProbeOutcome>) -> nat
    decreases outcomes.len(),
{
    if outcomes.len() == 0 {
        0
    } else {
        samples(outcomes.drop_last()) + if outcomes.last() is Sample {
            1nat
        } else {
            0nat
        }
    }
}

/// A session goes through its positions in order, one per sample. An attempt without a sample does
/// not advance it, and once every position has its sample nothing does.
pub proof fn session_advances_with_samples_only(
    recorder: RecorderView,
    outcomes: Seq<ProbeOutcome>,
)
    requires
        recorder.wf(),
        recorder.next == 0,
    ensures
        recorder.after(outcomes).next == if samples(outcomes) <= recorder.positions.len() {
            samples(outcomes) as int
        } else {
            recorder.positions.len() as int
        },
        recorder.after(outcomes).positions == recorder.positions,
        recorder.after(outcomes).session == recorder.session,
    decreases outcomes.len(),
{
    if outcomes.len() > 0 {
        session_advances_with_samples_only(recorder, outcomes.drop_last());
    }
}

/// Two numbers are the same if they are written the same.
proof fn decimals_tell_numbers_apart(first: nat, second: nat)
    ensures
        decimal(first) == decimal(second) <==> first == second,
{
    crate::text::decimal_is_read_back(first);
    crate::text::decimal_is_read_back(second);
}

/// The line of a sample holds what was read and what was expected, and tells `true` exactly if the
/// two are the same: for every level below or above the expected one it tells `false`.
pub proof fn sample_line_tells_whether_the_levels_agree(
    recorder: RecorderView,
    epoch: u128,
    sample: ProbeSample,
)
    requires
        recorder.wf(),
        recorder.next < recorder.positions.len(),
    ensures
        recorder.line(epoch, ProbeOutcome::Sample(sample)) is Some,
        ({
            let line = recorder.line(epoch, ProbeOutcome::Sample(sample))->0;
            let values = fields(line, ',');
            let position = recorder.positions[recorder.next];
            &&& values.len() == 11
            &&& values[0] == decimal(epoch as nat)
            &&& values[1] == decimal(recorder.session as nat)
            &&& values[2] == decimal((recorder.next + 1) as nat)
            &&& values[3] == decimal(position as nat)
            &&& values[4] == decimal(sample.adapter_low as nat)
            &&& values[5] == signed_decimal(sample.adapter_high as int)
            &&& values[6] == decimal(sample.target_id as nat)
            &&& values[7] == decimal(sample.raw_white_level as nat)
            &&& values[8] == decimal((1000 + 50 * position) as nat)
            &&& values[9] == seq!['t', 'r', 'u', 'e'] <==> sample.raw_white_level == 1000 + 50
                * position
            &&& values[9] == seq!['f', 'a', 'l', 's', 'e'] <==> sample.raw_white_level != 1000 + 50
                * position
            &&& values[9] == seq!['t', 'r', 'u', 'e'] <==> values[7] == values[8]
            &&& values[10] == "sample"@
        }),
{
    let position = recorder.positions[recorder.next];
    let expected = white_level(position as int) as u32;
    sample_row_has_eleven_fields(
        epoch,
        recorder.session,
        (recorder.next + 1) as usize,
        position,
        expected,
        sample,
        sample.raw_white_level == expected,
    );
    crate::text::truths_are_spelled_out();
    let (yes, no) = (seq!['t', 'r', 'u', 'e'], seq!['f', 'a', 'l', 's', 'e']);
    assert(yes.len() == 4 && no.len() == 5);
    decimals_tell_numbers_apart(sample.raw_white_level as nat, (1000 + 50 * position) as nat);
}

/// The line of an attempt without a sample says for which position it was and why there is none. What
/// would be about the panel is empty, and it never tells `true`.
pub proof fn line_without_a_sample_says_why(
    recorder: RecorderView,
    epoch: u128,
    outcome: ProbeOutcome,
)
    requires
        recorder.wf(),
        recorder.next < recorder.positions.len(),
        !(outcome is Sample),
    ensures
        recorder.line(epoch, outcome) is Some,
        ({
            let values = fields(recorder.line(epoch, outcome)->0, ',');
            let position = recorder.positions[recorder.next];
            &&& values.len() == 11
            &&& values[0] == decimal(epoch as nat)
            &&& values[1] == decimal(recorder.session as nat)
            &&& values[2] == decimal((recorder.next + 1) as nat)
            &&& values[3] == decimal(position as nat)
            &&& forall|i: int| 4 <= i < 8 ==> (#[trigger] values[i]).len() == 0
            &&& values[8] == decimal((1000 + 50 * position) as nat)
            &&& values[9] == seq!['f', 'a', 'l', 's', 'e']
            &&& values[10] == match outcome {
                ProbeOutcome::NoHdrTarget => "no_hdr_internal_target"@,
                ProbeOutcome::AmbiguousInternalTargets => "ambiguous_internal_targets"@,
                ProbeOutcome::TopologyUnavailable => "topology_unavailable"@,
                _ => "inspection_unavailable"@,
            }
        }),
{
    let position = recorder.positions[recorder.next];
    status_has_no_comma(outcome);
    unavailable_row_has_eleven_fields(
        epoch,
        recorder.session,
        (recorder.next + 1) as usize,
        position,
        white_level(position as int) as u32,
        status_of(outcome),
    );
    crate::text::truths_are_spelled_out();
}

/// The row for a sample is what it is made of, whatever the caller says of the match.
pub proof fn sample_row_keeps_its_values(
    epoch: u128,
    session: u128,
    sequence: usize,
    position: u8,
    expected: u32,
    sample: ProbeSample,
    matches: bool,
)
    ensures
        ({
            let values = fields(
                joined(
                    sample_values(epoch, session, sequence, position, expected, sample, matches),
                    ',',
                ),
                ',',
            );
            &&& values.len() == 11
            &&& values[0] == decimal(epoch as nat)
            &&& values[1] == decimal(session as nat)
            &&& values[2] == decimal(sequence as nat)
            &&& values[3] == decimal(position as nat)
            &&& values[4] == decimal(sample.adapter_low as nat)
            &&& values[5] == signed_decimal(sample.adapter_high as int)
            &&& values[6] == decimal(sample.target_id as nat)
            &&& values[7] == decimal(sample.raw_white_level as nat)
            &&& values[8] == decimal(expected as nat)
            &&& values[9] == seq!['t', 'r', 'u', 'e'] <==> matches
            &&& values[9] == seq!['f', 'a', 'l', 's', 'e'] <==> !matches
            &&& values[10] == "sample"@
        }),
{
    sample_row_has_eleven_fields(epoch, session, sequence, position, expected, sample, matches);
    crate::text::truths_are_spelled_out();
    let (yes, no) = (seq!['t', 'r', 'u', 'e'], seq!['f', 'a', 'l', 's', 'e']);
    assert(yes.len() == 4 && no.len() == 5);
}

/// The row for an attempt without a sample is what it is made of.
pub proof fn unavailable_row_keeps_its_values(
    epoch: u128,
    session: u128,
    sequence: usize,
    position: u8,
    expected: u32,
    status: Seq<char>,
)
    requires
        !status.contains(','),
    ensures
        ({
            let values = fields(
                joined(
                    unavailable_values(epoch, session, sequence, position, expected, status),
                    ',',
                ),
                ',',
            );
            &&& values.len() == 11
            &&& values[0] == decimal(epoch as nat)
            &&& values[1] == decimal(session as nat)
            &&& values[2] == decimal(sequence as nat)
            &&& values[3] == decimal(position as nat)
            &&& forall|i: int| 4 <= i < 8 ==> (#[trigger] values[i]).len() == 0
            &&& values[8] == decimal(expected as nat)
            &&& values[9] == seq!['f', 'a', 'l', 's', 'e']
            &&& values[10] == status
        }),
{
    unavailable_row_has_eleven_fields(epoch, session, sequence, position, expected, status);
    crate::text::truths_are_spelled_out();
}

/// A list gives positions exactly if it has two parts or more, each of which is a number up to 100,
/// each above the one before; and then it gives those numbers.
pub proof fn lists_of_rising_percentages_are_accepted(text: Seq<char>, positions: Seq<u8>)
    ensures
        listed_positions(text) == Some(positions) <==> {
            let parts = fields(text, ',');
            &&& positions.len() == parts.len()
            &&& positions.len() >= 2
            &&& forall|i: int|
                0 <= i < positions.len() ==> byte_value(parts[i]) == Some(#[trigger] positions[i])
                    && positions[i] <= 100
            &&& forall|i: int, j: int| 0 <= i < j < positions.len() ==> positions[i] < positions[j]
        },
{
    let parts = fields(text, ',');
    if listed_positions(text) == Some(positions) {
        assert forall|i: int| 0 <= i < positions.len() implies byte_value(parts[i]) == Some(
            #[trigger] positions[i],
        ) && positions[i] <= 100 by {
            assert(byte_value(parts[i]) is Some);
        }
    }
    if positions.len() == parts.len() && positions.len() >= 2 && (forall|i: int|
        0 <= i < positions.len() ==> byte_value(parts[i]) == Some(#[trigger] positions[i])
            && positions[i] <= 100) && (forall|i: int, j: int|
        0 <= i < j < positions.len() ==> positions[i] < positions[j]) {
        assert forall|i: int| 0 <= i < parts.len() implies byte_value(#[trigger] parts[i])
            is Some by {
            assert(byte_value(parts[i]) == Some(positions[i]));
        }
        assert(byte_values(parts)->0 =~= positions);
    }
}

/// An argument selects probe mode with the positions of its list, or with five that are a quarter
/// apart. Any other argument is refused.
pub proof fn arguments_select_positions(list: Seq<char>, argument: Option<Seq<char>>)
    ensures
        requested_positions(Some("--probe="@ + list)) == listed_positions(list),
        requested_positions(Some("--probe"@)) == Some(seq![0u8, 25, 50, 75, 100]),
        requested_positions(None) is None,
        requested_positions(argument) is Some ==> argument == Some("--probe"@) || exists|rest: Seq<
            char,
        >| argument == Some(#[trigger] ("--probe="@ + rest)) && listed_positions(rest) is Some,
{
    reveal_strlit("--probe");
    reveal_strlit("--probe=");
    let text = "--probe="@ + list;
    assert(text.len() >= 8);
    crate::text::prefix_is_taken_off("--probe="@, list, text);
    assert(DEFAULT_POSITIONS@ =~= seq![0u8, 25, 50, 75, 100]);
    if let Some(text) = argument {
        crate::text::prefix_is_taken_off("--probe="@, list, text);
        if text != "--probe"@ && requested_positions(argument) is Some {
            let rest = crate::text::after_prefix(text, "--probe="@)->0;
            assert(text == "--probe="@ + rest);
        }
    }
}

/// The operator is led through the positions in their order: after as many samples as there were, the
/// next one is asked for, and none when all have theirs.
pub proof fn positions_are_asked_for_in_order(
    positions: Seq<u8>,
    session: u128,
    outcomes: Seq<ProbeOutcome>,
)
    requires
        positions.len() <= usize::MAX,
    ensures
        ({
            let recorder = RecorderView { positions, next: 0, session }.after(outcomes);
            recorder.next_position() == if samples(outcomes) < positions.len() {
                Some(positions[samples(outcomes) as int])
            } else {
                None
            }
        }),
{
    session_advances_with_samples_only(
        RecorderView { positions, next: 0, session },
        outcomes,
    );
}

/// A sample counts one, and nothing else counts.
pub proof fn only_samples_are_counted(outcomes: Seq<ProbeOutcome>, outcome: ProbeOutcome)
    ensures
        samples(Seq::<ProbeOutcome>::empty()) == 0,
        outcome is Sample ==> samples(outcomes.push(outcome)) == samples(outcomes) + 1,
        !(outcome is Sample) ==> samples(outcomes.push(outcome)) == samples(outcomes),
{
    assert(outcomes.push(outcome).drop_last() =~= outcomes);
}

/// A sample moves the session on to the next position, as long as there is one. Nothing else about
/// the session ever changes.
pub proof fn sample_moves_the_session_on(recorder: RecorderView, outcome: ProbeOutcome)
    requires
        recorder.wf(),
    ensures
        recorder.recorded(outcome).next == recorder.next + if outcome is Sample && recorder.next
            < recorder.positions.len() {
            1int
        } else {
            0int
        },
        recorder.recorded(outcome).positions == recorder.positions,
        recorder.recorded(outcome).session == recorder.session,
        recorder.next_position() is Some <==> recorder.next < recorder.positions.len(),
        recorder.next_position() matches Some(position) ==> position
            == recorder.positions[recorder.next],
        recorder.line(0, outcome) is Some <==> recorder.next < recorder.positions.len(),
{
}

/// How the log comes about. Whatever cannot be done is a failure of the log, but for a length that
/// cannot be read: such a log counts as missing.
pub proof fn log_comes_about_step_by_step(step: LogStep, outcome: LogOutcome)
    ensures
        ({
            let next = step.spec_next(outcome);
            let header = !(outcome matches LogOutcome::Length(Some(length)) && length > 0);
            &&& step is Inspect ==> next == (LogStep::Open { needs_header: header })
            &&& step is Ready || step is Failed ==> next == step
            &&& (step is CreateDirectory || step is Open || step is WriteHeader
                || step is FlushHeader) && outcome is Failed ==> (next matches LogStep::Failed(error)
                && error.stage is ProbeLog && error.code == 0)
            &&& step is CreateDirectory && !(outcome is Failed) ==> next is Inspect
            &&& step == (LogStep::Open { needs_header: true }) && !(outcome is Failed)
                ==> next is WriteHeader
            &&& step == (LogStep::Open { needs_header: false }) && !(outcome is Failed)
                ==> next is Ready
            &&& step is WriteHeader && !(outcome is Failed) ==> next is FlushHeader
            &&& step is FlushHeader && !(outcome is Failed) ==> next is Ready
        }),
{
}

/// The log needs a directory with a name to be placed below.
pub proof fn log_needs_a_directory(name_length: Option<usize>)
    ensures
        name_length matches Some(length) && length > 0 ==> LogStep::first(
            name_length,
        ) is CreateDirectory,
        name_length is None || name_length == Some(0usize) ==> (LogStep::first(
            name_length,
        ) matches LogStep::Failed(error) && error.stage is ProbeLog && error.code == 0),
{
}

/// The names of the values in the log.
pub open spec fn column_names() -> Seq<Seq<char>> {
    seq![
        "epoch_ms"@,
        "session"@,
        "sequence"@,
        "slider_position"@,
        "adapter_low"@,
        "adapter_high"@,
        "target_id"@,
        "raw_sdr_white_level"@,
        "expected_sdr_white_level"@,
        "encoding_matches"@,
        "status"@,
    ]
}

/// The first line of the log names the value at each place, and there are as many names as values in
/// every other line.
pub proof fn header_names_every_value()
    ensures
        fields(LOG_HEADER@, ',') == column_names(),
        column_names().len() == 11,
        LOG_DIRECTORY@ == "Calibrator"@,
        LOG_FILE@ == "hdr-sdr-white-level-probe.csv"@,
{
    reveal_strlit("epoch_ms");
    reveal_strlit("session");
    reveal_strlit("sequence");
    reveal_strlit("slider_position");
    reveal_strlit("adapter_low");
    reveal_strlit("adapter_high");
    reveal_strlit("target_id");
    reveal_strlit("raw_sdr_white_level");
    reveal_strlit("expected_sdr_white_level");
    reveal_strlit("encoding_matches");
    reveal_strlit("status");
    reveal_strlit(
        "epoch_ms,session,sequence,slider_position,adapter_low,adapter_high,target_id,raw_sdr_white_level,expected_sdr_white_level,encoding_matches,status",
    );
    let names = column_names();
    let line = LOG_HEADER@;
    assert(line =~= names[0] + seq![','] + names[1] + seq![','] + names[2] + seq![','] + names[3]
        + seq![','] + names[4] + seq![','] + names[5] + seq![','] + names[6] + seq![',']
        + names[7] + seq![','] + names[8] + seq![','] + names[9] + seq![','] + names[10]);
    names_are_joined(names, line);
    crate::text::fields_of_joined(names, ',');
}

/// Eleven names with commas between them.
proof fn names_are_joined(names: Seq<Seq<char>>, line: Seq<char>)
    requires
        names.len() == 11,
        line == names[0] + seq![','] + names[1] + seq![','] + names[2] + seq![','] + names[3]
            + seq![','] + names[4] + seq![','] + names[5] + seq![','] + names[6] + seq![',']
            + names[7] + seq![','] + names[8] + seq![','] + names[9] + seq![','] + names[10],
    ensures
        line == joined(names, ','),
{
    assert forall|i: int| 1 <= i < 11 implies joined(names.take(i + 1), ',') == #[trigger] joined(
        names.take(i),
        ',',
    ) + seq![','] + names[i] by {
        crate::text::separator_stands_between_parts(names.take(i), names[i], ',');
        assert(names.take(i + 1) =~= names.take(i).push(names[i]));
    }
    assert(joined(names.take(1), ',') == names[0]);
    assert(joined(names.take(2), ',') == joined(names.take(1), ',') + seq![','] + names[1]);
    assert(joined(names.take(3), ',') == joined(names.take(2), ',') + seq![','] + names[2]);
    assert(joined(names.take(4), ',') == joined(names.take(3), ',') + seq![','] + names[3]);
    assert(joined(names.take(5), ',') == joined(names.take(4), ',') + seq![','] + names[4]);
    assert(joined(names.take(6), ',') == joined(names.take(5), ',') + seq![','] + names[5]);
    assert(joined(names.take(7), ',') == joined(names.take(6), ',') + seq![','] + names[6]);
    assert(joined(names.take(8), ',') == joined(names.take(7), ',') + seq![','] + names[7]);
    assert(joined(names.take(9), ',') == joined(names.take(8), ',') + seq![','] + names[8]);
    assert(joined(names.take(10), ',') == joined(names.take(9), ',') + seq![','] + names[9]);
    assert(joined(names.take(11), ',') == joined(names.take(10), ',') + seq![','] + names[10]);
    assert(names.take(11) =~= names);
}

} // verus!
