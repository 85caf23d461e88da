use calibrator::clock::{epoch_millis, millis_or_epoch};
use calibrator::display::{ProbeOutcome, ProbeSample};
use calibrator::probe::{
    check_log_base, needs_header, parse_arguments, parse_positions, sample_line,
    unavailable_line, LogOutcome, LogStep, ProbeConfig, ProbeRecorder, RunConfig, DEFAULT_POSITIONS, LOG_DIRECTORY,
    LOG_FILE, LOG_HEADER,
};
use calibrator::win32::{Error, Stage};

const SAMPLE: ProbeSample = ProbeSample {
    adapter_low: 12,
    adapter_high: -1,
    target_id: 13,
    raw_white_level: 1_000,
};

fn arguments(texts: &[&str]) -> Vec<Option<String>> {
    texts.iter().map(|text| Some((*text).to_owned())).collect()
}

fn log_failure() -> Error {
    Error {
        stage: Stage::ProbeLog,
        code: 0,
    }
}

#[test]
fn no_arguments_selects_adjustment_mode() {
    assert!(matches!(
        parse_arguments(&Vec::new()).unwrap(),
        RunConfig::Adjust
    ));
}

#[test]
fn probe_defaults_cover_endpoints_and_intermediate_positions() {
    let config = parse_arguments(&arguments(&["--probe"])).unwrap();
    let RunConfig::Probe(config) = config else {
        panic!("probe mode expected");
    };
    assert_eq!(config.positions, DEFAULT_POSITIONS);
}

#[test]
fn explicit_probe_positions_are_strictly_increasing_and_bounded() {
    assert_eq!(parse_positions("0,10,55,100").unwrap(), [0, 10, 55, 100]);
    assert!(parse_positions("0").is_err());
    assert!(parse_positions("0,101").is_err());
    assert!(parse_positions("0,50,50").is_err());
    assert!(parse_positions("50,0").is_err());
    assert!(parse_positions("0,,100").is_err());
}

#[test]
fn unknown_or_duplicate_modes_are_rejected() {
    assert!(parse_arguments(&arguments(&["--other"])).is_err());
    assert!(parse_arguments(&arguments(&["--probe", "--probe=0,100"])).is_err());
}

#[test]
fn probe_csv_rows_preserve_schema_and_raw_encoding_evidence() {
    let sample = sample_line(
        10,
        11,
        2,
        50,
        3_500,
        ProbeSample {
            adapter_low: 12,
            adapter_high: -1,
            target_id: 13,
            raw_white_level: 3_450,
        },
        false,
    );
    let fields: Vec<_> = sample.split(',').collect();
    assert_eq!(fields.len(), 11);
    assert_eq!(
        fields,
        ["10", "11", "2", "50", "12", "-1", "13", "3450", "3500", "false", "sample"]
    );

    let unavailable = unavailable_line(10, 11, 2, 50, 3_500, "inspection_unavailable");
    let fields: Vec<_> = unavailable.split(',').collect();
    assert_eq!(fields.len(), 11);
    assert_eq!(&fields[4..8], &["", "", "", ""]);
    assert_eq!(&fields[8..], &["3500", "false", "inspection_unavailable"]);
}

#[test]
fn documented_sequence_of_positions_is_accepted() {
    let config = parse_arguments(&arguments(&["--probe=0,10,30,50,70,90,100"])).unwrap();
    let RunConfig::Probe(config) = config else {
        panic!("probe mode expected");
    };
    assert_eq!(config.positions, [0, 10, 30, 50, 70, 90, 100]);
    assert_eq!(DEFAULT_POSITIONS, [0, 25, 50, 75, 100]);
}

#[test]
fn positions_are_plain_unsigned_numbers() {
    assert_eq!(parse_positions("+1,002").unwrap(), [1, 2]);
    for text in [
        "", ",", "1,", ",1", "1, 2", " 1,2", "-1,2", "1,256", "1,99999999999999999999", "+,1",
        "1;2", "0x1,2", "1,\u{0662}",
    ] {
        assert!(parse_positions(text).is_err());
    }
}

#[test]
fn argument_that_is_no_text_is_rejected() {
    assert!(parse_arguments(&vec![None]).is_err());
    assert!(parse_arguments(&vec![Some("--probe".to_owned()), None]).is_err());
    for text in ["", "--probe ", "--Probe", "--probe=", "--probe=1", "probe"] {
        assert!(parse_arguments(&arguments(&[text])).is_err());
    }
}

#[test]
fn refused_command_line_is_a_configuration_failure() {
    assert_eq!(
        RunConfig::from_arguments(&arguments(&["--other"])).unwrap_err(),
        Error {
            stage: Stage::ProbeConfiguration,
            code: 0
        }
    );
    assert!(RunConfig::from_arguments(&Vec::new())
        .unwrap()
        .adjustment_enabled());
    assert!(!RunConfig::from_arguments(&arguments(&["--probe"]))
        .unwrap()
        .adjustment_enabled());
}

#[test]
fn log_header_names_every_field() {
    assert_eq!(LOG_HEADER.split(',').count(), 11);
    assert!(LOG_HEADER.starts_with("epoch_ms,session,sequence,slider_position,"));
    assert!(LOG_HEADER.ends_with(",encoding_matches,status"));
    assert_eq!(LOG_DIRECTORY, "Calibrator");
    assert_eq!(LOG_FILE, "hdr-sdr-white-level-probe.csv");
}

#[test]
fn largest_values_are_written_in_full() {
    let line = sample_line(
        u128::MAX,
        u128::MAX,
        usize::MAX,
        255,
        u32::MAX,
        ProbeSample {
            adapter_low: u32::MAX,
            adapter_high: i32::MIN,
            target_id: 0,
            raw_white_level: u32::MAX,
        },
        true,
    );
    assert_eq!(
        line,
        format!(
            "{},{},{},255,{},{},0,{},{},true,sample",
            u128::MAX,
            u128::MAX,
            usize::MAX,
            u32::MAX,
            i32::MIN,
            u32::MAX,
            u32::MAX
        )
    );
}

#[test]
fn new_or_empty_log_needs_a_header() {
    assert!(needs_header(None));
    assert!(needs_header(Some(0)));
    assert!(!needs_header(Some(1)));
}

#[test]
fn log_needs_a_named_directory() {
    assert_eq!(check_log_base(Some(3)), Ok(()));
    assert_eq!(check_log_base(Some(0)), Err(log_failure()));
    assert_eq!(check_log_base(None), Err(log_failure()));
}

#[test]
fn log_is_opened_step_by_step() {
    let opened = |length| {
        LogStep::begin(Some(3))
            .next(LogOutcome::Succeeded)
            .next(LogOutcome::Length(length))
            .next(LogOutcome::Succeeded)
    };
    assert_eq!(LogStep::begin(Some(3)), LogStep::CreateDirectory);
    assert_eq!(opened(Some(9)), LogStep::Ready);
    for length in [None, Some(0)] {
        let header = opened(length);
        assert_eq!(header, LogStep::WriteHeader);
        let flush = header.next(LogOutcome::Succeeded);
        assert_eq!(flush, LogStep::FlushHeader);
        assert_eq!(flush.next(LogOutcome::Succeeded), LogStep::Ready);
    }
}

#[test]
fn log_that_cannot_be_opened_is_a_failure() {
    let failed = LogStep::Failed(log_failure());
    assert_eq!(LogStep::begin(None), failed);
    assert_eq!(LogStep::begin(Some(0)), failed);
    for step in [
        LogStep::CreateDirectory,
        LogStep::Open { needs_header: true },
        LogStep::Open {
            needs_header: false,
        },
        LogStep::WriteHeader,
        LogStep::FlushHeader,
    ] {
        assert_eq!(step.next(LogOutcome::Failed), failed);
    }
    assert_eq!(failed.next(LogOutcome::Succeeded), failed);
}

#[test]
fn session_advances_with_samples() {
    let config = ProbeConfig {
        positions: vec![0, 50],
    };
    let mut recorder = ProbeRecorder::create(config, 99);
    assert_eq!(recorder.next_position(), Some(0));
    assert_eq!(
        recorder.pending_line(7, ProbeOutcome::Sample(SAMPLE)).unwrap(),
        "7,99,1,0,12,-1,13,1000,1000,true,sample"
    );
    assert_eq!(
        recorder.record(ProbeOutcome::Sample(SAMPLE), true, true),
        Ok(())
    );
    assert_eq!(recorder.next_position(), Some(50));
    assert_eq!(
        recorder.pending_line(8, ProbeOutcome::Sample(SAMPLE)).unwrap(),
        "8,99,2,50,12,-1,13,1000,3500,false,sample"
    );
    assert_eq!(
        recorder.record(ProbeOutcome::Sample(SAMPLE), true, true),
        Ok(())
    );
    assert_eq!(recorder.next_position(), None);
    assert_eq!(recorder.pending_line(9, ProbeOutcome::Sample(SAMPLE)), None);
    assert_eq!(
        recorder.record(ProbeOutcome::Sample(SAMPLE), false, false),
        Ok(())
    );
    assert_eq!(recorder.finish(true), Ok(()));
    assert_eq!(recorder.finish(false), Err(log_failure()));
}

#[test]
fn attempt_without_sample_is_logged_and_repeated() {
    let statuses = [
        (ProbeOutcome::NoHdrTarget, "no_hdr_internal_target"),
        (
            ProbeOutcome::AmbiguousInternalTargets,
            "ambiguous_internal_targets",
        ),
        (ProbeOutcome::TopologyUnavailable, "topology_unavailable"),
        (ProbeOutcome::InspectionUnavailable, "inspection_unavailable"),
    ];
    let config = ProbeConfig {
        positions: vec![25, 75],
    };
    let mut recorder = ProbeRecorder::create(config, 4);
    for (outcome, status) in statuses {
        assert_eq!(
            recorder.pending_line(5, outcome).unwrap(),
            format!("5,4,1,25,,,,,2250,false,{status}")
        );
        assert_eq!(recorder.record(outcome, true, true), Ok(()));
        assert_eq!(recorder.next_position(), Some(25));
    }
}

#[test]
fn line_that_is_not_written_is_a_failure() {
    let config = ProbeConfig {
        positions: vec![0, 100],
    };
    let mut recorder = ProbeRecorder::create(config, 1);
    assert_eq!(
        recorder.record(ProbeOutcome::Sample(SAMPLE), false, true),
        Err(log_failure())
    );
    assert_eq!(recorder.next_position(), Some(0));
    assert_eq!(
        recorder.record(ProbeOutcome::Sample(SAMPLE), true, false),
        Err(log_failure())
    );
    assert_eq!(recorder.next_position(), Some(100));
}

#[test]
fn clock_counts_milliseconds_from_the_epoch() {
    let before = std::time::SystemTime::now()
        .duration_since(std::time::UNIX_EPOCH)
        .unwrap()
        .as_millis();
    let now = epoch_millis();
    let after = std::time::SystemTime::now()
        .duration_since(std::time::UNIX_EPOCH)
        .unwrap()
        .as_millis();
    assert!(before <= now && now <= after);
    assert_eq!(millis_or_epoch(None), 0);
    assert_eq!(millis_or_epoch(Some(5)), 5);
}
