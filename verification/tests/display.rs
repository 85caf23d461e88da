use std::mem::{align_of, size_of};

use calibrator::apply::{apply_sdr_white_level, Apply, ApplyStep, WriteRequest};
use calibrator::attempt::{Attempt, AttemptStep, Purpose};
use calibrator::display::{
    advanced_color_info_2, advanced_color_info_legacy, get_sdr_white_level, hdr_v2_enabled,
    is_internal, legacy_advanced_color_enabled, target_name_is_internal, unique_candidate,
    verification_outcome, Adapter, ApplyOutcome, DeviceQuery, DeviceReply, DeviceRequest,
    HdrTarget, PathTarget, ProbeOutcome, ProbeSample, TargetKey, TargetLookup,
    INSUFFICIENT_BUFFER, OUTPUT_DISPLAYPORT_EMBEDDED, OUTPUT_INTERNAL, OUTPUT_LVDS,
    OUTPUT_UDI_EMBEDDED, SET_SDR_WHITE_LEVEL, SUCCESS,
};
use calibrator::locate::{
    internal_targets, locate_hdr_target, probe_sdr_white_level, Locator, LookupStep,
};
use calibrator::packet::{
    color_2_packet, color_2_state, device_header, query_kind, set_packet, GetAdvancedColorInfo2,
    SetSdrWhiteLevel, GET_ADVANCED_COLOR_INFO_2_SIZE, HEADER_SIZE, SET_SDR_WHITE_LEVEL_SIZE,
};
use calibrator::topology::{active_paths, returned_paths, TopologyStep};

const ADAPTER: Adapter = Adapter { low: 1, high: -2 };

fn panel(id: u32) -> PathTarget {
    PathTarget {
        adapter: ADAPTER,
        id,
        available: true,
        technology: OUTPUT_INTERNAL,
    }
}

fn failure(status: i32) -> DeviceReply {
    DeviceReply {
        status,
        technology: 0,
        flags: 0,
        color_mode: 0,
        white_level: 0,
    }
}

fn name_reply(technology: i32) -> DeviceReply {
    DeviceReply {
        technology,
        ..failure(0)
    }
}

fn color_reply(flags: u32, color_mode: i32) -> DeviceReply {
    DeviceReply {
        flags,
        color_mode,
        ..failure(0)
    }
}

fn level_reply(white_level: u32) -> DeviceReply {
    DeviceReply {
        white_level,
        ..failure(0)
    }
}

fn ask(query: DeviceQuery, target_id: u32) -> DeviceRequest {
    DeviceRequest {
        query,
        adapter: ADAPTER,
        target_id,
    }
}

fn expect_question(locator: &mut Locator, request: DeviceRequest, reply: DeviceReply) {
    assert_eq!(locator.step(), LookupStep::Ask(request));
    locator.answer(&reply);
}

fn located(level: u32) -> (Locator, TargetLookup) {
    let mut locator = locate_hdr_target(Some(vec![panel(7)]));
    expect_question(
        &mut locator,
        ask(DeviceQuery::TargetName, 7),
        name_reply(OUTPUT_LVDS),
    );
    expect_question(
        &mut locator,
        ask(DeviceQuery::AdvancedColor2, 7),
        color_reply(0x30, 2),
    );
    expect_question(&mut locator, ask(DeviceQuery::WhiteLevel, 7), level_reply(level));
    let found = TargetLookup::Found(HdrTarget {
        adapter: ADAPTER,
        target_id: 7,
        current_white_level: level,
    });
    (locator, found)
}

fn ready_to_write(required: u32, current: u32) -> Apply {
    let mut apply = apply_sdr_white_level(required, Some(vec![panel(7)]));
    assert_eq!(apply.step(), ApplyStep::Ask(ask(DeviceQuery::TargetName, 7)));
    apply.answer(&name_reply(OUTPUT_INTERNAL));
    assert_eq!(
        apply.step(),
        ApplyStep::Ask(ask(DeviceQuery::AdvancedColor2, 7))
    );
    apply.answer(&color_reply(0x30, 2));
    assert_eq!(apply.step(), ApplyStep::Ask(ask(DeviceQuery::WhiteLevel, 7)));
    apply.answer(&level_reply(current));
    apply
}

#[test]
fn private_setter_packet_matches_observed_windows_abi() {
    assert_eq!(SET_SDR_WHITE_LEVEL, -18);
    assert_eq!(size_of::<SetSdrWhiteLevel>(), 28);
    assert_eq!(align_of::<SetSdrWhiteLevel>(), 4);

    let packet = set_packet(&WriteRequest {
        adapter: ADAPTER,
        target_id: 7,
        white_level: 0x0102_0304,
    });
    let bytes: Vec<u8> = packet.iter().flat_map(|word| word.to_le_bytes()).collect();
    let header_offset = 0;
    let white_level_offset = 20;
    let final_value_offset = 24;
    assert_eq!(&bytes[header_offset..4], &(-18i32).to_le_bytes());
    assert_eq!(
        &bytes[white_level_offset..white_level_offset + 4],
        &[4, 3, 2, 1]
    );
    assert_eq!(bytes[final_value_offset], 1);
    assert_eq!(&bytes[final_value_offset + 1..], &[0, 0, 0]);
}

#[test]
fn advanced_color_v2_packet_matches_windows_11_sdk_abi() {
    assert_eq!(size_of::<GetAdvancedColorInfo2>(), 36);
    assert_eq!(align_of::<GetAdvancedColorInfo2>(), 4);
}

#[test]
fn hdr_v2_requires_support_user_enablement_and_active_hdr_mode() {
    assert!(hdr_v2_enabled((1 << 4) | (1 << 5), 2));
    assert!(!hdr_v2_enabled(1 << 4, 2));
    assert!(!hdr_v2_enabled(1 << 5, 2));
    assert!(!hdr_v2_enabled((1 << 4) | (1 << 5), 0));
    assert!(!hdr_v2_enabled((1 << 4) | (1 << 5), 1));
}

#[test]
fn legacy_gate_requires_supported_and_enabled_bits() {
    assert!(legacy_advanced_color_enabled(0b11));
    assert!(legacy_advanced_color_enabled(0xffff_ffff));
    assert!(!legacy_advanced_color_enabled(0b01));
    assert!(!legacy_advanced_color_enabled(0b10));
}

#[test]
fn target_selection_rejects_ambiguity() {
    let first = (Adapter { low: 1, high: 2 }, 3);
    let second = (first.0, 4);

    assert!(unique_candidate(&[]).unwrap().is_none());
    assert_eq!(unique_candidate(&[first]).unwrap().unwrap().1, 3);
    assert!(unique_candidate(&[first, second]).is_err());
}

#[test]
fn post_write_verification_requires_exact_public_getter_value() {
    assert!(matches!(
        verification_outcome(3_500, Ok(3_500)),
        ApplyOutcome::AppliedAndVerified
    ));
    assert!(matches!(
        verification_outcome(3_500, Ok(3_450)),
        ApplyOutcome::VerificationFailed {
            expected: 3_500,
            observed: Some(3_450)
        }
    ));
    assert!(matches!(
        verification_outcome(3_500, Err(5)),
        ApplyOutcome::VerificationFailed {
            expected: 3_500,
            observed: None
        }
    ));
}

#[test]
fn only_embedded_connectors_are_internal() {
    for technology in [
        OUTPUT_INTERNAL,
        OUTPUT_DISPLAYPORT_EMBEDDED,
        OUTPUT_UDI_EMBEDDED,
        OUTPUT_LVDS,
    ] {
        assert!(is_internal(technology));
    }
    assert_eq!(OUTPUT_INTERNAL as u32, 0x8000_0000);
    assert_eq!(
        (OUTPUT_DISPLAYPORT_EMBEDDED, OUTPUT_UDI_EMBEDDED, OUTPUT_LVDS),
        (11, 13, 6)
    );
    for technology in [-1, 0, 4, 5, 10, 12, 15] {
        assert!(!is_internal(technology));
    }
}

#[test]
fn replies_are_read_only_after_success() {
    assert_eq!(target_name_is_internal(&name_reply(OUTPUT_LVDS)), Ok(true));
    assert_eq!(target_name_is_internal(&name_reply(5)), Ok(false));
    assert_eq!(target_name_is_internal(&failure(31)), Err(()));
    assert_eq!(advanced_color_info_2(&color_reply(0x30, 2)), Some(true));
    assert_eq!(advanced_color_info_2(&color_reply(0x30, 1)), Some(false));
    assert_eq!(advanced_color_info_2(&failure(87)), None);
    assert_eq!(advanced_color_info_legacy(&color_reply(3, 0)), Some(true));
    assert_eq!(advanced_color_info_legacy(&color_reply(1, 0)), Some(false));
    assert_eq!(advanced_color_info_legacy(&failure(87)), None);
    assert_eq!(get_sdr_white_level(&level_reply(1_500)), Ok(1_500));
    assert_eq!(get_sdr_white_level(&failure(-5)), Err(-5));
}

#[test]
fn repeated_and_unavailable_paths_are_passed_over() {
    let elsewhere = Adapter { low: 9, high: 0 };
    let paths = vec![
        PathTarget {
            available: false,
            ..panel(1)
        },
        panel(1),
        panel(1),
        PathTarget {
            technology: 5,
            ..panel(2)
        },
        panel(2),
        PathTarget {
            adapter: elsewhere,
            ..panel(1)
        },
    ];
    assert_eq!(
        internal_targets(&paths),
        vec![(ADAPTER, 1), (elsewhere, 1)]
    );
    assert_eq!(
        TargetKey::new(ADAPTER, 4),
        TargetKey {
            adapter_low: 1,
            adapter_high: -2,
            target_id: 4
        }
    );
}

#[test]
fn unique_hdr_panel_is_found() {
    let (locator, found) = located(2_500);
    assert_eq!(locator.step(), LookupStep::Done(found));
    assert_eq!(
        probe_sdr_white_level(found),
        ProbeOutcome::Sample(ProbeSample {
            adapter_low: 1,
            adapter_high: -2,
            target_id: 7,
            raw_white_level: 2_500,
        })
    );
}

#[test]
fn search_ends_without_topology_or_panel() {
    assert_eq!(
        locate_hdr_target(None).step(),
        LookupStep::Done(TargetLookup::TopologyUnavailable)
    );
    assert_eq!(
        locate_hdr_target(Some(vec![])).step(),
        LookupStep::Done(TargetLookup::NoHdrTarget)
    );
    for lookup in [
        (TargetLookup::NoHdrTarget, ProbeOutcome::NoHdrTarget),
        (
            TargetLookup::TopologyUnavailable,
            ProbeOutcome::TopologyUnavailable,
        ),
        (
            TargetLookup::InspectionUnavailable,
            ProbeOutcome::InspectionUnavailable,
        ),
        (
            TargetLookup::AmbiguousInternalTargets,
            ProbeOutcome::AmbiguousInternalTargets,
        ),
    ] {
        assert_eq!(probe_sdr_white_level(lookup.0), lookup.1);
    }
}

#[test]
fn two_panels_are_ambiguous_once_both_are_confirmed() {
    let mut locator = locate_hdr_target(Some(vec![panel(1), panel(2)]));
    expect_question(
        &mut locator,
        ask(DeviceQuery::TargetName, 1),
        name_reply(OUTPUT_INTERNAL),
    );
    expect_question(
        &mut locator,
        ask(DeviceQuery::TargetName, 2),
        name_reply(OUTPUT_INTERNAL),
    );
    assert_eq!(
        locator.step(),
        LookupStep::Done(TargetLookup::AmbiguousInternalTargets)
    );
}

#[test]
fn contradictory_or_missing_name_stops_the_search() {
    for reply in [name_reply(5), failure(1)] {
        let mut locator = locate_hdr_target(Some(vec![panel(1), panel(2)]));
        expect_question(&mut locator, ask(DeviceQuery::TargetName, 1), reply);
        assert_eq!(
            locator.step(),
            LookupStep::Done(TargetLookup::InspectionUnavailable)
        );
    }
}

#[test]
fn legacy_color_state_is_asked_for_when_the_newer_fails() {
    let mut locator = locate_hdr_target(Some(vec![panel(7)]));
    locator.answer(&name_reply(OUTPUT_INTERNAL));
    expect_question(&mut locator, ask(DeviceQuery::AdvancedColor2, 7), failure(87));
    expect_question(
        &mut locator,
        ask(DeviceQuery::AdvancedColorLegacy, 7),
        color_reply(3, 0),
    );
    expect_question(&mut locator, ask(DeviceQuery::WhiteLevel, 7), failure(1));
    assert_eq!(
        locator.step(),
        LookupStep::Done(TargetLookup::InspectionUnavailable)
    );

    for (reply, lookup) in [
        (color_reply(1, 0), TargetLookup::NoHdrTarget),
        (failure(1), TargetLookup::InspectionUnavailable),
    ] {
        let mut locator = locate_hdr_target(Some(vec![panel(7)]));
        locator.answer(&name_reply(OUTPUT_INTERNAL));
        locator.answer(&failure(87));
        locator.answer(&reply);
        assert_eq!(locator.step(), LookupStep::Done(lookup));
    }
}

#[test]
fn disabled_hdr_is_no_target() {
    let mut locator = locate_hdr_target(Some(vec![panel(7)]));
    locator.answer(&name_reply(OUTPUT_INTERNAL));
    locator.answer(&color_reply(0x10, 2));
    assert_eq!(locator.step(), LookupStep::Done(TargetLookup::NoHdrTarget));
}

#[test]
fn white_level_is_written_once_and_read_once() {
    let mut apply = ready_to_write(2_000, 1_500);
    assert_eq!(
        apply.step(),
        ApplyStep::Write(WriteRequest {
            adapter: ADAPTER,
            target_id: 7,
            white_level: 2_000,
        })
    );
    apply.answer(&failure(0));
    assert_eq!(apply.step(), ApplyStep::Ask(ask(DeviceQuery::WhiteLevel, 7)));
    apply.answer(&level_reply(2_000));
    assert_eq!(
        apply.step(),
        ApplyStep::Done(ApplyOutcome::AppliedAndVerified)
    );
    apply.answer(&level_reply(0));
    assert_eq!(
        apply.step(),
        ApplyStep::Done(ApplyOutcome::AppliedAndVerified)
    );
}

#[test]
fn mismatch_after_the_write_is_not_retried() {
    for (reply, observed) in [(level_reply(1_950), Some(1_950)), (failure(9), None)] {
        let mut apply = ready_to_write(2_000, 1_500);
        apply.answer(&failure(0));
        apply.answer(&reply);
        assert_eq!(
            apply.step(),
            ApplyStep::Done(ApplyOutcome::VerificationFailed {
                expected: 2_000,
                observed
            })
        );
    }
}

#[test]
fn correct_level_is_not_written() {
    assert_eq!(
        ready_to_write(2_000, 2_000).step(),
        ApplyStep::Done(ApplyOutcome::AlreadyCorrect)
    );
}

#[test]
fn failed_write_is_reported_with_its_status() {
    let mut apply = ready_to_write(2_000, 1_500);
    apply.answer(&failure(5));
    assert_eq!(apply.step(), ApplyStep::Done(ApplyOutcome::SetFailed(5)));
}

#[test]
fn attempt_without_panel_writes_nothing() {
    assert_eq!(
        apply_sdr_white_level(2_000, None).step(),
        ApplyStep::Done(ApplyOutcome::TopologyUnavailable)
    );
    assert_eq!(
        apply_sdr_white_level(2_000, Some(vec![])).step(),
        ApplyStep::Done(ApplyOutcome::NoHdrTarget)
    );
    let mut apply = apply_sdr_white_level(2_000, Some(vec![panel(1), panel(2)]));
    apply.answer(&name_reply(OUTPUT_INTERNAL));
    apply.answer(&name_reply(OUTPUT_INTERNAL));
    assert_eq!(
        apply.step(),
        ApplyStep::Done(ApplyOutcome::AmbiguousInternalTargets)
    );
    let mut apply = apply_sdr_white_level(2_000, Some(vec![panel(1)]));
    apply.answer(&failure(1));
    assert_eq!(
        apply.step(),
        ApplyStep::Done(ApplyOutcome::InspectionUnavailable)
    );
}

#[test]
fn packets_carry_their_headers() {
    assert_eq!(
        color_2_packet(ADAPTER, 7),
        [15, 36, 1, 0xffff_fffe, 7, 0, 0, 0, 0]
    );
    assert_eq!(
        color_2_state(&[0, 0, 0, 0, 0, 0x30, 8, 9, 2]),
        (0x30, 2)
    );
    assert_eq!(
        color_2_state(&[0, 0, 0, 0, 0, 1, 0, 0, 0xffff_ffff]),
        (1, -1)
    );
    assert_eq!(
        set_packet(&WriteRequest {
            adapter: ADAPTER,
            target_id: 7,
            white_level: 6_000,
        }),
        [0xffff_ffee, 28, 1, 0xffff_fffe, 7, 6_000, 1]
    );
    assert_eq!(
        (HEADER_SIZE, SET_SDR_WHITE_LEVEL_SIZE, GET_ADVANCED_COLOR_INFO_2_SIZE),
        (20, 28, 36)
    );
    assert_eq!(device_header(2, 420, ADAPTER, 7).size, 420);
    assert_eq!(device_header(2, usize::MAX, ADAPTER, 7).size, 0);
    assert_eq!(query_kind(DeviceQuery::TargetName), 2);
    assert_eq!(query_kind(DeviceQuery::AdvancedColorLegacy), 9);
    assert_eq!(query_kind(DeviceQuery::WhiteLevel), 11);
    assert_eq!(query_kind(DeviceQuery::AdvancedColor2), 15);
}

#[test]
fn topology_is_read_again_when_it_outgrew_its_buffers() {
    let mut query = active_paths();
    for _ in 0..2 {
        assert_eq!(query.step, TopologyStep::QuerySizes);
        query.answer(SUCCESS);
        assert_eq!(query.step, TopologyStep::QueryPaths);
        query.answer(INSUFFICIENT_BUFFER);
    }
    assert_eq!(query.step, TopologyStep::QuerySizes);
    query.answer(SUCCESS);
    let mut lucky = query;
    lucky.answer(SUCCESS);
    assert_eq!(lucky.step, TopologyStep::Ready);
    query.answer(INSUFFICIENT_BUFFER);
    assert_eq!(query.step, TopologyStep::Unavailable);
}

#[test]
fn topology_fails_with_either_call() {
    let mut query = active_paths();
    query.answer(INSUFFICIENT_BUFFER);
    assert_eq!(query.step, TopologyStep::Unavailable);
    let mut query = active_paths();
    query.answer(SUCCESS);
    query.answer(5);
    assert_eq!(query.step, TopologyStep::Unavailable);
}

#[test]
fn only_returned_paths_are_kept() {
    let paths = vec![panel(1), panel(2), panel(3)];
    assert_eq!(returned_paths(paths.clone(), 2), vec![panel(1), panel(2)]);
    assert_eq!(returned_paths(paths.clone(), 3), paths);
    assert_eq!(returned_paths(paths.clone(), 9), paths);
    assert_eq!(returned_paths(paths, 0), vec![]);
}

#[test]
fn attempt_reads_the_topology_first() {
    let mut attempt = Attempt::begin(Purpose::Apply(2_000));
    assert_eq!(attempt.step(), AttemptStep::QuerySizes);
    attempt.answer_read(SUCCESS, vec![], 0);
    assert_eq!(attempt.step(), AttemptStep::QueryPaths);
    attempt.answer_read(INSUFFICIENT_BUFFER, vec![panel(1)], 1);
    assert_eq!(attempt.step(), AttemptStep::QuerySizes);
    attempt.answer_read(SUCCESS, vec![], 0);
    attempt.answer_read(SUCCESS, vec![panel(7), panel(8)], 1);
    assert_eq!(
        attempt.step(),
        AttemptStep::Ask(ask(DeviceQuery::TargetName, 7))
    );
    attempt.answer_read(SUCCESS, vec![], 0);
    attempt.answer(&name_reply(OUTPUT_INTERNAL));
    attempt.answer(&color_reply(0x30, 2));
    attempt.answer(&level_reply(1_000));
    assert_eq!(
        attempt.step(),
        AttemptStep::Write(WriteRequest {
            adapter: ADAPTER,
            target_id: 7,
            white_level: 2_000,
        })
    );
    attempt.answer(&failure(0));
    attempt.answer(&level_reply(2_000));
    assert_eq!(
        attempt.step(),
        AttemptStep::Applied(ApplyOutcome::AppliedAndVerified)
    );
}

#[test]
fn probe_reads_the_topology_and_writes_nothing() {
    let mut attempt = Attempt::begin(Purpose::Probe);
    attempt.answer_read(SUCCESS, vec![], 0);
    attempt.answer_read(SUCCESS, vec![panel(7)], 1);
    attempt.answer(&name_reply(OUTPUT_INTERNAL));
    attempt.answer(&color_reply(0x30, 2));
    attempt.answer(&level_reply(1_500));
    assert_eq!(
        attempt.step(),
        AttemptStep::Probed(ProbeOutcome::Sample(ProbeSample {
            adapter_low: 1,
            adapter_high: -2,
            target_id: 7,
            raw_white_level: 1_500,
        }))
    );
}

#[test]
fn attempt_without_topology_ends() {
    let mut attempt = Attempt::begin(Purpose::Apply(2_000));
    attempt.answer_read(5, vec![], 0);
    assert_eq!(
        attempt.step(),
        AttemptStep::Applied(ApplyOutcome::TopologyUnavailable)
    );
    let mut attempt = Attempt::begin(Purpose::Probe);
    attempt.answer_read(SUCCESS, vec![], 0);
    attempt.answer_read(5, vec![panel(7)], 1);
    assert_eq!(
        attempt.step(),
        AttemptStep::Probed(ProbeOutcome::TopologyUnavailable)
    );
}
