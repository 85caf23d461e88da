//! Displays: what the system can be asked about them, and what its replies mean.

use vstd::prelude::*;

verus! {

/// The request type that reads a target's name and connector.
pub const GET_TARGET_NAME: i32 = 2;

/// The request type that reads the advanced colour state.
pub const GET_ADVANCED_COLOR_INFO: i32 = 9;

/// The request type that reads the SDR white level.
pub const GET_SDR_WHITE_LEVEL: i32 = 11;

/// The request type that reads the advanced colour state in its second version.
pub const GET_ADVANCED_COLOR_INFO_2: i32 = 15;

/// The undocumented request type that writes the SDR white level.
pub const SET_SDR_WHITE_LEVEL: i32 = -18;

/// The active colour mode of a panel in HDR.
pub const HDR_MODE: i32 = 2;

/// How often the display topology is read when it changes between the two calls that read it.
pub const MAX_TOPOLOGY_SNAPSHOTS: u32 = 3;

/// The system's status for success.
pub const SUCCESS: u32 = 0;

/// The system's status for a buffer that became too small.
pub const INSUFFICIENT_BUFFER: u32 = 122;

/// Connectors of built-in panels.
pub const OUTPUT_INTERNAL: i32 = -0x8000_0000;

pub const OUTPUT_DISPLAYPORT_EMBEDDED: i32 = 11;

pub const OUTPUT_UDI_EMBEDDED: i32 = 13;

pub const OUTPUT_LVDS: i32 = 6;

/// The locally unique number of a display adapter.
#[derive(Clone, Copy, Debug, PartialEq, Eq, Structural)]
pub struct Adapter {
    pub low: u32,
    pub high: i32,
}

/// What tells one display target from another.
#[derive(Clone, Copy, Debug, PartialEq, Eq, Structural)]
pub struct TargetKey {
    pub adapter_low: u32,
    pub adapter_high: i32,
    pub target_id: u32,
}

impl TargetKey {
    pub open spec fn spec_new(adapter: Adapter, target_id: u32) -> Self {
        TargetKey { adapter_low: adapter.low, adapter_high: adapter.high, target_id }
    }

    /// The key of a target of an adapter.
    pub fn new(adapter: Adapter, target_id: u32) -> (key: Self)
        ensures
            key == TargetKey::spec_new(adapter, target_id),
    {
        TargetKey { adapter_low: adapter.low, adapter_high: adapter.high, target_id }
    }
}

/// The target end of an active display path.
#[derive(Clone, Copy, Debug, PartialEq, Eq, Structural)]
pub struct PathTarget {
    pub adapter: Adapter,
    pub id: u32,
    pub available: bool,
    pub technology: i32,
}

/// The panel that was chosen, and its white level when it was looked at.
#[derive(Clone, Copy, Debug, PartialEq, Eq, Structural)]
pub struct HdrTarget {
    pub adapter: Adapter,
    pub target_id: u32,
    pub current_white_level: u32,
}

/// One reading of the white level.
#[derive(Clone, Copy, Debug, PartialEq, Eq, Structural)]
pub struct ProbeSample {
    pub adapter_low: u32,
    pub adapter_high: i32,
    pub target_id: u32,
    pub raw_white_level: u32,
}

/// What came of an attempt to read the white level.
#[derive(Clone, Copy, Debug, PartialEq, Eq, Structural)]
pub enum ProbeOutcome {
    Sample(ProbeSample),
    NoHdrTarget,
    AmbiguousInternalTargets,
    TopologyUnavailable,
    InspectionUnavailable,
}

/// What came of an attempt to set the white level.
#[derive(Clone, Copy, Debug, PartialEq, Eq, Structural)]
pub enum ApplyOutcome {
    AppliedAndVerified,
    AlreadyCorrect,
    NoHdrTarget,
    AmbiguousInternalTargets,
    TopologyUnavailable,
    InspectionUnavailable,
    SetFailed(i32),
    VerificationFailed { expected: u32, observed: Option<u32> },
}

/// What came of the search for the panel.
#[derive(Clone, Copy, Debug, PartialEq, Eq, Structural)]
pub enum TargetLookup {
    Found(HdrTarget),
    NoHdrTarget,
    AmbiguousInternalTargets,
    TopologyUnavailable,
    InspectionUnavailable,
}

/// What can be asked about a target.
#[derive(Clone, Copy, Debug, PartialEq, Eq, Structural)]
pub enum DeviceQuery {
    TargetName,
    AdvancedColor2,
    AdvancedColorLegacy,
    WhiteLevel,
}

/// A question about a target.
#[derive(Clone, Copy, Debug, PartialEq, Eq, Structural)]
pub struct DeviceRequest {
    pub query: DeviceQuery,
    pub adapter: Adapter,
    pub target_id: u32,
}

/// The system's reply: a status, zero for success, and the fields that the question is about.
/// The other fields mean nothing.
#[derive(Clone, Copy, Debug, PartialEq, Eq, Structural)]
pub struct DeviceReply {
    pub status: i32,
    pub technology: i32,
    pub flags: u32,
    pub color_mode: i32,
    pub white_level: u32,
}

/// Whether a connector is that of a built-in panel.
pub open spec fn built_in(technology: i32) -> bool {
    ||| technology == OUTPUT_INTERNAL
    ||| technology == OUTPUT_DISPLAYPORT_EMBEDDED
    ||| technology == OUTPUT_UDI_EMBEDDED
    ||| technology == OUTPUT_LVDS
}

/// Whether a connector is that of a built-in panel.
pub fn is_internal(technology: i32) -> (result: bool)
    ensures
        result == built_in(technology),
        result <==> technology == -0x8000_0000 || technology == 11 || technology == 13 || technology
            == 6,
{
    technology == OUTPUT_INTERNAL || technology == OUTPUT_DISPLAYPORT_EMBEDDED || technology
        == OUTPUT_UDI_EMBEDDED || technology == OUTPUT_LVDS
}

/// Whether the bit with the given weight is set in a word.
pub open spec fn has_bit(word: u32, weight: u32) -> bool {
    (word / weight) % 2 == 1
}

/// Whether HDR is on: the panel supports it (bit 4), the user enabled it (bit 5), and it is the
/// active colour mode.
pub open spec fn hdr_v2(flags: u32, active_color_mode: i32) -> bool {
    has_bit(flags, 16) && has_bit(flags, 32) && active_color_mode == HDR_MODE
}

/// Whether HDR is on, from the second version of the advanced colour state.
pub fn hdr_v2_enabled(flags: u32, active_color_mode: i32) -> (result: bool)
    ensures
        result == hdr_v2(flags, active_color_mode),
        result <==> flags & 0x10 != 0 && flags & 0x20 != 0 && active_color_mode == 2,
{
    proof {
        assert(1u32 << 4 == 0x10 && 1u32 << 5 == 0x20) by (bit_vector);
        assert(flags & (1u32 << 4) != 0 <==> (flags / 16) % 2 == 1) by (bit_vector);
        assert(flags & (1u32 << 5) != 0 <==> (flags / 32) % 2 == 1) by (bit_vector);
    }
    let hdr_supported: bool = flags & (1u32 << 4) != 0;
    let hdr_user_enabled: bool = flags & (1u32 << 5) != 0;
    hdr_supported && hdr_user_enabled && active_color_mode == HDR_MODE
}

/// Whether advanced colour is on: it is supported (bit 0) and enabled (bit 1).
pub open spec fn legacy_advanced_color(flags: u32) -> bool {
    has_bit(flags, 1) && has_bit(flags, 2)
}

/// Whether advanced colour is on, from the first version of its state.
pub fn legacy_advanced_color_enabled(flags: u32) -> (result: bool)
    ensures
        result == legacy_advanced_color(flags),
        result <==> flags & 0x1 != 0 && flags & 0x2 != 0,
{
    proof {
        assert(flags & 3u32 == 3u32 <==> flags & 0x1 != 0 && flags & 0x2 != 0) by (bit_vector);
        assert(flags & 3u32 == 3u32 <==> (flags / 1) % 2 == 1 && (flags / 2) % 2 == 1) by (bit_vector);
    }
    flags & 0b11 == 0b11
}

/// Whether a reply says that the target is built in; nothing if the call failed.
pub open spec fn name_is_internal(reply: DeviceReply) -> Result<bool, ()> {
    if reply.status == 0 {
        Ok(built_in(reply.technology))
    } else {
        Err(())
    }
}

/// Whether the reply to a question for the target's name says that the target is built in.
pub fn target_name_is_internal(reply: &DeviceReply) -> (result: Result<bool, ()>)
    ensures
        result == name_is_internal(*reply),
        result is Ok <==> reply.status == 0,
        result matches Ok(internal) ==> (internal <==> reply.technology == -0x8000_0000
            || reply.technology == 11 || reply.technology == 13 || reply.technology == 6),
{
    if reply.status == 0 {
        Ok(is_internal(reply.technology))
    } else {
        Err(())
    }
}

/// What the reply to a question for the advanced colour state, second version, says of HDR.
pub open spec fn color_2(reply: DeviceReply) -> Option<bool> {
    if reply.status != 0 {
        None
    } else {
        Some(hdr_v2(reply.flags, reply.color_mode))
    }
}

/// What the reply to a question for the advanced colour state, second version, says of HDR.
pub fn advanced_color_info_2(reply: &DeviceReply) -> (result: Option<bool>)
    ensures
        result == color_2(*reply),
        result is Some <==> reply.status == 0,
        result matches Some(on) ==> (on <==> reply.flags & 0x10 != 0 && reply.flags & 0x20 != 0
            && reply.color_mode == 2),
{
    if reply.status != 0 {
        return None;
    }
    Some(hdr_v2_enabled(reply.flags, reply.color_mode))
}

/// What the reply to a question for the advanced colour state, first version, says of HDR.
pub open spec fn color_legacy(reply: DeviceReply) -> Option<bool> {
    if reply.status != 0 {
        None
    } else {
        Some(legacy_advanced_color(reply.flags))
    }
}

/// What the reply to a question for the advanced colour state, first version, says of HDR.
///
/// A panel with advanced colour but without HDR is rejected later: its white level cannot be read.
pub fn advanced_color_info_legacy(reply: &DeviceReply) -> (result: Option<bool>)
    ensures
        result == color_legacy(*reply),
        result is Some <==> reply.status == 0,
        result matches Some(on) ==> (on <==> reply.flags & 0x1 != 0 && reply.flags & 0x2 != 0),
{
    if reply.status != 0 {
        return None;
    }
    Some(legacy_advanced_color_enabled(reply.flags))
}

/// The white level in a reply, or the status with which the call failed.
pub open spec fn read_level(reply: DeviceReply) -> Result<u32, i32> {
    if reply.status == 0 {
        Ok(reply.white_level)
    } else {
        Err(reply.status)
    }
}

/// The white level in a reply, or the status with which the call failed.
pub fn get_sdr_white_level(reply: &DeviceReply) -> (result: Result<u32, i32>)
    ensures
        result == read_level(*reply),
        reply.status == 0 ==> result == Ok::<u32, i32>(reply.white_level),
        reply.status != 0 ==> result == Err::<u32, i32>(reply.status),
{
    if reply.status == 0 {
        Ok(reply.white_level)
    } else {
        Err(reply.status)
    }
}

/// The only candidate; nothing if there is none, an error if there are several.
pub open spec fn only_candidate(candidates: Seq<(Adapter, u32)>) -> Result<
    Option<(Adapter, u32)>,
    (),
> {
    if candidates.len() == 0 {
        Ok(None)
    } else if candidates.len() == 1 {
        Ok(Some(candidates[0]))
    } else {
        Err(())
    }
}

/// The only candidate; nothing if there is none, an error if there are several.
pub fn unique_candidate(candidates: &[(Adapter, u32)]) -> (result: Result<
    Option<(Adapter, u32)>,
    (),
>)
    ensures
        result == only_candidate(candidates@),
        result is Err <==> candidates@.len() > 1,
        result matches Ok(Some(candidate)) ==> candidates@ == seq![candidate],
        result matches Ok(None) ==> candidates@.len() == 0,
{
    assert(candidates@.len() == 1 ==> candidates@ =~= seq![candidates@[0]]);
    if candidates.len() == 0 {
        Ok(None)
    } else if candidates.len() == 1 {
        Ok(Some(candidates[0]))
    } else {
        Err(())
    }
}

/// The outcome of a write that succeeded, from one reading of the level after it.
pub open spec fn verified(expected: u32, observed: Result<u32, i32>) -> ApplyOutcome {
    if observed == Ok::<u32, i32>(expected) {
        ApplyOutcome::AppliedAndVerified
    } else {
        ApplyOutcome::VerificationFailed { expected, observed: observed.ok() }
    }
}

/// The outcome of a write that succeeded, from one reading of the level after it.
pub fn verification_outcome(expected: u32, observed: Result<u32, i32>) -> (outcome: ApplyOutcome)
    ensures
        outcome == verified(expected, observed),
        outcome is AppliedAndVerified <==> observed == Ok::<u32, i32>(expected),
        !(outcome is AppliedAndVerified) ==> outcome == (ApplyOutcome::VerificationFailed {
            expected,
            observed: match observed {
                Ok(level) => Some(level),
                Err(_) => None,
            },
        }),
{
    match observed {
        Ok(observed) => {
            if observed == expected {
                ApplyOutcome::AppliedAndVerified
            } else {
                ApplyOutcome::VerificationFailed { expected, observed: Some(observed) }
            }
        },
        Err(_) => ApplyOutcome::VerificationFailed { expected, observed: None },
    }
}

/// HDR is on exactly if bits 4 and 5 of the flags are set and the colour mode is the one of HDR. All
/// other bits make no difference.
pub proof fn hdr_rests_on_two_bits_and_the_mode(flags: u32, other: u32, mode: i32)
    requires
        other & 0x30 == 0,
    ensures
        hdr_v2(flags, mode) <==> flags & 0x10 != 0 && flags & 0x20 != 0 && mode == 2,
        hdr_v2(flags | other, mode) == hdr_v2(flags, mode),
        hdr_v2(flags | 0x30, 2),
        !hdr_v2(flags & !0x10u32, mode) && !hdr_v2(flags & !0x20u32, mode),
{
    let joined = flags | other;
    let (all, first, second) = (flags | 0x30, flags & !0x10u32, flags & !0x20u32);
    assert((joined / 16) % 2 == (flags / 16) % 2 && (joined / 32) % 2 == (flags / 32) % 2)
        by (bit_vector)
        requires
            joined == flags | other,
            other & 0x30 == 0,
    ;
    assert((all / 16) % 2 == 1 && (all / 32) % 2 == 1) by (bit_vector)
        requires
            all == flags | 0x30,
    ;
    assert((first / 16) % 2 == 0) by (bit_vector)
        requires
            first == flags & !0x10u32,
    ;
    assert((second / 32) % 2 == 0) by (bit_vector)
        requires
            second == flags & !0x20u32,
    ;
    assert((flags / 16) % 2 == 1 <==> flags & 0x10 != 0) by (bit_vector);
    assert((flags / 32) % 2 == 1 <==> flags & 0x20 != 0) by (bit_vector);
}

/// By the older state, colour is advanced exactly if bits 0 and 1 of the flags are set. All other
/// bits make no difference.
pub proof fn legacy_color_rests_on_two_bits(flags: u32, other: u32)
    requires
        other & 0x3 == 0,
    ensures
        legacy_advanced_color(flags) <==> flags & 0x1 != 0 && flags & 0x2 != 0,
        legacy_advanced_color(flags | other) == legacy_advanced_color(flags),
        legacy_advanced_color(flags | 0x3),
{
    let joined = flags | other;
    let all = flags | 0x3;
    assert((joined / 1) % 2 == (flags / 1) % 2 && (joined / 2) % 2 == (flags / 2) % 2)
        by (bit_vector)
        requires
            joined == flags | other,
            other & 0x3 == 0,
    ;
    assert((all / 1) % 2 == 1 && (all / 2) % 2 == 1) by (bit_vector)
        requires
            all == flags | 0x3,
    ;
    assert((flags / 1) % 2 == 1 <==> flags & 0x1 != 0) by (bit_vector);
    assert((flags / 2) % 2 == 1 <==> flags & 0x2 != 0) by (bit_vector);
}

/// The connectors of built-in panels are these four, and no other number is one.
pub proof fn built_in_connectors_are_four(technology: i32)
    ensures
        built_in(technology) <==> technology == -0x8000_0000 || technology == 11 || technology == 13
            || technology == 6,
{
}

} // verus!
