//! The packets that the display configuration calls take, as 32-bit words.
//!
//! A packet begins with a header of five words: the request type, the packet's size in bytes, the
//! two halves of the adapter's number, and the target's number. Words hold the fields at their
//! places in memory on little-endian machines, the only ones that the system runs on.

use vstd::prelude::*;

use crate::apply::WriteRequest;
use crate::display::{
    Adapter, DeviceQuery, GET_ADVANCED_COLOR_INFO, GET_ADVANCED_COLOR_INFO_2, GET_SDR_WHITE_LEVEL,
    GET_TARGET_NAME, SET_SDR_WHITE_LEVEL,
};

verus! {

/// The size of a packet header in bytes.
pub const HEADER_SIZE: usize = 20;

/// The size in bytes of the packet that writes the white level.
pub const SET_SDR_WHITE_LEVEL_SIZE: usize = 28;

/// The size in bytes of the packet that reads the advanced colour state, second version.
pub const GET_ADVANCED_COLOR_INFO_2_SIZE: usize = 36;

/// The packet that writes the white level: the header, the level at byte 20, and at byte 24 a
/// byte that marks the value as final, with three bytes of padding.
pub type SetSdrWhiteLevel = [u32; 7];

/// The packet that reads the advanced colour state, second version: the header, the flags at byte
/// 20, the colour encoding, the bits per channel, and the active colour mode at byte 32.
pub type GetAdvancedColorInfo2 = [u32; 9];

/// The header of a packet.
#[derive(Clone, Copy, Debug, PartialEq, Eq, Structural)]
pub struct DeviceHeader {
    pub kind: i32,
    pub size: u32,
    pub adapter: Adapter,
    pub target_id: u32,
}

/// The header of a packet of the given type and size for a target. A size that no header can hold
/// becomes zero, which the system rejects.
pub fn device_header(kind: i32, size: usize, adapter: Adapter, target_id: u32) -> (header:
    DeviceHeader)
    ensures
        header == (DeviceHeader {
            kind,
            size: if size <= u32::MAX {
                size as u32
            } else {
                0
            },
            adapter,
            target_id,
        }),
{
    let size: u32 = if size <= u32::MAX as usize {
        size as u32
    } else {
        0
    };
    DeviceHeader { kind, size, adapter, target_id }
}

/// The request type of a question.
pub open spec fn kind_of(query: DeviceQuery) -> i32 {
    match query {
        DeviceQuery::TargetName => GET_TARGET_NAME,
        DeviceQuery::AdvancedColor2 => GET_ADVANCED_COLOR_INFO_2,
        DeviceQuery::AdvancedColorLegacy => GET_ADVANCED_COLOR_INFO,
        DeviceQuery::WhiteLevel => GET_SDR_WHITE_LEVEL,
    }
}

/// The request type of a question.
pub fn query_kind(query: DeviceQuery) -> (kind: i32)
    ensures
        kind == kind_of(query),
        kind == match query {
            DeviceQuery::TargetName => 2,
            DeviceQuery::AdvancedColor2 => 15,
            DeviceQuery::AdvancedColorLegacy => 9,
            DeviceQuery::WhiteLevel => 11i32,
        },
{
    match query {
        DeviceQuery::TargetName => GET_TARGET_NAME,
        DeviceQuery::AdvancedColor2 => GET_ADVANCED_COLOR_INFO_2,
        DeviceQuery::AdvancedColorLegacy => GET_ADVANCED_COLOR_INFO,
        DeviceQuery::WhiteLevel => GET_SDR_WHITE_LEVEL,
    }
}

/// The word with the same bits as a signed number.
pub open spec fn word(value: i32) -> u32 {
    if value >= 0 {
        value as u32
    } else {
        (value + 0x1_0000_0000) as u32
    }
}

/// The word with the same bits as a signed number.
pub(crate) fn to_word(value: i32) -> (result: u32)
    ensures
        result == word(value),
{
    assert(value < 0 ==> value as u32 as int == value + 0x1_0000_0000) by (bit_vector);
    value as u32
}

/// The signed number with the same bits as a word.
fn from_word(value: u32) -> (result: i32)
    ensures
        word(result) == value,
{
    assert((value as i32) < 0 ==> (value as i32) + 0x1_0000_0000 == value) by (bit_vector);
    assert((value as i32) >= 0 ==> (value as i32) as u32 == value) by (bit_vector);
    value as i32
}

/// The words of a header.
pub open spec fn header_words(header: DeviceHeader) -> Seq<u32> {
    seq![
        word(header.kind),
        header.size,
        header.adapter.low,
        word(header.adapter.high),
        header.target_id,
    ]
}

/// The packet that performs a write.
pub fn set_packet(write: &WriteRequest) -> (packet: SetSdrWhiteLevel)
    ensures
        packet@ == header_words(
            DeviceHeader {
                kind: SET_SDR_WHITE_LEVEL,
                size: 28,
                adapter: write.adapter,
                target_id: write.target_id,
            },
        ) + seq![write.white_level, 1u32],
        packet@.len() == 7,
        packet@[0] == 0xffff_ffee,
        packet@[1] == 28,
        packet@[2] == write.adapter.low,
        packet@[3] as int == if write.adapter.high >= 0 {
            write.adapter.high as int
        } else {
            write.adapter.high + 0x1_0000_0000
        },
        packet@[4] == write.target_id,
        packet@[5] == write.white_level,
        packet@[6] == 1,
{
    let header = device_header(
        SET_SDR_WHITE_LEVEL,
        SET_SDR_WHITE_LEVEL_SIZE,
        write.adapter,
        write.target_id,
    );
    let packet: SetSdrWhiteLevel = [
        to_word(header.kind),
        header.size,
        header.adapter.low,
        to_word(header.adapter.high),
        header.target_id,
        write.white_level,
        1,
    ];
    assert(packet@ =~= header_words(header) + seq![write.white_level, 1u32]);
    packet
}

/// The packet that asks for the advanced colour state, second version, with nothing filled in.
pub fn color_2_packet(adapter: Adapter, target_id: u32) -> (packet: GetAdvancedColorInfo2)
    ensures
        packet@ == header_words(
            DeviceHeader { kind: GET_ADVANCED_COLOR_INFO_2, size: 36, adapter, target_id },
        ) + seq![0u32, 0u32, 0u32, 0u32],
        packet@.len() == 9,
        packet@[0] == 15,
        packet@[1] == 36,
        packet@[2] == adapter.low,
        packet@[3] as int == if adapter.high >= 0 {
            adapter.high as int
        } else {
            adapter.high + 0x1_0000_0000
        },
        packet@[4] == target_id,
        forall|i: int| 5 <= i < 9 ==> packet@[i] == 0,
{
    let header = device_header(
        GET_ADVANCED_COLOR_INFO_2,
        GET_ADVANCED_COLOR_INFO_2_SIZE,
        adapter,
        target_id,
    );
    let packet: GetAdvancedColorInfo2 = [
        to_word(header.kind),
        header.size,
        header.adapter.low,
        to_word(header.adapter.high),
        header.target_id,
        0,
        0,
        0,
        0,
    ];
    assert(packet@ =~= header_words(header) + seq![0u32, 0u32, 0u32, 0u32]);
    packet
}

/// The flags and the active colour mode in a packet that the system filled in.
pub fn color_2_state(packet: &GetAdvancedColorInfo2) -> (state: (u32, i32))
    ensures
        state.0 == packet@[5],
        word(state.1) == packet@[8],
        state.1 as int == if packet@[8] < 0x8000_0000 {
            packet@[8] as int
        } else {
            packet@[8] - 0x1_0000_0000
        },
{
    (packet[5], from_word(packet[8]))
}

/// Words tell signed numbers apart: two numbers with the same bits are one.
pub proof fn words_are_distinct(first: i32, second: i32)
    ensures
        word(first) == word(second) <==> first == second,
{
}

/// The word of a signed number is the number itself, or that much below two to the power of 32.
pub proof fn word_keeps_the_bits(value: i32)
    ensures
        value >= 0 ==> word(value) == value,
        value < 0 ==> word(value) == 0x1_0000_0000 + value,
{
}

} // verus!
