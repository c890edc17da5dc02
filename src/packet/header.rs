use vstd::prelude::*;

use crate::error::F1Error;
use crate::reader::{u16_at, u32_at, u64_at, Reader};
use crate::utils::{f32_at, parse_f32, Float32};

verus! {

/// The size of the header that starts every packet.
pub const HEADER_SIZE: usize = 24;

/// The common header of every packet.
#[derive(Debug, Clone, Copy, PartialEq, Eq)]
pub struct Header {
    pub format: u16,
    pub version: (u8, u8),
    pub packet_version: u8,
    pub packet_id: PacketId,
    pub session_uid: u64,
    pub session_time: Float32,
    pub frame_identifier: u32,
    pub player_car_index: u8,
    /// 255 where there is no second player.
    pub secondary_player_car_index: u8,
}

/// The kind of a packet, from its tag byte.
#[derive(Debug, Clone, Copy, PartialEq, Eq)]
pub enum PacketId {
    Motion,
    Session,
    LapData,
    Event,
    Participants,
    CarSetups,
    CarTelemetry,
    CarStatus,
    FinalClassification,
    LobbyInfo,
    CarDamage,
    SessionHistory,
}

/// The packet kind that the tag byte `b` names, if any.
pub open spec fn packet_id_of(b: u8) -> Option<PacketId> {
    match b {
        0 => Some(PacketId::Motion),
        1 => Some(PacketId::Session),
        2 => Some(PacketId::LapData),
        3 => Some(PacketId::Event),
        4 => Some(PacketId::Participants),
        5 => Some(PacketId::CarSetups),
        6 => Some(PacketId::CarTelemetry),
        7 => Some(PacketId::CarStatus),
        8 => Some(PacketId::FinalClassification),
        9 => Some(PacketId::LobbyInfo),
        10 => Some(PacketId::CarDamage),
        11 => Some(PacketId::SessionHistory),
        _ => None,
    }
}

impl PacketId {
    /// The packet kind that `value` names; a conversion error for any byte above 11.
    pub fn try_from(value: u8) -> (r: Result<PacketId, F1Error>)
        ensures
            r == (match packet_id_of(value) {
                Some(id) => Ok(id),
                None => Err(F1Error::ConversionError),
            }),
    {
        match value {
            0 => Ok(PacketId::Motion),
            1 => Ok(PacketId::Session),
            2 => Ok(PacketId::LapData),
            3 => Ok(PacketId::Event),
            4 => Ok(PacketId::Participants),
            5 => Ok(PacketId::CarSetups),
            6 => Ok(PacketId::CarTelemetry),
            7 => Ok(PacketId::CarStatus),
            8 => Ok(PacketId::FinalClassification),
            9 => Ok(PacketId::LobbyInfo),
            10 => Ok(PacketId::CarDamage),
            11 => Ok(PacketId::SessionHistory),
            _ => Err(F1Error::ConversionError),
        }
    }
}

/// The header held in the 24 bytes from `s[p]`, given a known packet kind `id`.
pub open spec fn header_fields_at(s: Seq<u8>, p: int, id: PacketId) -> Header {
    Header {
        format: u16_at(s, p),
        version: (s[p + 2], s[p + 3]),
        packet_version: s[p + 4],
        packet_id: id,
        session_uid: u64_at(s, p + 6),
        session_time: f32_at(s, p + 14),
        frame_identifier: u32_at(s, p + 18),
        player_car_index: s[p + 22],
        secondary_player_car_index: s[p + 23],
    }
}

/// What decoding a header from position `p` of `s` gives.
pub open spec fn header_at(s: Seq<u8>, p: int) -> Result<Header, F1Error> {
    if s.len() - p < HEADER_SIZE {
        Err(F1Error::IncompleteData)
    } else {
        match packet_id_of(s[p + 5]) {
            Some(id) => Ok(header_fields_at(s, p, id)),
            None => Err(F1Error::ConversionError),
        }
    }
}

/// Decodes the header at the reader's position.
///
/// On success the reader has moved past the 24 header bytes; on failure it
/// has not moved.
pub fn parse_header(buf: &mut Reader) -> (r: Result<Header, F1Error>)
    ensures
        r == header_at(old(buf).bytes(), old(buf).pos()),
        final(buf).bytes() == old(buf).bytes(),
        r is Ok ==> final(buf).pos() == old(buf).pos() + HEADER_SIZE,
        r is Err ==> final(buf).pos() == old(buf).pos(),
{
    if buf.remaining() < HEADER_SIZE {
        return Err(F1Error::IncompleteData);
    }
    let mut cur = *buf;
    let format = cur.get_u16_le();
    let version = (cur.get_u8(), cur.get_u8());
    let packet_version = cur.get_u8();
    let packet_id = match PacketId::try_from(cur.get_u8()) {
        Ok(id) => id,
        Err(e) => return Err(e),
    };
    let session_uid = cur.get_u64_le();
    let session_time = parse_f32(&mut cur);
    let frame_identifier = cur.get_u32_le();
    let player_car_index = cur.get_u8();
    let secondary_player_car_index = cur.get_u8();
    *buf = cur;

    Ok(Header {
        format,
        version,
        packet_version,
        packet_id,
        session_uid,
        session_time,
        frame_identifier,
        player_car_index,
        secondary_player_car_index,
    })
}

} // verus!
