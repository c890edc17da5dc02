use vstd::prelude::*;

pub mod car_telemetry;
pub mod event;
pub mod header;
pub mod motion;

use crate::error::F1Error;
use crate::reader::Reader;

use self::car_telemetry::{
    parse_car_telemetry_packet, telemetry_at, TelemetryData, TelemetryDataView,
    CAR_TELEMETRY_SIZE,
};
use self::event::{event_at, event_payload_size, parse_event_packet, EventData, EVENT_CODE_SIZE};
use self::header::{
    header_at, header_fields_at, packet_id_of, parse_header, Header, PacketId, HEADER_SIZE,
};
use self::motion::{motion_at, parse_motion_packet, MotionData, MotionDataView, MOTION_PACKET_SIZE};

verus! {

/// The payload of a packet. Its variant follows from the header's packet kind.
#[derive(Debug, Clone, PartialEq, Eq)]
pub enum PacketType {
    Motion(MotionData),
    Event(EventData),
    CarTelemetry(TelemetryData),
    /// A defined packet kind whose payload is not decoded.
    Unimplemented,
}

/// A decoded datagram: its header and its payload.
#[derive(Debug, Clone, PartialEq, Eq)]
pub struct Packet {
    pub header: Header,
    pub data: PacketType,
}

/// A payload as a mathematical value.
pub ghost enum PacketTypeView {
    Motion(MotionDataView),
    Event(EventData),
    CarTelemetry(TelemetryDataView),
    Unimplemented,
}

/// A decoded datagram as a mathematical value.
pub ghost struct PacketView {
    pub header: Header,
    pub data: PacketTypeView,
}

impl View for PacketType {
    type V = PacketTypeView;

    open spec fn view(&self) -> PacketTypeView {
        match self {
            PacketType::Motion(m) => PacketTypeView::Motion(m@),
            PacketType::Event(e) => PacketTypeView::Event(*e),
            PacketType::CarTelemetry(t) => PacketTypeView::CarTelemetry(t@),
            PacketType::Unimplemented => PacketTypeView::Unimplemented,
        }
    }
}

impl View for Packet {
    type V = PacketView;

    open spec fn view(&self) -> PacketView {
        PacketView { header: self.header, data: self.data@ }
    }
}

/// A decoding result as a mathematical value.
pub open spec fn result_view(r: Result<Packet, F1Error>) -> Result<PacketView, F1Error> {
    match r {
        Ok(p) => Ok(p@),
        Err(e) => Err(e),
    }
}

/// What decoding the payload of a packet of kind `id` from position `p` of `s` gives.
///
/// Only motion, event and car-telemetry payloads are decoded; every other
/// defined kind gives `Unimplemented` whatever its bytes.
pub open spec fn payload_at(s: Seq<u8>, p: int, id: PacketId) -> Result<PacketTypeView, F1Error> {
    match id {
        PacketId::Motion => if s.len() - p < MOTION_PACKET_SIZE {
            Err(F1Error::IncompleteData)
        } else {
            Ok(PacketTypeView::Motion(motion_at(s, p)))
        },
        PacketId::Event => match event_at(s, p) {
            Ok(e) => Ok(PacketTypeView::Event(e)),
            Err(e) => Err(e),
        },
        PacketId::CarTelemetry => if s.len() - p < CAR_TELEMETRY_SIZE {
            Err(F1Error::IncompleteData)
        } else {
            Ok(PacketTypeView::CarTelemetry(telemetry_at(s, p)))
        },
        _ => Ok(PacketTypeView::Unimplemented),
    }
}

/// What decoding a packet from position `p` of `s` gives: its header, then
/// the payload that the header's kind calls for.
pub open spec fn packet_at(s: Seq<u8>, p: int) -> Result<PacketView, F1Error> {
    match header_at(s, p) {
        Err(e) => Err(e),
        Ok(h) => match payload_at(s, p + HEADER_SIZE, h.packet_id) {
            Ok(d) => Ok(PacketView { header: h, data: d }),
            Err(e) => Err(e),
        },
    }
}

/// What decoding the datagram `s` gives.
pub open spec fn packet_of(s: Seq<u8>) -> Result<PacketView, F1Error> {
    packet_at(s, 0)
}

/// The number of bytes that decoding a packet with payload `d` reads after the header.
pub open spec fn payload_size(d: PacketTypeView) -> int {
    match d {
        PacketTypeView::Motion(_) => MOTION_PACKET_SIZE as int,
        PacketTypeView::Event(e) => EVENT_CODE_SIZE + event_payload_size(e.event_string_code),
        PacketTypeView::CarTelemetry(_) => CAR_TELEMETRY_SIZE as int,
        PacketTypeView::Unimplemented => 0,
    }
}

/// Decodes a packet at the reader's position: the header, then its payload.
///
/// On success the reader has moved past the header and the payload bytes
/// that were decoded; on failure it has not moved.
pub fn parse_packet(buf: &mut Reader) -> (r: Result<Packet, F1Error>)
    ensures
        result_view(r) == packet_at(old(buf).bytes(), old(buf).pos()),
        final(buf).bytes() == old(buf).bytes(),
        match r {
            Ok(p) => final(buf).pos() == old(buf).pos() + HEADER_SIZE + payload_size(p@.data),
            Err(_) => final(buf).pos() == old(buf).pos(),
        },
{
    let mut cur = *buf;
    let header = match parse_header(&mut cur) {
        Ok(h) => h,
        Err(e) => return Err(e),
    };
    let data = match header.packet_id {
        PacketId::Motion => match parse_motion_packet(&mut cur) {
            Ok(m) => PacketType::Motion(m),
            Err(e) => return Err(e),
        },
        PacketId::Event => match parse_event_packet(&mut cur) {
            Ok(e) => PacketType::Event(e),
            Err(e) => return Err(e),
        },
        PacketId::CarTelemetry => match parse_car_telemetry_packet(&mut cur) {
            Ok(t) => PacketType::CarTelemetry(t),
            Err(e) => return Err(e),
        },
        _ => PacketType::Unimplemented,
    };
    *buf = cur;
    Ok(Packet { header, data })
}

/// Decodes one complete datagram.
///
/// Fails with `IncompleteData` when the datagram is shorter than the header
/// or than the payload that its kind calls for, and with `ConversionError`
/// when its packet kind or event code is unknown.
pub fn decode(datagram: &[u8]) -> (r: Result<Packet, F1Error>)
    ensures
        result_view(r) == packet_of(datagram@),
{
    let mut buf = Reader::new(datagram);
    parse_packet(&mut buf)
}

/// Decoding holds no state: two decodings of the same bytes give equal
/// packets, or the same error. Both `decode` and `F1_2021_Decoder::decode`
/// state their result as `packet_of` of the bytes, so this covers either.
pub proof fn lemma_decode_repeatable(
    s1: Seq<u8>,
    s2: Seq<u8>,
    r1: Result<Packet, F1Error>,
    r2: Result<Packet, F1Error>,
)
    requires
        s1 == s2,
        result_view(r1) == packet_of(s1),
        result_view(r2) == packet_of(s2),
    ensures
        result_view(r1) == result_view(r2),
{
}

/// A datagram with a whole header whose kind is defined but not decoded
/// (session, lap data, participants and the others) decodes without error,
/// to its header and the `Unimplemented` payload, whatever follows the header.
pub proof fn lemma_undecoded_kind_passes(s: Seq<u8>, id: PacketId)
    requires
        s.len() >= HEADER_SIZE,
        packet_id_of(s[5]) == Some(id),
        id != PacketId::Motion,
        id != PacketId::Event,
        id != PacketId::CarTelemetry,
    ensures
        packet_of(s) == Ok::<PacketView, F1Error>(
            PacketView { header: header_fields_at(s, 0, id), data: PacketTypeView::Unimplemented },
        ),
{
}

} // verus!
