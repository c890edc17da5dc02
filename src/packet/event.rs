use vstd::prelude::*;

use crate::error::F1Error;
use crate::reader::{u32_at, Reader};
use crate::utils::{f32_at, parse_f32, Float32};

verus! {

/// The size of the code that starts an event payload.
pub const EVENT_CODE_SIZE: usize = 4;

/// A decoded event payload: its code and what the code carries.
#[derive(Debug, Clone, Copy, PartialEq, Eq)]
pub struct EventData {
    pub event_string_code: EventCode,
    pub event_details: EventDataDetails,
}

/// What an event carries, one variant per event code.
#[derive(Debug, Clone, Copy, PartialEq, Eq)]
pub enum EventDataDetails {
    SessionStarted,
    SessionEnded,
    FastestLap { vehicle_idx: u8, lap_time: Float32 },
    Retirement { vehicle_idx: u8 },
    DRSEnabled,
    DRSDisabled,
    TeamMateInPits { vehicle_idx: u8 },
    ChequeredFlag,
    RaceWinner { vehicle_idx: u8 },
    Penalty {
        penalty_type: u8,
        infringement_type: u8,
        vehicle_idx: u8,
        other_vehicle_idx: u8,
        time: u8,
        lap_num: u8,
        places_gained: u8,
    },
    SpeedTrap {
        vehicle_idx: u8,
        speed: Float32,
        overall_fastest_in_session: u8,
        driver_fastest_in_session: u8,
    },
    StartLights { num_lights: u8 },
    LightsOut,
    DriveThroughPenaltyServed { vehicle_idx: u8 },
    StopGoPenaltyServed { vehicle_idx: u8 },
    Flashback { flashback_frame_identifier: u32, flashback_session_time: Float32 },
    Buttons { button_status: ButtonFlagSet },
}

/// The kind of an event, from its four-character code.
#[derive(Debug, Clone, Copy, PartialEq, Eq)]
pub enum EventCode {
    SessionStarted,
    SessionEnded,
    FastestLap,
    Retirement,
    DRSEnabled,
    DRSDisabled,
    TeamMateInPits,
    ChequeredFlag,
    RaceWinner,
    PenaltyIssued,
    SpeedTrapTriggered,
    StartLights,
    LightsOut,
    DriveThroughServed,
    StopGoServed,
    Flashback,
    ButtonStatus,
}

/// The event kind that the ASCII code `c` names, if any.
pub open spec fn event_code_of(c: Seq<u8>) -> Option<EventCode> {
    if c.len() != 4 {
        None
    } else {
        match (c[0], c[1], c[2], c[3]) {
            (0x53, 0x53, 0x54, 0x41) => Some(EventCode::SessionStarted),  // SSTA
            (0x53, 0x45, 0x4e, 0x44) => Some(EventCode::SessionEnded),  // SEND
            (0x46, 0x54, 0x4c, 0x50) => Some(EventCode::FastestLap),  // FTLP
            (0x52, 0x54, 0x4d, 0x54) => Some(EventCode::Retirement),  // RTMT
            (0x44, 0x52, 0x53, 0x45) => Some(EventCode::DRSEnabled),  // DRSE
            (0x44, 0x52, 0x53, 0x44) => Some(EventCode::DRSDisabled),  // DRSD
            (0x54, 0x4d, 0x50, 0x54) => Some(EventCode::TeamMateInPits),  // TMPT
            (0x43, 0x48, 0x51, 0x46) => Some(EventCode::ChequeredFlag),  // CHQF
            (0x52, 0x43, 0x57, 0x4e) => Some(EventCode::RaceWinner),  // RCWN
            (0x50, 0x45, 0x4e, 0x41) => Some(EventCode::PenaltyIssued),  // PENA
            (0x53, 0x50, 0x54, 0x50) => Some(EventCode::SpeedTrapTriggered),  // SPTP
            (0x53, 0x54, 0x4c, 0x47) => Some(EventCode::StartLights),  // STLG
            (0x4c, 0x47, 0x4f, 0x54) => Some(EventCode::LightsOut),  // LGOT
            (0x44, 0x54, 0x53, 0x56) => Some(EventCode::DriveThroughServed),  // DTSV
            (0x53, 0x47, 0x53, 0x56) => Some(EventCode::StopGoServed),  // SGSV
            (0x46, 0x4c, 0x42, 0x4b) => Some(EventCode::Flashback),  // FLBK
            (0x42, 0x55, 0x54, 0x4e) => Some(EventCode::ButtonStatus),  // BUTN
            _ => None,
        }
    }
}

impl EventCode {
    /// The event kind that the ASCII bytes of `code` name.
    ///
    /// Any other bytes, text or not, and any length but 4, give a conversion error.
    pub fn try_from(code: &[u8]) -> (r: Result<EventCode, F1Error>)
        ensures
            r == (match event_code_of(code@) {
                Some(c) => Ok(c),
                None => Err(F1Error::ConversionError),
            }),
    {
        if code.len() != 4 {
            return Err(F1Error::ConversionError);
        }
        match (code[0], code[1], code[2], code[3]) {
            (0x53, 0x53, 0x54, 0x41) => Ok(EventCode::SessionStarted),  // SSTA
            (0x53, 0x45, 0x4e, 0x44) => Ok(EventCode::SessionEnded),  // SEND
            (0x46, 0x54, 0x4c, 0x50) => Ok(EventCode::FastestLap),  // FTLP
            (0x52, 0x54, 0x4d, 0x54) => Ok(EventCode::Retirement),  // RTMT
            (0x44, 0x52, 0x53, 0x45) => Ok(EventCode::DRSEnabled),  // DRSE
            (0x44, 0x52, 0x53, 0x44) => Ok(EventCode::DRSDisabled),  // DRSD
            (0x54, 0x4d, 0x50, 0x54) => Ok(EventCode::TeamMateInPits),  // TMPT
            (0x43, 0x48, 0x51, 0x46) => Ok(EventCode::ChequeredFlag),  // CHQF
            (0x52, 0x43, 0x57, 0x4e) => Ok(EventCode::RaceWinner),  // RCWN
            (0x50, 0x45, 0x4e, 0x41) => Ok(EventCode::PenaltyIssued),  // PENA
            (0x53, 0x50, 0x54, 0x50) => Ok(EventCode::SpeedTrapTriggered),  // SPTP
            (0x53, 0x54, 0x4c, 0x47) => Ok(EventCode::StartLights),  // STLG
            (0x4c, 0x47, 0x4f, 0x54) => Ok(EventCode::LightsOut),  // LGOT
            (0x44, 0x54, 0x53, 0x56) => Ok(EventCode::DriveThroughServed),  // DTSV
            (0x53, 0x47, 0x53, 0x56) => Ok(EventCode::StopGoServed),  // SGSV
            (0x46, 0x4c, 0x42, 0x4b) => Ok(EventCode::Flashback),  // FLBK
            (0x42, 0x55, 0x54, 0x4e) => Ok(EventCode::ButtonStatus),  // BUTN
            _ => Err(F1Error::ConversionError),
        }
    }
}

/// The number of payload bytes that an event of kind `code` needs after its code.
pub open spec fn event_payload_size(code: EventCode) -> int {
    match code {
        EventCode::FastestLap => 5,
        EventCode::Retirement => 1,
        EventCode::TeamMateInPits => 1,
        EventCode::RaceWinner => 1,
        EventCode::PenaltyIssued => 7,
        EventCode::SpeedTrapTriggered => 7,
        EventCode::StartLights => 1,
        EventCode::DriveThroughServed => 1,
        EventCode::StopGoServed => 1,
        EventCode::Flashback => 8,
        EventCode::ButtonStatus => 4,
        _ => 0,
    }
}

/// What an event of kind `code` carries, read from the bytes from `s[p]`.
pub open spec fn event_details_of(s: Seq<u8>, p: int, code: EventCode) -> EventDataDetails {
    match code {
        EventCode::SessionStarted => EventDataDetails::SessionStarted,
        EventCode::SessionEnded => EventDataDetails::SessionEnded,
        EventCode::FastestLap => EventDataDetails::FastestLap {
            vehicle_idx: s[p],
            lap_time: f32_at(s, p + 1),
        },
        EventCode::Retirement => EventDataDetails::Retirement { vehicle_idx: s[p] },
        EventCode::DRSEnabled => EventDataDetails::DRSEnabled,
        EventCode::DRSDisabled => EventDataDetails::DRSDisabled,
        EventCode::TeamMateInPits => EventDataDetails::TeamMateInPits { vehicle_idx: s[p] },
        EventCode::ChequeredFlag => EventDataDetails::ChequeredFlag,
        EventCode::RaceWinner => EventDataDetails::RaceWinner { vehicle_idx: s[p] },
        EventCode::PenaltyIssued => EventDataDetails::Penalty {
            penalty_type: s[p],
            infringement_type: s[p + 1],
            vehicle_idx: s[p + 2],
            other_vehicle_idx: s[p + 3],
            time: s[p + 4],
            lap_num: s[p + 5],
            places_gained: s[p + 6],
        },
        EventCode::SpeedTrapTriggered => EventDataDetails::SpeedTrap {
            vehicle_idx: s[p],
            speed: f32_at(s, p + 1),
            overall_fastest_in_session: s[p + 5],
            driver_fastest_in_session: s[p + 6],
        },
        EventCode::StartLights => EventDataDetails::StartLights { num_lights: s[p] },
        EventCode::LightsOut => EventDataDetails::LightsOut,
        EventCode::DriveThroughServed => EventDataDetails::DriveThroughPenaltyServed {
            vehicle_idx: s[p],
        },
        EventCode::StopGoServed => EventDataDetails::StopGoPenaltyServed { vehicle_idx: s[p] },
        EventCode::Flashback => EventDataDetails::Flashback {
            flashback_frame_identifier: u32_at(s, p),
            flashback_session_time: f32_at(s, p + 4),
        },
        EventCode::ButtonStatus => EventDataDetails::Buttons {
            button_status: ButtonFlagSet::spec_from_mask(u32_at(s, p)),
        },
    }
}

/// What decoding the payload of an event of kind `code` from position `p` of `s` gives.
pub open spec fn event_details_at(s: Seq<u8>, p: int, code: EventCode) -> Result<
    EventDataDetails,
    F1Error,
> {
    if s.len() - p < event_payload_size(code) {
        Err(F1Error::IncompleteData)
    } else {
        Ok(event_details_of(s, p, code))
    }
}

/// What decoding an event payload from position `p` of `s` gives.
pub open spec fn event_at(s: Seq<u8>, p: int) -> Result<EventData, F1Error> {
    if s.len() - p < EVENT_CODE_SIZE {
        Err(F1Error::IncompleteData)
    } else {
        match event_code_of(s.subrange(p, p + 4)) {
            None => Err(F1Error::ConversionError),
            Some(code) => match event_details_at(s, p + 4, code) {
                Ok(d) => Ok(EventData { event_string_code: code, event_details: d }),
                Err(e) => Err(e),
            },
        }
    }
}

/// Decodes an event payload at the reader's position: its code, then what the code carries.
///
/// On success the reader has moved past the code and the bytes that its
/// kind carries, and no further; on failure it has not moved.
pub fn parse_event_packet(buf: &mut Reader) -> (r: Result<EventData, F1Error>)
    ensures
        r == event_at(old(buf).bytes(), old(buf).pos()),
        final(buf).bytes() == old(buf).bytes(),
        match r {
            Ok(e) => final(buf).pos() == old(buf).pos() + EVENT_CODE_SIZE + event_payload_size(
                e.event_string_code,
            ),
            Err(_) => final(buf).pos() == old(buf).pos(),
        },
{
    if buf.remaining() < EVENT_CODE_SIZE {
        return Err(F1Error::IncompleteData);
    }
    let mut cur = *buf;
    let event_string_code = match parse_event_code(&mut cur) {
        Ok(c) => c,
        Err(e) => return Err(e),
    };
    let details = match event_string_code {
        EventCode::SessionStarted => Ok(EventDataDetails::SessionStarted),
        EventCode::SessionEnded => Ok(EventDataDetails::SessionEnded),
        EventCode::FastestLap => parse_fastest_lap(&mut cur),
        EventCode::Retirement => parse_retirement(&mut cur),
        EventCode::DRSEnabled => Ok(EventDataDetails::DRSEnabled),
        EventCode::DRSDisabled => Ok(EventDataDetails::DRSDisabled),
        EventCode::TeamMateInPits => parse_teammate_in_pits(&mut cur),
        EventCode::ChequeredFlag => Ok(EventDataDetails::ChequeredFlag),
        EventCode::RaceWinner => parse_race_winner(&mut cur),
        EventCode::PenaltyIssued => parse_penalty(&mut cur),
        EventCode::SpeedTrapTriggered => parse_speed_trap(&mut cur),
        EventCode::StartLights => parse_start_lights(&mut cur),
        EventCode::LightsOut => Ok(EventDataDetails::LightsOut),
        EventCode::DriveThroughServed => parse_drive_penalty(&mut cur),
        EventCode::StopGoServed => parse_stop_go_penalty(&mut cur),
        EventCode::Flashback => parse_flashback(&mut cur),
        EventCode::ButtonStatus => parse_buttons(&mut cur),
    };
    match details {
        Ok(event_details) => {
            *buf = cur;
            Ok(EventData { event_string_code, event_details })
        },
        Err(e) => Err(e),
    }
}

/// Reads the four-byte event code at the reader's position.
fn parse_event_code(buf: &mut Reader) -> (r: Result<EventCode, F1Error>)
    requires
        old(buf).rest() >= EVENT_CODE_SIZE,
    ensures
        r == (match event_code_of(
            old(buf).bytes().subrange(old(buf).pos(), old(buf).pos() + 4),
        ) {
            Some(c) => Ok(c),
            None => Err(F1Error::ConversionError),
        }),
        final(buf).bytes() == old(buf).bytes(),
        final(buf).pos() == old(buf).pos() + EVENT_CODE_SIZE,
{
    let code = buf.get_bytes(EVENT_CODE_SIZE);
    EventCode::try_from(code)
}

fn parse_fastest_lap(buf: &mut Reader) -> (r: Result<EventDataDetails, F1Error>)
    ensures
        r == event_details_at(old(buf).bytes(), old(buf).pos(), EventCode::FastestLap),
        final(buf).bytes() == old(buf).bytes(),
        r is Ok ==> final(buf).pos() == old(buf).pos() + event_payload_size(EventCode::FastestLap),
        r is Err ==> final(buf).pos() == old(buf).pos(),
{
    if buf.remaining() < 5 {
        return Err(F1Error::IncompleteData);
    }
    let vehicle_idx = buf.get_u8();
    let lap_time = parse_f32(buf);
    Ok(EventDataDetails::FastestLap { vehicle_idx, lap_time })
}

fn parse_retirement(buf: &mut Reader) -> (r: Result<EventDataDetails, F1Error>)
    ensures
        r == event_details_at(old(buf).bytes(), old(buf).pos(), EventCode::Retirement),
        final(buf).bytes() == old(buf).bytes(),
        r is Ok ==> final(buf).pos() == old(buf).pos() + event_payload_size(EventCode::Retirement),
        r is Err ==> final(buf).pos() == old(buf).pos(),
{
    if buf.remaining() < 1 {
        return Err(F1Error::IncompleteData);
    }
    Ok(EventDataDetails::Retirement { vehicle_idx: buf.get_u8() })
}

fn parse_teammate_in_pits(buf: &mut Reader) -> (r: Result<EventDataDetails, F1Error>)
    ensures
        r == event_details_at(old(buf).bytes(), old(buf).pos(), EventCode::TeamMateInPits),
        final(buf).bytes() == old(buf).bytes(),
        r is Ok ==> final(buf).pos() == old(buf).pos() + event_payload_size(EventCode::TeamMateInPits),
        r is Err ==> final(buf).pos() == old(buf).pos(),
{
    if buf.remaining() < 1 {
        return Err(F1Error::IncompleteData);
    }
    Ok(EventDataDetails::TeamMateInPits { vehicle_idx: buf.get_u8() })
}

fn parse_race_winner(buf: &mut Reader) -> (r: Result<EventDataDetails, F1Error>)
    ensures
        r == event_details_at(old(buf).bytes(), old(buf).pos(), EventCode::RaceWinner),
        final(buf).bytes() == old(buf).bytes(),
        r is Ok ==> final(buf).pos() == old(buf).pos() + event_payload_size(EventCode::RaceWinner),
        r is Err ==> final(buf).pos() == old(buf).pos(),
{
    if buf.remaining() < 1 {
        return Err(F1Error::IncompleteData);
    }
    Ok(EventDataDetails::RaceWinner { vehicle_idx: buf.get_u8() })
}

fn parse_penalty(buf: &mut Reader) -> (r: Result<EventDataDetails, F1Error>)
    ensures
        r == event_details_at(old(buf).bytes(), old(buf).pos(), EventCode::PenaltyIssued),
        final(buf).bytes() == old(buf).bytes(),
        r is Ok ==> final(buf).pos() == old(buf).pos() + event_payload_size(EventCode::PenaltyIssued),
        r is Err ==> final(buf).pos() == old(buf).pos(),
{
    if buf.remaining() < 7 {
        return Err(F1Error::IncompleteData);
    }
    let penalty_type = buf.get_u8();
    let infringement_type = buf.get_u8();
    let vehicle_idx = buf.get_u8();
    let other_vehicle_idx = buf.get_u8();
    let time = buf.get_u8();
    let lap_num = buf.get_u8();
    let places_gained = buf.get_u8();
    Ok(
        EventDataDetails::Penalty {
            penalty_type,
            infringement_type,
            vehicle_idx,
            other_vehicle_idx,
            time,
            lap_num,
            places_gained,
        },
    )
}

fn parse_speed_trap(buf: &mut Reader) -> (r: Result<EventDataDetails, F1Error>)
    ensures
        r == event_details_at(old(buf).bytes(), old(buf).pos(), EventCode::SpeedTrapTriggered),
        final(buf).bytes() == old(buf).bytes(),
        r is Ok ==> final(buf).pos() == old(buf).pos() + event_payload_size(EventCode::SpeedTrapTriggered),
        r is Err ==> final(buf).pos() == old(buf).pos(),
{
    if buf.remaining() < 7 {
        return Err(F1Error::IncompleteData);
    }
    let vehicle_idx = buf.get_u8();
    let speed = parse_f32(buf);
    let overall_fastest_in_session = buf.get_u8();
    let driver_fastest_in_session = buf.get_u8();
    Ok(
        EventDataDetails::SpeedTrap {
            vehicle_idx,
            speed,
            overall_fastest_in_session,
            driver_fastest_in_session,
        },
    )
}

fn parse_start_lights(buf: &mut Reader) -> (r: Result<EventDataDetails, F1Error>)
    ensures
        r == event_details_at(old(buf).bytes(), old(buf).pos(), EventCode::StartLights),
        final(buf).bytes() == old(buf).bytes(),
        r is Ok ==> final(buf).pos() == old(buf).pos() + event_payload_size(EventCode::StartLights),
        r is Err ==> final(buf).pos() == old(buf).pos(),
{
    if buf.remaining() < 1 {
        return Err(F1Error::IncompleteData);
    }
    Ok(EventDataDetails::StartLights { num_lights: buf.get_u8() })
}

fn parse_drive_penalty(buf: &mut Reader) -> (r: Result<EventDataDetails, F1Error>)
    ensures
        r == event_details_at(old(buf).bytes(), old(buf).pos(), EventCode::DriveThroughServed),
        final(buf).bytes() == old(buf).bytes(),
        r is Ok ==> final(buf).pos() == old(buf).pos() + event_payload_size(EventCode::DriveThroughServed),
        r is Err ==> final(buf).pos() == old(buf).pos(),
{
    if buf.remaining() < 1 {
        return Err(F1Error::IncompleteData);
    }
    Ok(EventDataDetails::DriveThroughPenaltyServed { vehicle_idx: buf.get_u8() })
}

fn parse_stop_go_penalty(buf: &mut Reader) -> (r: Result<EventDataDetails, F1Error>)
    ensures
        r == event_details_at(old(buf).bytes(), old(buf).pos(), EventCode::StopGoServed),
        final(buf).bytes() == old(buf).bytes(),
        r is Ok ==> final(buf).pos() == old(buf).pos() + event_payload_size(EventCode::StopGoServed),
        r is Err ==> final(buf).pos() == old(buf).pos(),
{
    if buf.remaining() < 1 {
        return Err(F1Error::IncompleteData);
    }
    Ok(EventDataDetails::StopGoPenaltyServed { vehicle_idx: buf.get_u8() })
}

fn parse_flashback(buf: &mut Reader) -> (r: Result<EventDataDetails, F1Error>)
    ensures
        r == event_details_at(old(buf).bytes(), old(buf).pos(), EventCode::Flashback),
        final(buf).bytes() == old(buf).bytes(),
        r is Ok ==> final(buf).pos() == old(buf).pos() + event_payload_size(EventCode::Flashback),
        r is Err ==> final(buf).pos() == old(buf).pos(),
{
    if buf.remaining() < 8 {
        return Err(F1Error::IncompleteData);
    }
    let flashback_frame_identifier = buf.get_u32_le();
    let flashback_session_time = parse_f32(buf);
    Ok(EventDataDetails::Flashback { flashback_frame_identifier, flashback_session_time })
}

fn parse_buttons(buf: &mut Reader) -> (r: Result<EventDataDetails, F1Error>)
    ensures
        r == event_details_at(old(buf).bytes(), old(buf).pos(), EventCode::ButtonStatus),
        final(buf).bytes() == old(buf).bytes(),
        r is Ok ==> final(buf).pos() == old(buf).pos() + event_payload_size(EventCode::ButtonStatus),
        r is Err ==> final(buf).pos() == old(buf).pos(),
{
    if buf.remaining() < 4 {
        return Err(F1Error::IncompleteData);
    }
    let mask = buf.get_u32_le();
    Ok(EventDataDetails::Buttons { button_status: ButtonFlagSet::from_mask(mask) })
}

/// The number of buttons that a button event reports on.
pub const BUTTON_FLAG_COUNT: u32 = 20;

/// A button of the controller, as the button event names it.
#[derive(Debug, Clone, Copy, PartialEq, Eq, Hash)]
pub enum ButtonFlags {
    A,
    Y,
    B,
    X,
    DpadLeft,
    DpadRight,
    DpadUp,
    DpadDown,
    Options,
    LB,
    RB,
    LT,
    RT,
    LeftStickClick,
    RightStickClick,
    RightStickLeft,
    RightStickRight,
    RightStickUp,
    RightStickDown,
    Special,
}

/// The button whose bit is bit `i` of the mask, for `i` below 20.
pub open spec fn button_at(i: u32) -> ButtonFlags {
    match i {
        0 => ButtonFlags::A,
        1 => ButtonFlags::Y,
        2 => ButtonFlags::B,
        3 => ButtonFlags::X,
        4 => ButtonFlags::DpadLeft,
        5 => ButtonFlags::DpadRight,
        6 => ButtonFlags::DpadUp,
        7 => ButtonFlags::DpadDown,
        8 => ButtonFlags::Options,
        9 => ButtonFlags::LB,
        10 => ButtonFlags::RB,
        11 => ButtonFlags::LT,
        12 => ButtonFlags::RT,
        13 => ButtonFlags::LeftStickClick,
        14 => ButtonFlags::RightStickClick,
        15 => ButtonFlags::RightStickLeft,
        16 => ButtonFlags::RightStickRight,
        17 => ButtonFlags::RightStickUp,
        18 => ButtonFlags::RightStickDown,
        _ => ButtonFlags::Special,
    }
}

impl ButtonFlags {
    /// The position of this button's bit in the mask.
    pub open spec fn spec_index(self) -> u32 {
        match self {
            ButtonFlags::A => 0,
            ButtonFlags::Y => 1,
            ButtonFlags::B => 2,
            ButtonFlags::X => 3,
            ButtonFlags::DpadLeft => 4,
            ButtonFlags::DpadRight => 5,
            ButtonFlags::DpadUp => 6,
            ButtonFlags::DpadDown => 7,
            ButtonFlags::Options => 8,
            ButtonFlags::LB => 9,
            ButtonFlags::RB => 10,
            ButtonFlags::LT => 11,
            ButtonFlags::RT => 12,
            ButtonFlags::LeftStickClick => 13,
            ButtonFlags::RightStickClick => 14,
            ButtonFlags::RightStickLeft => 15,
            ButtonFlags::RightStickRight => 16,
            ButtonFlags::RightStickUp => 17,
            ButtonFlags::RightStickDown => 18,
            ButtonFlags::Special => 19,
        }
    }

    /// This button's bit in the mask: `A` is 0x1, `Special` 0x80000.
    pub open spec fn spec_bit(self) -> u32 {
        1u32 << self.spec_index()
    }

    /// The position of this button's bit in the mask.
    pub fn index(&self) -> (r: u32)
        ensures
            r == self.spec_index(),
    {
        match self {
            ButtonFlags::A => 0,
            ButtonFlags::Y => 1,
            ButtonFlags::B => 2,
            ButtonFlags::X => 3,
            ButtonFlags::DpadLeft => 4,
            ButtonFlags::DpadRight => 5,
            ButtonFlags::DpadUp => 6,
            ButtonFlags::DpadDown => 7,
            ButtonFlags::Options => 8,
            ButtonFlags::LB => 9,
            ButtonFlags::RB => 10,
            ButtonFlags::LT => 11,
            ButtonFlags::RT => 12,
            ButtonFlags::LeftStickClick => 13,
            ButtonFlags::RightStickClick => 14,
            ButtonFlags::RightStickLeft => 15,
            ButtonFlags::RightStickRight => 16,
            ButtonFlags::RightStickUp => 17,
            ButtonFlags::RightStickDown => 18,
            ButtonFlags::Special => 19,
        }
    }

    /// This button's bit in the mask.
    pub fn bit(&self) -> (r: u32)
        ensures
            r == self.spec_bit(),
    {
        let i = self.index();
        1u32 << i
    }

    /// The button whose bit is bit `i` of the mask.
    pub fn from_index(i: u32) -> (r: ButtonFlags)
        requires
            i < BUTTON_FLAG_COUNT,
        ensures
            r == button_at(i),
            r.spec_index() == i,
    {
        match i {
            0 => ButtonFlags::A,
            1 => ButtonFlags::Y,
            2 => ButtonFlags::B,
            3 => ButtonFlags::X,
            4 => ButtonFlags::DpadLeft,
            5 => ButtonFlags::DpadRight,
            6 => ButtonFlags::DpadUp,
            7 => ButtonFlags::DpadDown,
            8 => ButtonFlags::Options,
            9 => ButtonFlags::LB,
            10 => ButtonFlags::RB,
            11 => ButtonFlags::LT,
            12 => ButtonFlags::RT,
            13 => ButtonFlags::LeftStickClick,
            14 => ButtonFlags::RightStickClick,
            15 => ButtonFlags::RightStickLeft,
            16 => ButtonFlags::RightStickRight,
            17 => ButtonFlags::RightStickUp,
            18 => ButtonFlags::RightStickDown,
            _ => ButtonFlags::Special,
        }
    }
}

/// Each button has its own bit, below bit 20.
pub proof fn lemma_button_index(f: ButtonFlags)
    ensures
        f.spec_index() < BUTTON_FLAG_COUNT,
        button_at(f.spec_index()) == f,
{
}

/// The buttons whose bits are set in `mask`; bits above the 20 known ones are ignored.
pub open spec fn flags_in(mask: u32) -> Set<ButtonFlags> {
    Set::new(|f: ButtonFlags| mask & f.spec_bit() != 0)
}

/// The bits of `x | (1 << i)` are those of `x` and bit `i`.
proof fn lemma_or_bit(x: u32, i: u32, j: u32)
    requires
        i < 32,
        j < 32,
    ensures
        (x | (1u32 << i)) & (1u32 << j) != 0 <==> (x & (1u32 << j) != 0 || i == j),
{
    assert((x | (1u32 << i)) & (1u32 << j) != 0 <==> (x & (1u32 << j) != 0 || i == j))
        by (bit_vector)
        requires
            i < 32,
            j < 32,
    ;
}

/// A set of buttons, held as a mask with one bit per button.
///
/// Two sets are equal exactly when they hold the same buttons, whatever the
/// order in which the buttons were added.
#[derive(Debug, Clone, Copy, PartialEq, Eq, Hash)]
pub struct ButtonFlagSet {
    bits: u32,
}

impl View for ButtonFlagSet {
    type V = Set<ButtonFlags>;

    closed spec fn view(&self) -> Set<ButtonFlags> {
        flags_in(self.bits)
    }
}

impl ButtonFlagSet {
    #[verifier::type_invariant]
    spec fn inv(&self) -> bool {
        self.bits < 0x10_0000
    }

    /// The set that decoding `mask` gives: the buttons whose bits are set in it.
    pub closed spec fn spec_from_mask(mask: u32) -> ButtonFlagSet {
        ButtonFlagSet { bits: mask & 0xF_FFFF }
    }

    /// The set that decoding `mask` holds the buttons whose bits are set in `mask`.
    pub proof fn lemma_from_mask_view(mask: u32)
        ensures
            Self::spec_from_mask(mask)@ == flags_in(mask),
    {
        assert forall|f: ButtonFlags|
            #![trigger f.spec_bit()]
            (mask & 0xF_FFFF) & f.spec_bit() != 0 <==> mask & f.spec_bit() != 0 by {
            let i = f.spec_index();
            lemma_button_index(f);
            assert((mask & 0xF_FFFF) & (1u32 << i) != 0 <==> mask & (1u32 << i) != 0)
                by (bit_vector)
                requires
                    i < 20,
            ;
        }
        assert(Self::spec_from_mask(mask)@ =~= flags_in(mask));
    }

    /// The empty set.
    pub fn new() -> (r: ButtonFlagSet)
        ensures
            r@ == Set::<ButtonFlags>::empty(),
    {
        let r = ButtonFlagSet { bits: 0 };
        assert forall|f: ButtonFlags| #![trigger f.spec_bit()] 0u32 & f.spec_bit() == 0 by {
            let b = f.spec_bit();
            assert(0u32 & b == 0) by (bit_vector);
        }
        assert(r@ =~= Set::<ButtonFlags>::empty());
        r
    }

    /// Whether `flag` is in the set.
    pub fn contains(&self, flag: ButtonFlags) -> (r: bool)
        ensures
            r == self@.contains(flag),
    {
        self.bits & flag.bit() != 0
    }

    /// Adds `flag` to the set.
    pub fn insert(&mut self, flag: ButtonFlags)
        ensures
            final(self)@ == old(self)@.insert(flag),
    {
        proof {
            use_type_invariant(&*self);
        }
        let i = flag.index();
        let bits = self.bits;
        proof {
            lemma_button_index(flag);
            assert(bits | (1u32 << i) < 0x10_0000) by (bit_vector)
                requires
                    bits < 0x10_0000,
                    i < 20,
            ;
            assert forall|g: ButtonFlags| #![trigger g.spec_bit()]
                (bits | (1u32 << i)) & g.spec_bit() != 0 <==> (bits & g.spec_bit() != 0 || g == flag) by {
                lemma_button_index(g);
                lemma_or_bit(bits, i, g.spec_index());
            }
        }
        self.bits = bits | (1u32 << i);
        assert(self@ =~= old(self)@.insert(flag));
    }

    /// The set of the buttons whose bits are set in `mask`.
    ///
    /// Each of the 20 known bits is tested in turn; bits above them are ignored.
    pub fn from_mask(mask: u32) -> (r: ButtonFlagSet)
        ensures
            r == Self::spec_from_mask(mask),
            r@ == flags_in(mask),
    {
        let mut set = ButtonFlagSet { bits: 0 };
        assert(0u32 == mask & (((1u32 << 0u32) - 1) as u32)) by (bit_vector);
        let mut i: u32 = 0;
        while i < BUTTON_FLAG_COUNT
            invariant
                i <= BUTTON_FLAG_COUNT,
                set.bits == mask & (((1u32 << i) - 1) as u32),
            decreases BUTTON_FLAG_COUNT - i,
        {
            let flag = ButtonFlags::from_index(i);
            let bits = set.bits;
            let new_bits = if mask & flag.bit() != 0 {
                bits | flag.bit()
            } else {
                bits
            };
            assert(new_bits == mask & (((1u32 << (i + 1) as u32) - 1) as u32)) by (bit_vector)
                requires
                    i < 20,
                    bits == mask & (((1u32 << i) - 1) as u32),
                    mask & (1u32 << i) != 0 ==> new_bits == bits | (1u32 << i),
                    mask & (1u32 << i) == 0 ==> new_bits == bits,
            ;
            assert(new_bits < 0x10_0000) by (bit_vector)
                requires
                    i < 20,
                    new_bits == mask & (((1u32 << (i + 1) as u32) - 1) as u32),
            ;
            set.bits = new_bits;
            i = i + 1;
        }
        proof {
            assert(((1u32 << 20u32) - 1) as u32 == 0xF_FFFF) by (bit_vector);
            Self::lemma_from_mask_view(mask);
        }
        set
    }
}

} // verus!
