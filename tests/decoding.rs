use bytes::BytesMut;

use f1_2021_telemetry::error::F1Error;
use f1_2021_telemetry::packet::car_telemetry::{CarTelemetryData, CAR_TELEMETRY_SIZE};
use f1_2021_telemetry::packet::event::{
    ButtonFlagSet, ButtonFlags, EventCode, EventData, EventDataDetails,
};
use f1_2021_telemetry::packet::event::parse_event_packet;
use f1_2021_telemetry::packet::header::{parse_header, PacketId, HEADER_SIZE};
use f1_2021_telemetry::packet::motion::MOTION_PACKET_SIZE;
use f1_2021_telemetry::packet::{decode, parse_packet, PacketType};
use f1_2021_telemetry::reader::Reader;
use f1_2021_telemetry::utils::{Float32, WheelsData, NUMBER_OF_CARS};
use f1_2021_telemetry::F1_2021_Decoder;

const ALL_BUTTONS: [ButtonFlags; 20] = [
    ButtonFlags::A,
    ButtonFlags::Y,
    ButtonFlags::B,
    ButtonFlags::X,
    ButtonFlags::DpadLeft,
    ButtonFlags::DpadRight,
    ButtonFlags::DpadUp,
    ButtonFlags::DpadDown,
    ButtonFlags::Options,
    ButtonFlags::LB,
    ButtonFlags::RB,
    ButtonFlags::LT,
    ButtonFlags::RT,
    ButtonFlags::LeftStickClick,
    ButtonFlags::RightStickClick,
    ButtonFlags::RightStickLeft,
    ButtonFlags::RightStickRight,
    ButtonFlags::RightStickUp,
    ButtonFlags::RightStickDown,
    ButtonFlags::Special,
];

fn f(x: f32) -> Float32 {
    Float32 { bits: x.to_bits() }
}

fn header(packet_id: u8) -> Vec<u8> {
    let mut buf = Vec::new();
    buf.extend_from_slice(&2021u16.to_le_bytes());
    buf.extend_from_slice(&[1, 18, 1, packet_id]);
    buf.extend_from_slice(&0x0102_0304_0506_0708u64.to_le_bytes());
    buf.extend_from_slice(&12.35f32.to_le_bytes());
    buf.extend_from_slice(&123u32.to_le_bytes());
    buf.extend_from_slice(&[19, 255]);
    buf
}

fn event(code: &[u8], body: &[u8]) -> Vec<u8> {
    let mut buf = header(3);
    buf.extend_from_slice(code);
    buf.extend_from_slice(body);
    buf
}

fn event_details(code: &[u8], body: &[u8]) -> Result<EventDataDetails, F1Error> {
    match decode(&event(code, body)) {
        Ok(p) => match p.data {
            PacketType::Event(e) => Ok(e.event_details),
            other => panic!("not an event: {:?}", other),
        },
        Err(e) => Err(e),
    }
}

fn buttons(mask: u32) -> ButtonFlagSet {
    match event_details(b"BUTN", &mask.to_le_bytes()) {
        Ok(EventDataDetails::Buttons { button_status }) => button_status,
        other => panic!("not a button event: {:?}", other),
    }
}

/// A car-telemetry frame whose car `i` has speed `100 + i` and gear `i % 10 - 1`.
fn telemetry_frame() -> Vec<u8> {
    let mut buf = header(6);
    for i in 0..NUMBER_OF_CARS {
        buf.extend_from_slice(&(100 + i as u16).to_le_bytes());
        buf.extend_from_slice(&0.5f32.to_le_bytes());
        buf.extend_from_slice(&(-0.25f32).to_le_bytes());
        buf.extend_from_slice(&1.0f32.to_le_bytes());
        buf.push(7);
        buf.push(((i % 10) as i8 - 1) as u8);
        buf.extend_from_slice(&11_500u16.to_le_bytes());
        buf.push(if i % 2 == 0 { 1 } else { 2 });
        buf.push(42);
        buf.extend_from_slice(&0x7FFEu16.to_le_bytes());
        for t in [500u16, 501, 502, 503] {
            buf.extend_from_slice(&t.to_le_bytes());
        }
        buf.extend_from_slice(&[90, 91, 92, 93]);
        buf.extend_from_slice(&[100, 101, 102, 103]);
        buf.extend_from_slice(&110u16.to_le_bytes());
        for p in [22.5f32, 22.75, 23.0, 23.25] {
            buf.extend_from_slice(&p.to_le_bytes());
        }
        buf.extend_from_slice(&[0, 1, 2, 3]);
    }
    buf.extend_from_slice(&[4, 255, 0xFE]);
    buf
}

#[test]
fn header_fields_decode_little_endian() {
    let p = decode(&header(1)).unwrap();
    assert_eq!(p.header.format, 2021);
    assert_eq!(p.header.version, (1, 18));
    assert_eq!(p.header.packet_version, 1);
    assert_eq!(p.header.packet_id, PacketId::Session);
    assert_eq!(p.header.session_uid, 0x0102_0304_0506_0708);
    assert_eq!(f32::from_bits(p.header.session_time.bits), 12.35);
    assert_eq!(p.header.frame_identifier, 123);
    assert_eq!(p.header.player_car_index, 19);
    assert_eq!(p.header.secondary_player_car_index, 255);
}

#[test]
fn header_one_byte_short_is_incomplete() {
    let buf = header(0);
    assert_eq!(decode(&buf[..23]), Err(F1Error::IncompleteData));
    assert_eq!(decode(&[]), Err(F1Error::IncompleteData));
}

#[test]
fn motion_frame_one_byte_short_is_incomplete() {
    let mut buf = header(0);
    buf.resize(HEADER_SIZE + MOTION_PACKET_SIZE, 0);
    assert_eq!(buf.len(), 1464);
    assert!(decode(&buf).is_ok());
    assert_eq!(decode(&buf[..1463]), Err(F1Error::IncompleteData));
}

#[test]
fn car_telemetry_frame_one_byte_short_is_incomplete() {
    let buf = telemetry_frame();
    assert_eq!(buf.len(), HEADER_SIZE + CAR_TELEMETRY_SIZE);
    assert_eq!(buf.len(), 1347);
    assert!(decode(&buf).is_ok());
    assert_eq!(decode(&buf[..1346]), Err(F1Error::IncompleteData));
}

#[test]
fn car_telemetry_frame_decodes_every_field() {
    let p = decode(&telemetry_frame()).unwrap();
    assert_eq!(p.header.packet_id, PacketId::CarTelemetry);
    let t = match p.data {
        PacketType::CarTelemetry(t) => t,
        other => panic!("not car telemetry: {:?}", other),
    };
    assert_eq!(t.car_telemetry_data.len(), NUMBER_OF_CARS);
    for (i, car) in t.car_telemetry_data.iter().enumerate() {
        let expected = CarTelemetryData {
            speed: 100 + i as u16,
            throttle: f(0.5),
            steer: f(-0.25),
            brake: f(1.0),
            clutch: 7,
            gear: (i % 10) as i8 - 1,
            engine_rpm: 11_500,
            drs: i % 2 == 0,
            rev_lights_percent: 42,
            rev_lights_bit: 0x7FFE,
            brakes_temp: WheelsData {
                rear_left: 500,
                rear_right: 501,
                front_left: 502,
                front_right: 503,
            },
            tyres_surface_temp: WheelsData {
                rear_left: 90,
                rear_right: 91,
                front_left: 92,
                front_right: 93,
            },
            tyres_inner_temp: WheelsData {
                rear_left: 100,
                rear_right: 101,
                front_left: 102,
                front_right: 103,
            },
            engine_temp: 110,
            tyres_pressure: WheelsData {
                rear_left: f(22.5),
                rear_right: f(22.75),
                front_left: f(23.0),
                front_right: f(23.25),
            },
            surface_type: WheelsData { rear_left: 0, rear_right: 1, front_left: 2, front_right: 3 },
        };
        assert_eq!(*car, expected);
    }
    assert_eq!(t.car_telemetry_data[0].gear, -1);
    assert_eq!(t.mfd_panel_index, 4);
    assert_eq!(t.mfd_panel_index_secondary, 255);
    assert_eq!(t.suggested_gear, -2);
}

#[test]
fn motion_frame_reads_signed_directions() {
    let mut buf = header(0);
    buf.extend_from_slice(&[0; 24]);
    for d in [-1i16, i16::MIN, i16::MAX, 0x1234, -2, 7] {
        buf.extend_from_slice(&d.to_le_bytes());
    }
    buf.resize(HEADER_SIZE + MOTION_PACKET_SIZE - 4, 0);
    buf.extend_from_slice(&(-0.5f32).to_le_bytes());
    let m = match decode(&buf).unwrap().data {
        PacketType::Motion(m) => m,
        other => panic!("not motion: {:?}", other),
    };
    assert_eq!(m.car_motion_data.len(), NUMBER_OF_CARS);
    let car = m.car_motion_data[0];
    assert_eq!((car.world_forward_dir.x, car.world_forward_dir.y, car.world_forward_dir.z), (
        -1,
        i16::MIN,
        i16::MAX,
    ));
    assert_eq!((car.world_right_dir.x, car.world_right_dir.y, car.world_right_dir.z), (
        0x1234, -2, 7,
    ));
    assert_eq!(m.car_motion_data[1].world_forward_dir.x, 0);
    assert_eq!(f32::from_bits(m.front_wheels_angle.bits), -0.5);
}

#[test]
fn unknown_packet_kind_is_a_conversion_error() {
    assert_eq!(decode(&header(99)), Err(F1Error::ConversionError));
    assert_eq!(decode(&header(12)), Err(F1Error::ConversionError));
}

#[test]
fn unknown_event_code_is_a_conversion_error() {
    assert_eq!(decode(&event(b"ZZZZ", &[])), Err(F1Error::ConversionError));
    assert_eq!(decode(&event(b"ssta", &[])), Err(F1Error::ConversionError));
    assert_eq!(decode(&event(&[0xFF, 0xFE, 0x80, 0x00], &[])), Err(F1Error::ConversionError));
}

#[test]
fn event_code_shorter_than_four_bytes_is_incomplete() {
    assert_eq!(decode(&event(b"SST", &[])), Err(F1Error::IncompleteData));
}

#[test]
fn undecoded_packet_kinds_pass_as_unimplemented() {
    let kinds = [
        (1, PacketId::Session),
        (2, PacketId::LapData),
        (4, PacketId::Participants),
        (5, PacketId::CarSetups),
        (7, PacketId::CarStatus),
        (8, PacketId::FinalClassification),
        (9, PacketId::LobbyInfo),
        (10, PacketId::CarDamage),
        (11, PacketId::SessionHistory),
    ];
    for (byte, id) in kinds {
        let mut buf = header(byte);
        buf.extend_from_slice(&[0xAB; 40]);
        let p = decode(&buf).unwrap();
        assert_eq!(p.header.packet_id, id);
        assert_eq!(p.data, PacketType::Unimplemented);
        assert_eq!(decode(&header(byte)).unwrap().data, PacketType::Unimplemented);
    }
}

#[test]
fn decoding_twice_gives_equal_packets() {
    for buf in [telemetry_frame(), event(b"FLBK", &[1, 2, 3, 4, 0xFF, 0xFF, 0xFF, 0x7F])] {
        assert_eq!(decode(&buf), decode(&buf));
    }
    let nan = event(b"FTLP", &[3, 0x01, 0x00, 0xC0, 0x7F]);
    let first = decode(&nan);
    assert!(first.is_ok());
    assert_eq!(first, decode(&nan));
}

#[test]
fn packet_id_table() {
    let ids = [
        PacketId::Motion,
        PacketId::Session,
        PacketId::LapData,
        PacketId::Event,
        PacketId::Participants,
        PacketId::CarSetups,
        PacketId::CarTelemetry,
        PacketId::CarStatus,
        PacketId::FinalClassification,
        PacketId::LobbyInfo,
        PacketId::CarDamage,
        PacketId::SessionHistory,
    ];
    for (i, id) in ids.iter().enumerate() {
        assert_eq!(PacketId::try_from(i as u8), Ok(*id));
    }
    for b in 12..=255u8 {
        assert_eq!(PacketId::try_from(b), Err(F1Error::ConversionError));
    }
}

#[test]
fn event_code_table() {
    let codes: [(&[u8], EventCode); 17] = [
        (b"SSTA", EventCode::SessionStarted),
        (b"SEND", EventCode::SessionEnded),
        (b"FTLP", EventCode::FastestLap),
        (b"RTMT", EventCode::Retirement),
        (b"DRSE", EventCode::DRSEnabled),
        (b"DRSD", EventCode::DRSDisabled),
        (b"TMPT", EventCode::TeamMateInPits),
        (b"CHQF", EventCode::ChequeredFlag),
        (b"RCWN", EventCode::RaceWinner),
        (b"PENA", EventCode::PenaltyIssued),
        (b"SPTP", EventCode::SpeedTrapTriggered),
        (b"STLG", EventCode::StartLights),
        (b"LGOT", EventCode::LightsOut),
        (b"DTSV", EventCode::DriveThroughServed),
        (b"SGSV", EventCode::StopGoServed),
        (b"FLBK", EventCode::Flashback),
        (b"BUTN", EventCode::ButtonStatus),
    ];
    for (text, code) in codes {
        assert_eq!(EventCode::try_from(text), Ok(code));
    }
    assert_eq!(EventCode::try_from(b"SSTAX"), Err(F1Error::ConversionError));
    assert_eq!(EventCode::try_from(b""), Err(F1Error::ConversionError));
}

#[test]
fn events_without_payload() {
    let cases: [(&[u8], EventDataDetails); 6] = [
        (b"SSTA", EventDataDetails::SessionStarted),
        (b"SEND", EventDataDetails::SessionEnded),
        (b"DRSE", EventDataDetails::DRSEnabled),
        (b"DRSD", EventDataDetails::DRSDisabled),
        (b"CHQF", EventDataDetails::ChequeredFlag),
        (b"LGOT", EventDataDetails::LightsOut),
    ];
    for (code, details) in cases {
        assert_eq!(event_details(code, &[]), Ok(details));
    }
}

#[test]
fn events_with_one_vehicle_index() {
    assert_eq!(event_details(b"RTMT", &[5]), Ok(EventDataDetails::Retirement { vehicle_idx: 5 }));
    assert_eq!(
        event_details(b"TMPT", &[6]),
        Ok(EventDataDetails::TeamMateInPits { vehicle_idx: 6 })
    );
    assert_eq!(event_details(b"RCWN", &[7]), Ok(EventDataDetails::RaceWinner { vehicle_idx: 7 }));
    assert_eq!(
        event_details(b"DTSV", &[8]),
        Ok(EventDataDetails::DriveThroughPenaltyServed { vehicle_idx: 8 })
    );
    assert_eq!(
        event_details(b"SGSV", &[9]),
        Ok(EventDataDetails::StopGoPenaltyServed { vehicle_idx: 9 })
    );
    assert_eq!(event_details(b"STLG", &[4]), Ok(EventDataDetails::StartLights { num_lights: 4 }));
}

#[test]
fn events_with_records() {
    assert_eq!(
        event_details(b"PENA", &[1, 2, 3, 4, 5, 6, 7]),
        Ok(EventDataDetails::Penalty {
            penalty_type: 1,
            infringement_type: 2,
            vehicle_idx: 3,
            other_vehicle_idx: 4,
            time: 5,
            lap_num: 6,
            places_gained: 7,
        })
    );
    let mut trap = vec![11];
    trap.extend_from_slice(&312.5f32.to_le_bytes());
    trap.extend_from_slice(&[1, 0]);
    assert_eq!(
        event_details(b"SPTP", &trap),
        Ok(EventDataDetails::SpeedTrap {
            vehicle_idx: 11,
            speed: f(312.5),
            overall_fastest_in_session: 1,
            driver_fastest_in_session: 0,
        })
    );
    let mut flashback = 0xDEAD_BEEFu32.to_le_bytes().to_vec();
    flashback.extend_from_slice(&99.75f32.to_le_bytes());
    assert_eq!(
        event_details(b"FLBK", &flashback),
        Ok(EventDataDetails::Flashback {
            flashback_frame_identifier: 0xDEAD_BEEF,
            flashback_session_time: f(99.75),
        })
    );
}

#[test]
fn each_event_variant_needs_its_minimum() {
    let minimums: [(&[u8], usize); 11] = [
        (b"FTLP", 5),
        (b"RTMT", 1),
        (b"TMPT", 1),
        (b"RCWN", 1),
        (b"PENA", 7),
        (b"SPTP", 7),
        (b"STLG", 1),
        (b"DTSV", 1),
        (b"SGSV", 1),
        (b"FLBK", 8),
        (b"BUTN", 4),
    ];
    for (code, min) in minimums {
        let body = vec![1u8; min];
        assert!(event_details(code, &body).is_ok());
        assert_eq!(event_details(code, &body[..min - 1]), Err(F1Error::IncompleteData));
    }
}

#[test]
fn event_record_holds_its_code() {
    let p = decode(&event(b"RCWN", &[3])).unwrap();
    assert_eq!(
        p.data,
        PacketType::Event(EventData {
            event_string_code: EventCode::RaceWinner,
            event_details: EventDataDetails::RaceWinner { vehicle_idx: 3 },
        })
    );
}

#[test]
fn button_mask_a_alone() {
    let set = buttons(0x0000_0001);
    for b in ALL_BUTTONS {
        assert_eq!(set.contains(b), b == ButtonFlags::A);
    }
    let mut only_a = ButtonFlagSet::new();
    only_a.insert(ButtonFlags::A);
    assert_eq!(set, only_a);
}

#[test]
fn button_mask_all_ones_gives_every_button() {
    let set = buttons(0xFFFF_FFFF);
    let mut every = ButtonFlagSet::new();
    for b in ALL_BUTTONS {
        assert!(set.contains(b));
        every.insert(b);
    }
    assert_eq!(set, every);
    assert_eq!(set, buttons(0x000F_FFFF));
}

#[test]
fn button_mask_zero_and_unknown_bits_give_empty_set() {
    assert_eq!(buttons(0), ButtonFlagSet::new());
    assert_eq!(buttons(0x8000_0000), ButtonFlagSet::new());
    assert_eq!(buttons(0xFFF0_0000), ButtonFlagSet::new());
    for b in ALL_BUTTONS {
        assert!(!buttons(0x8000_0000).contains(b));
    }
}

#[test]
fn button_bits_follow_the_protocol_table() {
    for (i, b) in ALL_BUTTONS.iter().enumerate() {
        assert_eq!(b.index(), i as u32);
        assert_eq!(b.bit(), 1u32 << i);
        assert_eq!(ButtonFlags::from_index(i as u32), *b);
        let set = ButtonFlagSet::from_mask(1 << i);
        for other in ALL_BUTTONS {
            assert_eq!(set.contains(other), other == *b);
        }
    }
    assert_eq!(ButtonFlags::RightStickLeft.bit(), 0x8000);
    assert_eq!(ButtonFlags::Special.bit(), 0x80000);
}

#[test]
fn button_set_ignores_insertion_order() {
    let mut one = ButtonFlagSet::new();
    one.insert(ButtonFlags::RT);
    one.insert(ButtonFlags::A);
    one.insert(ButtonFlags::DpadUp);
    let mut two = ButtonFlagSet::new();
    two.insert(ButtonFlags::DpadUp);
    two.insert(ButtonFlags::A);
    two.insert(ButtonFlags::RT);
    two.insert(ButtonFlags::A);
    assert_eq!(one, two);
    assert_eq!(one, ButtonFlagSet::from_mask(0x1041));
    assert_eq!(buttons(0x1041), one);
}

#[test]
fn reader_reads_little_endian_and_counts_down() {
    let data = [0x01, 0x02, 0xFF, 0xFE, 0x80, 1, 2, 3, 4, 5, 6, 7, 8, 0xAA];
    let mut r = Reader::new(&data);
    assert_eq!(r.remaining(), 14);
    assert_eq!(r.get_u16_le(), 0x0201);
    assert_eq!(r.get_i16_le(), -257);
    assert_eq!(r.get_i8(), -128);
    assert_eq!(r.get_u64_le(), 0x0807_0605_0403_0201);
    assert_eq!(r.remaining(), 1);
    assert_eq!(r.get_u8(), 0xAA);
    assert_eq!(r.remaining(), 0);

    let mut r = Reader::new(&data);
    assert_eq!(r.get_u32_le(), 0xFEFF_0201);
    assert_eq!(r.get_bytes(3), &[0x80, 1, 2]);
    assert_eq!(r.remaining(), 7);
}

#[test]
fn decoder_reports_a_short_buffer_and_keeps_it() {
    let buf = header(1);
    let mut src = BytesMut::from(&buf[..23]);
    assert_eq!(F1_2021_Decoder.decode(&mut src), Err(F1Error::IncompleteData));
    assert_eq!(src.len(), 23);
    assert_eq!(&src[..], &buf[..23]);
    assert_eq!(F1_2021_Decoder.decode(&mut src), Err(F1Error::IncompleteData));
    assert_eq!(&src[..], &buf[..23]);
}

#[test]
fn decoder_takes_the_whole_datagram() {
    let mut buf = event(b"RTMT", &[2]);
    buf.extend_from_slice(&[9, 9, 9]);
    let mut src = BytesMut::from(&buf[..]);
    let p = F1_2021_Decoder.decode(&mut src).unwrap();
    assert_eq!(p.header.packet_id, PacketId::Event);
    assert_eq!(
        p.data,
        PacketType::Event(EventData {
            event_string_code: EventCode::Retirement,
            event_details: EventDataDetails::Retirement { vehicle_idx: 2 },
        })
    );
    assert!(src.is_empty());
    assert_eq!(F1_2021_Decoder.decode(&mut src), Err(F1Error::IncompleteData));
}

#[test]
fn decoder_gives_equal_results_on_equal_bytes() {
    let frames = [event(b"FTLP", &[4, 0, 0, 0x20, 0x41]), event(b"ZZZZ", &[]), header(1)[..10].to_vec()];
    for buf in frames {
        let mut one = BytesMut::from(&buf[..]);
        let mut two = BytesMut::from(&buf[..]);
        let mut decoder = F1_2021_Decoder;
        assert_eq!(decoder.decode(&mut one), decoder.decode(&mut two));
        assert_eq!(decoder.decode(&mut BytesMut::from(&buf[..])), decode(&buf));
    }
}

#[test]
fn readers_stop_right_after_what_they_decode() {
    let mut buf = event(b"PENA", &[1, 2, 3, 4, 5, 6, 7]);
    buf.extend_from_slice(&[0xEE; 5]);
    let mut r = Reader::new(&buf);
    assert!(parse_packet(&mut r).is_ok());
    assert_eq!(r.remaining(), 5);

    let mut r = Reader::new(&buf[HEADER_SIZE..]);
    assert!(parse_event_packet(&mut r).is_ok());
    assert_eq!(r.remaining(), 5);

    let mut r = Reader::new(b"LGOTxyz");
    assert!(parse_event_packet(&mut r).is_ok());
    assert_eq!(r.remaining(), 3);

    let mut motion = header(0);
    motion.resize(HEADER_SIZE + MOTION_PACKET_SIZE + 2, 0);
    let mut r = Reader::new(&motion);
    assert!(parse_packet(&mut r).is_ok());
    assert_eq!(r.remaining(), 2);

    let mut session = header(1);
    session.extend_from_slice(&[1; 9]);
    let mut r = Reader::new(&session);
    assert!(parse_packet(&mut r).is_ok());
    assert_eq!(r.remaining(), 9);
}

#[test]
fn readers_do_not_move_when_they_fail() {
    let bad_kind = header(42);
    let mut r = Reader::new(&bad_kind);
    assert_eq!(parse_header(&mut r), Err(F1Error::ConversionError));
    assert_eq!(r.remaining(), HEADER_SIZE);

    let mut r = Reader::new(&bad_kind[..20]);
    assert_eq!(parse_header(&mut r), Err(F1Error::IncompleteData));
    assert_eq!(r.remaining(), 20);

    let short_penalty = event(b"PENA", &[1, 2, 3]);
    let mut r = Reader::new(&short_penalty);
    assert_eq!(parse_packet(&mut r), Err(F1Error::IncompleteData));
    assert_eq!(r.remaining(), short_penalty.len());

    let mut r = Reader::new(&short_penalty[HEADER_SIZE..]);
    assert_eq!(parse_event_packet(&mut r), Err(F1Error::IncompleteData));
    assert_eq!(r.remaining(), 7);

    let mut r = Reader::new(b"ZZZZ1234");
    assert_eq!(parse_event_packet(&mut r), Err(F1Error::ConversionError));
    assert_eq!(r.remaining(), 8);
}

#[test]
fn decoder_takes_the_datagram_even_when_it_fails() {
    let mut src = BytesMut::from(&event(b"ZZZZ", &[])[..]);
    assert_eq!(F1_2021_Decoder.decode(&mut src), Err(F1Error::ConversionError));
    assert!(src.is_empty());

    let mut short_motion = header(0);
    short_motion.extend_from_slice(&[0; 100]);
    let mut src = BytesMut::from(&short_motion[..]);
    assert_eq!(F1_2021_Decoder.decode(&mut src), Err(F1Error::IncompleteData));
    assert!(src.is_empty());
}
