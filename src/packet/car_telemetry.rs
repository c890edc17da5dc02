use vstd::prelude::*;

use crate::error::F1Error;
use crate::packet::header::HEADER_SIZE;
use crate::reader::{i8_at, u16_at, Reader};
use crate::utils::{
    f32_at, parse_f32, parse_wheels_data_f32, parse_wheels_data_u16, parse_wheels_data_u8,
    wheels_f32_at, wheels_u16_at, wheels_u8_at, Float32, WheelsData, NUMBER_OF_CARS,
};

verus! {

/// The size of a car-telemetry payload: a 1347-byte frame less its header.
pub const CAR_TELEMETRY_SIZE: usize = 1347 - HEADER_SIZE;

/// The size of one car's row in the telemetry table.
pub const CAR_TELEMETRY_ROW_SIZE: usize = 60;

/// A decoded car-telemetry payload: one row per car, then the player's display state.
#[derive(Debug, Clone, PartialEq, Eq)]
pub struct TelemetryData {
    pub car_telemetry_data: Vec<CarTelemetryData>,
    pub mfd_panel_index: u8,
    pub mfd_panel_index_secondary: u8,
    pub suggested_gear: i8,
}

/// The telemetry of one car.
#[derive(Debug, Clone, Copy, PartialEq, Eq, Default)]
pub struct CarTelemetryData {
    pub speed: u16,
    pub throttle: Float32,
    pub steer: Float32,
    pub brake: Float32,
    pub clutch: u8,
    /// -1 is reverse, 0 neutral, 1 to 8 the forward gears.
    pub gear: i8,
    pub engine_rpm: u16,
    pub drs: bool,
    pub rev_lights_percent: u8,
    pub rev_lights_bit: u16,
    pub brakes_temp: WheelsData<u16>,
    pub tyres_surface_temp: WheelsData<u8>,
    pub tyres_inner_temp: WheelsData<u8>,
    pub engine_temp: u16,
    pub tyres_pressure: WheelsData<Float32>,
    pub surface_type: WheelsData<u8>,
}

/// A car-telemetry payload as a mathematical value.
pub ghost struct TelemetryDataView {
    pub car_telemetry_data: Seq<CarTelemetryData>,
    pub mfd_panel_index: u8,
    pub mfd_panel_index_secondary: u8,
    pub suggested_gear: i8,
}

impl View for TelemetryData {
    type V = TelemetryDataView;

    open spec fn view(&self) -> TelemetryDataView {
        TelemetryDataView {
            car_telemetry_data: self.car_telemetry_data@,
            mfd_panel_index: self.mfd_panel_index,
            mfd_panel_index_secondary: self.mfd_panel_index_secondary,
            suggested_gear: self.suggested_gear,
        }
    }
}

/// The row of one car held in the 60 bytes from `s[p]`.
pub open spec fn car_telemetry_at(s: Seq<u8>, p: int) -> CarTelemetryData {
    CarTelemetryData {
        speed: u16_at(s, p),
        throttle: f32_at(s, p + 2),
        steer: f32_at(s, p + 6),
        brake: f32_at(s, p + 10),
        clutch: s[p + 14],
        gear: i8_at(s, p + 15),
        engine_rpm: u16_at(s, p + 16),
        drs: s[p + 18] == 1,
        rev_lights_percent: s[p + 19],
        rev_lights_bit: u16_at(s, p + 20),
        brakes_temp: wheels_u16_at(s, p + 22),
        tyres_surface_temp: wheels_u8_at(s, p + 30),
        tyres_inner_temp: wheels_u8_at(s, p + 34),
        engine_temp: u16_at(s, p + 38),
        tyres_pressure: wheels_f32_at(s, p + 40),
        surface_type: wheels_u8_at(s, p + 56),
    }
}

/// The car-telemetry payload held in the 1323 bytes from `s[p]`.
pub open spec fn telemetry_at(s: Seq<u8>, p: int) -> TelemetryDataView {
    let tail = p + NUMBER_OF_CARS * CAR_TELEMETRY_ROW_SIZE;
    TelemetryDataView {
        car_telemetry_data: Seq::new(
            NUMBER_OF_CARS as nat,
            |i: int| car_telemetry_at(s, p + CAR_TELEMETRY_ROW_SIZE * i),
        ),
        mfd_panel_index: s[tail],
        mfd_panel_index_secondary: s[tail + 1],
        suggested_gear: i8_at(s, tail + 2),
    }
}

fn parse_car_telemetry_data(buf: &mut Reader) -> (r: CarTelemetryData)
    requires
        old(buf).rest() >= CAR_TELEMETRY_ROW_SIZE,
    ensures
        r == car_telemetry_at(old(buf).bytes(), old(buf).pos()),
        final(buf).bytes() == old(buf).bytes(),
        final(buf).pos() == old(buf).pos() + CAR_TELEMETRY_ROW_SIZE,
{
    let speed = buf.get_u16_le();
    let throttle = parse_f32(buf);
    let steer = parse_f32(buf);
    let brake = parse_f32(buf);
    let clutch = buf.get_u8();
    let gear = buf.get_i8();
    let engine_rpm = buf.get_u16_le();
    let drs = buf.get_u8() == 1;
    let rev_lights_percent = buf.get_u8();
    let rev_lights_bit = buf.get_u16_le();
    let brakes_temp = parse_wheels_data_u16(buf);
    let tyres_surface_temp = parse_wheels_data_u8(buf);
    let tyres_inner_temp = parse_wheels_data_u8(buf);
    let engine_temp = buf.get_u16_le();
    let tyres_pressure = parse_wheels_data_f32(buf);
    let surface_type = parse_wheels_data_u8(buf);
    CarTelemetryData {
        speed,
        throttle,
        steer,
        brake,
        clutch,
        gear,
        engine_rpm,
        drs,
        rev_lights_percent,
        rev_lights_bit,
        brakes_temp,
        tyres_surface_temp,
        tyres_inner_temp,
        engine_temp,
        tyres_pressure,
        surface_type,
    }
}

/// Decodes a car-telemetry payload at the reader's position.
///
/// Fails with `IncompleteData`, before reading anything, when fewer than
/// 1323 bytes are left; otherwise succeeds and moves past the payload.
pub fn parse_car_telemetry_packet(buf: &mut Reader) -> (r: Result<TelemetryData, F1Error>)
    ensures
        final(buf).bytes() == old(buf).bytes(),
        match r {
            Ok(t) => {
                &&& old(buf).rest() >= CAR_TELEMETRY_SIZE
                &&& t@ == telemetry_at(old(buf).bytes(), old(buf).pos())
                &&& final(buf).pos() == old(buf).pos() + CAR_TELEMETRY_SIZE
            },
            Err(e) => {
                &&& old(buf).rest() < CAR_TELEMETRY_SIZE
                &&& e == F1Error::IncompleteData
                &&& final(buf).pos() == old(buf).pos()
            },
        },
{
    if buf.remaining() < CAR_TELEMETRY_SIZE {
        return Err(F1Error::IncompleteData);
    }
    let ghost s = buf.bytes();
    let ghost p = buf.pos();

    let mut car_telemetry_data: Vec<CarTelemetryData> = Vec::new();
    let mut i: usize = 0;
    while i < NUMBER_OF_CARS
        invariant
            i <= NUMBER_OF_CARS,
            buf.bytes() == s,
            buf.pos() == p + CAR_TELEMETRY_ROW_SIZE * i,
            s.len() - p >= CAR_TELEMETRY_SIZE,
            car_telemetry_data@ == Seq::new(
                i as nat,
                |j: int| car_telemetry_at(s, p + CAR_TELEMETRY_ROW_SIZE * j),
            ),
        decreases NUMBER_OF_CARS - i,
    {
        let car = parse_car_telemetry_data(buf);
        car_telemetry_data.push(car);
        i = i + 1;
        assert(car_telemetry_data@ =~= Seq::new(
            i as nat,
            |j: int| car_telemetry_at(s, p + CAR_TELEMETRY_ROW_SIZE * j),
        ));
    }

    let mfd_panel_index = buf.get_u8();
    let mfd_panel_index_secondary = buf.get_u8();
    let suggested_gear = buf.get_i8();

    let t = TelemetryData {
        car_telemetry_data,
        mfd_panel_index,
        mfd_panel_index_secondary,
        suggested_gear,
    };
    assert(t@ =~= telemetry_at(s, p));
    Ok(t)
}

} // verus!
