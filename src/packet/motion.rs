use vstd::prelude::*;

use crate::error::F1Error;
use crate::packet::header::HEADER_SIZE;
use crate::reader::Reader;
use crate::utils::{
    coordinates_f32_at, coordinates_i16_at, f32_at, parse_coordinates_3d_f32,
    parse_coordinates_3d_i16, parse_f32, parse_wheels_data_f32, wheels_f32_at, Coordinates3D,
    Float32, WheelsData, NUMBER_OF_CARS,
};

verus! {

/// The size of a motion payload: a 1464-byte frame less its header.
pub const MOTION_PACKET_SIZE: usize = 1464 - HEADER_SIZE;

/// The size of one car's row in the motion table.
pub const CAR_MOTION_SIZE: usize = 60;

/// The motion of one car.
#[derive(Debug, Clone, Copy, PartialEq, Eq, Default)]
pub struct CarMotionData {
    pub world_positon: Coordinates3D<Float32>,
    pub world_velocity: Coordinates3D<Float32>,
    pub world_forward_dir: Coordinates3D<i16>,
    pub world_right_dir: Coordinates3D<i16>,
    pub g_force_lateral: Float32,
    pub g_force_longitudinal: Float32,
    pub g_force_vertical: Float32,
    pub yaw: Float32,
    pub pitch: Float32,
    pub roll: Float32,
}

/// A decoded motion payload: one row per car, then the player car's own readings.
#[derive(Debug, Clone, PartialEq, Eq)]
pub struct MotionData {
    pub car_motion_data: Vec<CarMotionData>,
    pub suspension_position: WheelsData<Float32>,
    pub suspension_velocity: WheelsData<Float32>,
    pub suspension_acceleration: WheelsData<Float32>,
    pub wheel_speed: WheelsData<Float32>,
    pub wheel_slip: WheelsData<Float32>,
    pub local_velocity: Coordinates3D<Float32>,
    pub angular_velocity: Coordinates3D<Float32>,
    pub angular_acceleration: Coordinates3D<Float32>,
    pub front_wheels_angle: Float32,
}

/// A motion payload as a mathematical value.
pub ghost struct MotionDataView {
    pub car_motion_data: Seq<CarMotionData>,
    pub suspension_position: WheelsData<Float32>,
    pub suspension_velocity: WheelsData<Float32>,
    pub suspension_acceleration: WheelsData<Float32>,
    pub wheel_speed: WheelsData<Float32>,
    pub wheel_slip: WheelsData<Float32>,
    pub local_velocity: Coordinates3D<Float32>,
    pub angular_velocity: Coordinates3D<Float32>,
    pub angular_acceleration: Coordinates3D<Float32>,
    pub front_wheels_angle: Float32,
}

impl View for MotionData {
    type V = MotionDataView;

    open spec fn view(&self) -> MotionDataView {
        MotionDataView {
            car_motion_data: self.car_motion_data@,
            suspension_position: self.suspension_position,
            suspension_velocity: self.suspension_velocity,
            suspension_acceleration: self.suspension_acceleration,
            wheel_speed: self.wheel_speed,
            wheel_slip: self.wheel_slip,
            local_velocity: self.local_velocity,
            angular_velocity: self.angular_velocity,
            angular_acceleration: self.angular_acceleration,
            front_wheels_angle: self.front_wheels_angle,
        }
    }
}

/// The row of one car held in the 60 bytes from `s[p]`.
pub open spec fn car_motion_at(s: Seq<u8>, p: int) -> CarMotionData {
    CarMotionData {
        world_positon: coordinates_f32_at(s, p),
        world_velocity: coordinates_f32_at(s, p + 12),
        world_forward_dir: coordinates_i16_at(s, p + 24),
        world_right_dir: coordinates_i16_at(s, p + 30),
        g_force_lateral: f32_at(s, p + 36),
        g_force_longitudinal: f32_at(s, p + 40),
        g_force_vertical: f32_at(s, p + 44),
        yaw: f32_at(s, p + 48),
        pitch: f32_at(s, p + 52),
        roll: f32_at(s, p + 56),
    }
}

/// The motion payload held in the 1440 bytes from `s[p]`.
pub open spec fn motion_at(s: Seq<u8>, p: int) -> MotionDataView {
    let tail = p + NUMBER_OF_CARS * CAR_MOTION_SIZE;
    MotionDataView {
        car_motion_data: Seq::new(
            NUMBER_OF_CARS as nat,
            |i: int| car_motion_at(s, p + CAR_MOTION_SIZE * i),
        ),
        suspension_position: wheels_f32_at(s, tail),
        suspension_velocity: wheels_f32_at(s, tail + 16),
        suspension_acceleration: wheels_f32_at(s, tail + 32),
        wheel_speed: wheels_f32_at(s, tail + 48),
        wheel_slip: wheels_f32_at(s, tail + 64),
        local_velocity: coordinates_f32_at(s, tail + 80),
        angular_velocity: coordinates_f32_at(s, tail + 92),
        angular_acceleration: coordinates_f32_at(s, tail + 104),
        front_wheels_angle: f32_at(s, tail + 116),
    }
}

fn parse_car_motion_data(buf: &mut Reader) -> (r: CarMotionData)
    requires
        old(buf).rest() >= CAR_MOTION_SIZE,
    ensures
        r == car_motion_at(old(buf).bytes(), old(buf).pos()),
        final(buf).bytes() == old(buf).bytes(),
        final(buf).pos() == old(buf).pos() + CAR_MOTION_SIZE,
{
    let world_positon = parse_coordinates_3d_f32(buf);
    let world_velocity = parse_coordinates_3d_f32(buf);
    let world_forward_dir = parse_coordinates_3d_i16(buf);
    let world_right_dir = parse_coordinates_3d_i16(buf);
    let g_force_lateral = parse_f32(buf);
    let g_force_longitudinal = parse_f32(buf);
    let g_force_vertical = parse_f32(buf);
    let yaw = parse_f32(buf);
    let pitch = parse_f32(buf);
    let roll = parse_f32(buf);
    CarMotionData {
        world_positon,
        world_velocity,
        world_forward_dir,
        world_right_dir,
        g_force_lateral,
        g_force_longitudinal,
        g_force_vertical,
        yaw,
        pitch,
        roll,
    }
}

/// Decodes a motion payload at the reader's position.
///
/// Fails with `IncompleteData`, before reading anything, when fewer than
/// 1440 bytes are left; otherwise succeeds and moves past the payload.
pub fn parse_motion_packet(buf: &mut Reader) -> (r: Result<MotionData, F1Error>)
    ensures
        final(buf).bytes() == old(buf).bytes(),
        match r {
            Ok(m) => {
                &&& old(buf).rest() >= MOTION_PACKET_SIZE
                &&& m@ == motion_at(old(buf).bytes(), old(buf).pos())
                &&& final(buf).pos() == old(buf).pos() + MOTION_PACKET_SIZE
            },
            Err(e) => {
                &&& old(buf).rest() < MOTION_PACKET_SIZE
                &&& e == F1Error::IncompleteData
                &&& final(buf).pos() == old(buf).pos()
            },
        },
{
    if buf.remaining() < MOTION_PACKET_SIZE {
        return Err(F1Error::IncompleteData);
    }
    let ghost s = buf.bytes();
    let ghost p = buf.pos();

    let mut car_motion_data: Vec<CarMotionData> = Vec::new();
    let mut i: usize = 0;
    while i < NUMBER_OF_CARS
        invariant
            i <= NUMBER_OF_CARS,
            buf.bytes() == s,
            buf.pos() == p + CAR_MOTION_SIZE * i,
            s.len() - p >= MOTION_PACKET_SIZE,
            car_motion_data@ == Seq::new(i as nat, |j: int| car_motion_at(s, p + CAR_MOTION_SIZE * j)),
        decreases NUMBER_OF_CARS - i,
    {
        let car = parse_car_motion_data(buf);
        car_motion_data.push(car);
        i = i + 1;
        assert(car_motion_data@ =~= Seq::new(
            i as nat,
            |j: int| car_motion_at(s, p + CAR_MOTION_SIZE * j),
        ));
    }

    let suspension_position = parse_wheels_data_f32(buf);
    let suspension_velocity = parse_wheels_data_f32(buf);
    let suspension_acceleration = parse_wheels_data_f32(buf);
    let wheel_speed = parse_wheels_data_f32(buf);
    let wheel_slip = parse_wheels_data_f32(buf);
    let local_velocity = parse_coordinates_3d_f32(buf);
    let angular_velocity = parse_coordinates_3d_f32(buf);
    let angular_acceleration = parse_coordinates_3d_f32(buf);
    let front_wheels_angle = parse_f32(buf);

    let m = MotionData {
        car_motion_data,
        suspension_position,
        suspension_velocity,
        suspension_acceleration,
        wheel_speed,
        wheel_slip,
        local_velocity,
        angular_velocity,
        angular_acceleration,
        front_wheels_angle,
    };
    assert(m@ =~= motion_at(s, p));
    Ok(m)
}

} // verus!
