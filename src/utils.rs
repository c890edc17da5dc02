use vstd::prelude::*;

use crate::reader::{i16_at, u16_at, u32_at, Reader};

verus! {

/// The size of the grid: every per-car table of the protocol has this many rows.
pub const NUMBER_OF_CARS: usize = 22;

/// A single-precision float as it stands on the wire: its IEEE-754 bit pattern.
///
/// Equality is bitwise, so a value read twice from the same bytes is always
/// equal to itself, NaN included.
#[derive(Debug, Clone, Copy, PartialEq, Eq, Default)]
pub struct Float32 {
    pub bits: u32,
}

/// Three components of one numeric type: a position, velocity, direction or acceleration.
#[derive(Debug, Clone, Copy, PartialEq, Eq, Default)]
pub struct Coordinates3D<T> {
    pub x: T,
    pub y: T,
    pub z: T,
}

/// One reading per wheel, keyed by corner.
#[derive(Debug, Clone, Copy, PartialEq, Eq, Default)]
pub struct WheelsData<T> {
    pub rear_left: T,
    pub rear_right: T,
    pub front_left: T,
    pub front_right: T,
}

/// The float held little-endian in the four bytes from `s[p]`.
pub open spec fn f32_at(s: Seq<u8>, p: int) -> Float32 {
    Float32 { bits: u32_at(s, p) }
}

pub open spec fn coordinates_f32_at(s: Seq<u8>, p: int) -> Coordinates3D<Float32> {
    Coordinates3D { x: f32_at(s, p), y: f32_at(s, p + 4), z: f32_at(s, p + 8) }
}

pub open spec fn coordinates_i16_at(s: Seq<u8>, p: int) -> Coordinates3D<i16> {
    Coordinates3D { x: i16_at(s, p), y: i16_at(s, p + 2), z: i16_at(s, p + 4) }
}

pub open spec fn wheels_f32_at(s: Seq<u8>, p: int) -> WheelsData<Float32> {
    WheelsData {
        rear_left: f32_at(s, p),
        rear_right: f32_at(s, p + 4),
        front_left: f32_at(s, p + 8),
        front_right: f32_at(s, p + 12),
    }
}

pub open spec fn wheels_u16_at(s: Seq<u8>, p: int) -> WheelsData<u16> {
    WheelsData {
        rear_left: u16_at(s, p),
        rear_right: u16_at(s, p + 2),
        front_left: u16_at(s, p + 4),
        front_right: u16_at(s, p + 6),
    }
}

pub open spec fn wheels_u8_at(s: Seq<u8>, p: int) -> WheelsData<u8> {
    WheelsData { rear_left: s[p], rear_right: s[p + 1], front_left: s[p + 2], front_right: s[p + 3] }
}

pub fn parse_f32(buf: &mut Reader) -> (r: Float32)
    requires
        old(buf).rest() >= 4,
    ensures
        r == f32_at(old(buf).bytes(), old(buf).pos()),
        final(buf).bytes() == old(buf).bytes(),
        final(buf).pos() == old(buf).pos() + 4,
{
    Float32 { bits: buf.get_u32_le() }
}

pub fn parse_coordinates_3d_f32(buf: &mut Reader) -> (r: Coordinates3D<Float32>)
    requires
        old(buf).rest() >= 12,
    ensures
        r == coordinates_f32_at(old(buf).bytes(), old(buf).pos()),
        final(buf).bytes() == old(buf).bytes(),
        final(buf).pos() == old(buf).pos() + 12,
{
    let x = parse_f32(buf);
    let y = parse_f32(buf);
    let z = parse_f32(buf);
    Coordinates3D { x, y, z }
}

pub fn parse_coordinates_3d_i16(buf: &mut Reader) -> (r: Coordinates3D<i16>)
    requires
        old(buf).rest() >= 6,
    ensures
        r == coordinates_i16_at(old(buf).bytes(), old(buf).pos()),
        final(buf).bytes() == old(buf).bytes(),
        final(buf).pos() == old(buf).pos() + 6,
{
    let x = buf.get_i16_le();
    let y = buf.get_i16_le();
    let z = buf.get_i16_le();
    Coordinates3D { x, y, z }
}

pub fn parse_wheels_data_f32(buf: &mut Reader) -> (r: WheelsData<Float32>)
    requires
        old(buf).rest() >= 16,
    ensures
        r == wheels_f32_at(old(buf).bytes(), old(buf).pos()),
        final(buf).bytes() == old(buf).bytes(),
        final(buf).pos() == old(buf).pos() + 16,
{
    let rear_left = parse_f32(buf);
    let rear_right = parse_f32(buf);
    let front_left = parse_f32(buf);
    let front_right = parse_f32(buf);
    WheelsData { rear_left, rear_right, front_left, front_right }
}

pub fn parse_wheels_data_u16(buf: &mut Reader) -> (r: WheelsData<u16>)
    requires
        old(buf).rest() >= 8,
    ensures
        r == wheels_u16_at(old(buf).bytes(), old(buf).pos()),
        final(buf).bytes() == old(buf).bytes(),
        final(buf).pos() == old(buf).pos() + 8,
{
    let rear_left = buf.get_u16_le();
    let rear_right = buf.get_u16_le();
    let front_left = buf.get_u16_le();
    let front_right = buf.get_u16_le();
    WheelsData { rear_left, rear_right, front_left, front_right }
}

pub fn parse_wheels_data_u8(buf: &mut Reader) -> (r: WheelsData<u8>)
    requires
        old(buf).rest() >= 4,
    ensures
        r == wheels_u8_at(old(buf).bytes(), old(buf).pos()),
        final(buf).bytes() == old(buf).bytes(),
        final(buf).pos() == old(buf).pos() + 4,
{
    let rear_left = buf.get_u8();
    let rear_right = buf.get_u8();
    let front_left = buf.get_u8();
    let front_right = buf.get_u8();
    WheelsData { rear_left, rear_right, front_left, front_right }
}

} // verus!
