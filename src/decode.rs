//! Decoding of register bytes into readings, revision, status and calibration state.
use crate::types::{
    BNO055CalibrationStatus, BNO055Error, BNO055RawQuaternion, BNO055RawVector, BNO055Revision,
    BNO055SystemErrorCode, BNO055SystemStatus, BNO055SystemStatusCode,
};
use byteorder::{ByteOrder, LittleEndian};
use vstd::prelude::*;

verus! {

/// The unsigned 16-bit value of a little-endian byte pair.
pub open spec fn le_u16(lo: u8, hi: u8) -> int {
    hi as int * 256 + lo as int
}

/// The signed (two's complement) 16-bit value of a little-endian byte pair.
pub open spec fn le_i16(lo: u8, hi: u8) -> int {
    if le_u16(lo, hi) < 0x8000 {
        le_u16(lo, hi)
    } else {
        le_u16(lo, hi) - 0x10000
    }
}

/// Relies on byteorder's `LittleEndian::read_i16`: the first byte is the low one,
/// and the pair is read as a two's-complement number.
#[verifier::external_body]
fn read_i16_le(lo: u8, hi: u8) -> (r: i16)
    ensures
        r as int == le_i16(lo, hi),
{
    LittleEndian::read_i16(&[lo, hi])
}

/// Relies on byteorder's `LittleEndian::read_u16`: the first byte is the low one.
#[verifier::external_body]
fn read_u16_le(lo: u8, hi: u8) -> (r: u16)
    ensures
        r as int == le_u16(lo, hi),
{
    LittleEndian::read_u16(&[lo, hi])
}

/// Decodes the eight bytes of the quaternion block (w, x, y, z).
pub fn decode_quaternion(buf: [u8; 8]) -> (r: BNO055RawQuaternion)
    ensures
        r.w as int == le_i16(buf@[0], buf@[1]),
        r.x as int == le_i16(buf@[2], buf@[3]),
        r.y as int == le_i16(buf@[4], buf@[5]),
        r.z as int == le_i16(buf@[6], buf@[7]),
{
    BNO055RawQuaternion {
        w: read_i16_le(buf[0], buf[1]),
        x: read_i16_le(buf[2], buf[3]),
        y: read_i16_le(buf[4], buf[5]),
        z: read_i16_le(buf[6], buf[7]),
    }
}

/// Decodes the six bytes of a three-axis block (x, y, z).
pub fn decode_vector(buf: [u8; 6]) -> (r: BNO055RawVector)
    ensures
        r.x as int == le_i16(buf@[0], buf@[1]),
        r.y as int == le_i16(buf@[2], buf@[3]),
        r.z as int == le_i16(buf@[4], buf@[5]),
{
    BNO055RawVector {
        x: read_i16_le(buf[0], buf[1]),
        y: read_i16_le(buf[2], buf[3]),
        z: read_i16_le(buf[4], buf[5]),
    }
}

/// Decodes the six identification bytes that follow the chip id: accelerometer,
/// magnetometer and gyroscope ids, software revision (low byte first), bootloader.
pub fn decode_revision(buf: [u8; 6]) -> (r: BNO055Revision)
    ensures
        r.accelerometer == buf@[0],
        r.magnetometer == buf@[1],
        r.gyroscope == buf@[2],
        r.software as int == le_u16(buf@[3], buf@[4]),
        r.bootloader == buf@[5],
{
    BNO055Revision {
        software: read_u16_le(buf[3], buf[4]),
        bootloader: buf[5],
        accelerometer: buf[0],
        magnetometer: buf[1],
        gyroscope: buf[2],
    }
}

/// The two-bit calibration field that starts at bit `2 * k` of the status byte.
pub open spec fn calibration_field(status: u8, k: nat) -> int
    recommends
        k < 4,
{
    (status as int / pow4(k)) % 4
}

/// 4 to the power `k`, for `k` below 4.
pub open spec fn pow4(k: nat) -> int {
    if k == 0 {
        1
    } else if k == 1 {
        4
    } else if k == 2 {
        16
    } else {
        64
    }
}

/// Decodes the calibration-status byte: each subsystem counts as calibrated only
/// when both bits of its field are set (system: bits 7-6, gyroscope: 5-4,
/// accelerometer: 3-2, magnetometer: 1-0).
pub fn decode_calibration_status(status: u8) -> (r: BNO055CalibrationStatus)
    ensures
        r.sys == (calibration_field(status, 3) == 3),
        r.gyr == (calibration_field(status, 2) == 3),
        r.acc == (calibration_field(status, 1) == 3),
        r.mag == (calibration_field(status, 0) == 3),
{
    let sys = (status >> 6u8) & 0b11u8 == 0b11u8;
    let gyr = (status >> 4u8) & 0b11u8 == 0b11u8;
    let acc = (status >> 2u8) & 0b11u8 == 0b11u8;
    let mag = status & 0b11u8 == 0b11u8;
    assert(((status >> 6u8) & 3u8) as int == (status as int / 64) % 4) by (bit_vector);
    assert(((status >> 4u8) & 3u8) as int == (status as int / 16) % 4) by (bit_vector);
    assert(((status >> 2u8) & 3u8) as int == (status as int / 4) % 4) by (bit_vector);
    assert((status & 3u8) as int == status as int % 4) by (bit_vector);
    BNO055CalibrationStatus { sys, gyr, acc, mag }
}

/// Decodes the system-status and system-error bytes, with the self-test result
/// byte if one was read. A byte that names no status or no error is an error.
pub fn decode_system_status(status: u8, error: u8, selftest: Option<u8>) -> (r: Result<
    BNO055SystemStatus,
    BNO055Error,
>)
    ensures
        status > 6 ==> r == Err::<BNO055SystemStatus, BNO055Error>(
            BNO055Error::UnknownSystemStatus(status),
        ),
        status <= 6 && error > 10 ==> r == Err::<BNO055SystemStatus, BNO055Error>(
            BNO055Error::UnknownSystemError(error),
        ),
        status <= 6 && error <= 10 ==> (r matches Ok(s) && s.status.code() == status
            && s.error.code() == error && s.selftest == selftest),
{
    let status = match BNO055SystemStatusCode::from_u8(status) {
        Some(s) => s,
        None => {
            return Err(BNO055Error::UnknownSystemStatus(status));
        },
    };
    let error = match BNO055SystemErrorCode::from_u8(error) {
        Some(e) => e,
        None => {
            return Err(BNO055Error::UnknownSystemError(error));
        },
    };
    Ok(BNO055SystemStatus { status, selftest, error })
}

} // verus!
