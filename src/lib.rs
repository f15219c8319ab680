//! Register-level driver for the BNO055 9-axis absolute-orientation sensor.
//!
//! The driver does no I/O itself. Each operation yields the exact sequence of
//! bus transactions ([`BusOp`]) that carries it out; the caller performs them in
//! order on its two-wire bus, reports each completed transaction back with
//! [`BNO055::complete`] so that the cached operating mode follows the chip, and
//! hands the bytes that were read to the matching decoder.

pub mod bus;
pub mod decode;
pub mod driver;
pub mod lemmas;
pub mod registers;
pub mod types;

pub use bus::{BusOp, Transfer};
pub use driver::BNO055;
pub use decode::{
    decode_calibration_status, decode_quaternion, decode_revision, decode_system_status,
    decode_vector,
};
pub use types::{
    BNO055CalibrationStatus, BNO055Error, BNO055OperationMode, BNO055PowerMode,
    BNO055RawQuaternion, BNO055RawVector, BNO055RegisterPage, BNO055Revision,
    BNO055SystemErrorCode, BNO055SystemStatus, BNO055SystemStatusCode,
};
