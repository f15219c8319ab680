//! Values that the driver exchanges with its caller: the chip's enumerations,
//! decoded readings and the driver's own errors.
use vstd::prelude::*;

verus! {

/// Main system state reported in the system-status register.
#[derive(Debug, Clone, Copy, PartialEq, Eq, Structural)]
pub enum BNO055SystemStatusCode {
    SystemIdle,
    SystemError,
    InitPeripherals,
    SystemInit,
    Executing,
    Running,
    RunningWithoutFusion,
}

impl BNO055SystemStatusCode {
    /// The register value that stands for this state.
    pub open spec fn code(self) -> u8 {
        match self {
            BNO055SystemStatusCode::SystemIdle => 0,
            BNO055SystemStatusCode::SystemError => 1,
            BNO055SystemStatusCode::InitPeripherals => 2,
            BNO055SystemStatusCode::SystemInit => 3,
            BNO055SystemStatusCode::Executing => 4,
            BNO055SystemStatusCode::Running => 5,
            BNO055SystemStatusCode::RunningWithoutFusion => 6,
        }
    }

    /// Reads a status register value; values past the last state are rejected.
    pub fn from_u8(b: u8) -> (r: Option<Self>)
        ensures
            r is Some <==> b <= 6,
            r matches Some(c) ==> c.code() == b,
    {
        match b {
            0 => Some(BNO055SystemStatusCode::SystemIdle),
            1 => Some(BNO055SystemStatusCode::SystemError),
            2 => Some(BNO055SystemStatusCode::InitPeripherals),
            3 => Some(BNO055SystemStatusCode::SystemInit),
            4 => Some(BNO055SystemStatusCode::Executing),
            5 => Some(BNO055SystemStatusCode::Running),
            6 => Some(BNO055SystemStatusCode::RunningWithoutFusion),
            _ => None,
        }
    }
}

/// Error reported in the system-error register.
#[derive(Debug, Clone, Copy, PartialEq, Eq, Structural)]
pub enum BNO055SystemErrorCode {
    NoError,
    PeripheralInit,
    SystemInit,
    SelfTest,
    RegisterMapValue,
    RegisterMapAddress,
    RegisterMapWrite,
    LowPowerModeNotAvail,
    AccelPowerModeNotAvail,
    FusionAlgoConfig,
    SensorConfig,
}

impl BNO055SystemErrorCode {
    /// The register value that stands for this error.
    pub open spec fn code(self) -> u8 {
        match self {
            BNO055SystemErrorCode::NoError => 0,
            BNO055SystemErrorCode::PeripheralInit => 1,
            BNO055SystemErrorCode::SystemInit => 2,
            BNO055SystemErrorCode::SelfTest => 3,
            BNO055SystemErrorCode::RegisterMapValue => 4,
            BNO055SystemErrorCode::RegisterMapAddress => 5,
            BNO055SystemErrorCode::RegisterMapWrite => 6,
            BNO055SystemErrorCode::LowPowerModeNotAvail => 7,
            BNO055SystemErrorCode::AccelPowerModeNotAvail => 8,
            BNO055SystemErrorCode::FusionAlgoConfig => 9,
            BNO055SystemErrorCode::SensorConfig => 10,
        }
    }

    /// Reads an error register value; values past the last error are rejected.
    pub fn from_u8(b: u8) -> (r: Option<Self>)
        ensures
            r is Some <==> b <= 10,
            r matches Some(c) ==> c.code() == b,
    {
        match b {
            0 => Some(BNO055SystemErrorCode::NoError),
            1 => Some(BNO055SystemErrorCode::PeripheralInit),
            2 => Some(BNO055SystemErrorCode::SystemInit),
            3 => Some(BNO055SystemErrorCode::SelfTest),
            4 => Some(BNO055SystemErrorCode::RegisterMapValue),
            5 => Some(BNO055SystemErrorCode::RegisterMapAddress),
            6 => Some(BNO055SystemErrorCode::RegisterMapWrite),
            7 => Some(BNO055SystemErrorCode::LowPowerModeNotAvail),
            8 => Some(BNO055SystemErrorCode::AccelPowerModeNotAvail),
            9 => Some(BNO055SystemErrorCode::FusionAlgoConfig),
            10 => Some(BNO055SystemErrorCode::SensorConfig),
            _ => None,
        }
    }
}

/// System state, system error and, when one was run, the self-test result byte.
#[derive(Debug, Clone, Copy, PartialEq, Eq, Structural)]
pub struct BNO055SystemStatus {
    pub status: BNO055SystemStatusCode,
    pub selftest: Option<u8>,
    pub error: BNO055SystemErrorCode,
}

/// Revision identifiers of the firmware, the bootloader and the three sensors.
#[derive(Debug, Clone, Copy, PartialEq, Eq, Structural)]
pub struct BNO055Revision {
    pub software: u16,
    pub bootloader: u8,
    pub accelerometer: u8,
    pub magnetometer: u8,
    pub gyroscope: u8,
}

/// Which subsystems report full calibration.
#[derive(Debug, Clone, Copy, PartialEq, Eq, Structural)]
pub struct BNO055CalibrationStatus {
    pub sys: bool,
    pub gyr: bool,
    pub acc: bool,
    pub mag: bool,
}

/// A quaternion in raw counts; divide by `QUATERNION_SCALE` for unit values.
#[derive(Debug, Clone, Copy, PartialEq, Eq, Structural)]
pub struct BNO055RawQuaternion {
    pub w: i16,
    pub x: i16,
    pub y: i16,
    pub z: i16,
}

/// A three-axis reading in raw counts; the scale depends on the register block read.
#[derive(Debug, Clone, Copy, PartialEq, Eq, Structural)]
pub struct BNO055RawVector {
    pub x: i16,
    pub y: i16,
    pub z: i16,
}

/// Register page selected through the page-id register.
#[derive(Debug, Clone, Copy, PartialEq, Eq, Structural)]
pub enum BNO055RegisterPage {
    Page0,
    Page1,
}

impl BNO055RegisterPage {
    pub open spec fn code(self) -> u8 {
        match self {
            BNO055RegisterPage::Page0 => 0,
            BNO055RegisterPage::Page1 => 1,
        }
    }

    /// The value written to the page-id register.
    pub fn value(self) -> (r: u8)
        ensures
            r == self.code(),
    {
        match self {
            BNO055RegisterPage::Page0 => 0,
            BNO055RegisterPage::Page1 => 1,
        }
    }
}

/// Power mode written to the power-mode register.
#[derive(Debug, Clone, Copy, PartialEq, Eq, Structural)]
pub enum BNO055PowerMode {
    Normal,
    LowPower,
    Suspend,
}

impl BNO055PowerMode {
    pub open spec fn code(self) -> u8 {
        match self {
            BNO055PowerMode::Normal => 0b00,
            BNO055PowerMode::LowPower => 0b01,
            BNO055PowerMode::Suspend => 0b10,
        }
    }

    /// The value written to the power-mode register.
    pub fn value(self) -> (r: u8)
        ensures
            r == self.code(),
    {
        match self {
            BNO055PowerMode::Normal => 0b00,
            BNO055PowerMode::LowPower => 0b01,
            BNO055PowerMode::Suspend => 0b10,
        }
    }
}

/// Operating mode: config mode, or one of twelve measurement modes that enable
/// a subset of the sensors and, in the fusion modes, the orientation engine.
#[derive(Debug, Clone, Copy, PartialEq, Eq, Structural)]
pub enum BNO055OperationMode {
    ConfigMode,
    AccOnly,
    MagOnly,
    GyroOnly,
    AccMag,
    AccGyro,
    MagGyro,
    AMG,
    IMU,
    Compass,
    M4G,
    NdofFmcOff,
    Ndof,
}

impl BNO055OperationMode {
    pub open spec fn code(self) -> u8 {
        match self {
            BNO055OperationMode::ConfigMode => 0b0000,
            BNO055OperationMode::AccOnly => 0b0001,
            BNO055OperationMode::MagOnly => 0b0010,
            BNO055OperationMode::GyroOnly => 0b0011,
            BNO055OperationMode::AccMag => 0b0100,
            BNO055OperationMode::AccGyro => 0b0101,
            BNO055OperationMode::MagGyro => 0b0110,
            BNO055OperationMode::AMG => 0b0111,
            BNO055OperationMode::IMU => 0b1000,
            BNO055OperationMode::Compass => 0b1001,
            BNO055OperationMode::M4G => 0b1010,
            BNO055OperationMode::NdofFmcOff => 0b1011,
            BNO055OperationMode::Ndof => 0b1100,
        }
    }

    /// The mode that a mode-register value selects, if any.
    pub open spec fn of_code(b: u8) -> Option<BNO055OperationMode> {
        if b == 0b0000 {
            Some(BNO055OperationMode::ConfigMode)
        } else if b == 0b0001 {
            Some(BNO055OperationMode::AccOnly)
        } else if b == 0b0010 {
            Some(BNO055OperationMode::MagOnly)
        } else if b == 0b0011 {
            Some(BNO055OperationMode::GyroOnly)
        } else if b == 0b0100 {
            Some(BNO055OperationMode::AccMag)
        } else if b == 0b0101 {
            Some(BNO055OperationMode::AccGyro)
        } else if b == 0b0110 {
            Some(BNO055OperationMode::MagGyro)
        } else if b == 0b0111 {
            Some(BNO055OperationMode::AMG)
        } else if b == 0b1000 {
            Some(BNO055OperationMode::IMU)
        } else if b == 0b1001 {
            Some(BNO055OperationMode::Compass)
        } else if b == 0b1010 {
            Some(BNO055OperationMode::M4G)
        } else if b == 0b1011 {
            Some(BNO055OperationMode::NdofFmcOff)
        } else if b == 0b1100 {
            Some(BNO055OperationMode::Ndof)
        } else {
            None
        }
    }

    /// The value written to the mode register.
    pub fn value(self) -> (r: u8)
        ensures
            r == self.code(),
            Self::of_code(r) == Some(self),
    {
        match self {
            BNO055OperationMode::ConfigMode => 0b0000,
            BNO055OperationMode::AccOnly => 0b0001,
            BNO055OperationMode::MagOnly => 0b0010,
            BNO055OperationMode::GyroOnly => 0b0011,
            BNO055OperationMode::AccMag => 0b0100,
            BNO055OperationMode::AccGyro => 0b0101,
            BNO055OperationMode::MagGyro => 0b0110,
            BNO055OperationMode::AMG => 0b0111,
            BNO055OperationMode::IMU => 0b1000,
            BNO055OperationMode::Compass => 0b1001,
            BNO055OperationMode::M4G => 0b1010,
            BNO055OperationMode::NdofFmcOff => 0b1011,
            BNO055OperationMode::Ndof => 0b1100,
        }
    }

    /// Reads a mode-register value; values that select no mode are rejected.
    pub fn from_u8(b: u8) -> (r: Option<Self>)
        ensures
            r == Self::of_code(b),
            r is Some <==> b <= 0b1100,
            r matches Some(m) ==> m.code() == b,
    {
        match b {
            0b0000 => Some(BNO055OperationMode::ConfigMode),
            0b0001 => Some(BNO055OperationMode::AccOnly),
            0b0010 => Some(BNO055OperationMode::MagOnly),
            0b0011 => Some(BNO055OperationMode::GyroOnly),
            0b0100 => Some(BNO055OperationMode::AccMag),
            0b0101 => Some(BNO055OperationMode::AccGyro),
            0b0110 => Some(BNO055OperationMode::MagGyro),
            0b0111 => Some(BNO055OperationMode::AMG),
            0b1000 => Some(BNO055OperationMode::IMU),
            0b1001 => Some(BNO055OperationMode::Compass),
            0b1010 => Some(BNO055OperationMode::M4G),
            0b1011 => Some(BNO055OperationMode::NdofFmcOff),
            0b1100 => Some(BNO055OperationMode::Ndof),
            _ => None,
        }
    }
}

/// Failures of the driver's own protocol checks (bus failures are the caller's).
#[derive(Debug, Clone, Copy, PartialEq, Eq, Structural)]
pub enum BNO055Error {
    /// The chip-identity register held this value instead of `BNO055_ID`.
    WrongChipId(u8),
    /// The system-status register held a value that names no state.
    UnknownSystemStatus(u8),
    /// The system-error register held a value that names no error.
    UnknownSystemError(u8),
    /// A calibration block of this length, not `CALIBRATION_LEN`, was given.
    CalibrationLength(usize),
}

} // verus!
