//! The driver: its mode cache, and the transaction sequence of each operation.
use crate::bus::{mode_after, mode_after_all, transfers, BusOp, Transfer};
use crate::registers::{
    BNO055_ACC_DATA_X_LSB, BNO055_ACC_ID, BNO055_ACC_OFFSET_X_LSB, BNO055_CALIB_STAT,
    BNO055_CHIP_ID, BNO055_EUL_HEADING_LSB, BNO055_GYR_DATA_X_LSB, BNO055_ID,
    BNO055_LIA_DATA_X_LSB, BNO055_MAG_DATA_X_LSB, BNO055_OPR_MODE, BNO055_PAGE_ID,
    BNO055_PWR_MODE, BNO055_QUA_DATA_W_LSB, BNO055_ST_RESULT, BNO055_SYS_ERR, BNO055_SYS_STATUS,
    BNO055_SYS_TRIGGER, BNO055_TEMP, CALIBRATION_LEN, MODE_SWITCH_DELAY_MS, SELF_TEST_DELAY_MS,
    SYS_TRIGGER_EXT_CRYSTAL, SYS_TRIGGER_RESET, SYS_TRIGGER_SELF_TEST,
};
use crate::types::{BNO055Error, BNO055OperationMode, BNO055PowerMode, BNO055RegisterPage};
use vstd::prelude::*;

verus! {

/// Driver state for one chip: the operating mode last written to it through
/// this driver.
#[derive(Debug, Clone, Copy, PartialEq, Eq, Structural)]
pub struct BNO055 {
    pub mode: BNO055OperationMode,
}

/// Transfers of the mode-switch protocol: nothing when the mode is already
/// selected, else one write of the mode register and the settling delay.
pub open spec fn mode_switch(from: BNO055OperationMode, to: BNO055OperationMode) -> Seq<Transfer> {
    if from == to {
        seq![]
    } else {
        seq![
            Transfer::WriteByte(BNO055_OPR_MODE, to.code()),
            Transfer::Sleep(MODE_SWITCH_DELAY_MS as nat),
        ]
    }
}

/// Transfers of an access that needs config mode: switch to config mode,
/// perform `t`, switch back to `mode`.
pub open spec fn in_config_mode(mode: BNO055OperationMode, t: Transfer) -> Seq<Transfer> {
    mode_switch(mode, BNO055OperationMode::ConfigMode) + seq![t] + mode_switch(
        BNO055OperationMode::ConfigMode,
        mode,
    )
}

/// Transfers of the first half of the self-test, from the cached `mode`.
pub open spec fn self_test_start(mode: BNO055OperationMode) -> Seq<Transfer> {
    mode_switch(mode, BNO055OperationMode::ConfigMode) + seq![Transfer::ReadByte(BNO055_SYS_TRIGGER)]
}

/// Transfers of the second half of the self-test, from the cached `mode`, given
/// the trigger register's value and the mode to return to.
pub open spec fn self_test_finish(
    mode: BNO055OperationMode,
    sys_trigger: u8,
    prev: BNO055OperationMode,
) -> Seq<Transfer> {
    seq![
        Transfer::WriteByte(BNO055_SYS_TRIGGER, sys_trigger | SYS_TRIGGER_SELF_TEST),
        Transfer::Sleep(SELF_TEST_DELAY_MS as nat),
        Transfer::ReadByte(BNO055_ST_RESULT),
    ] + mode_switch(mode, prev)
}

/// Transfers of initialization once the chip id has been checked.
pub open spec fn init_sequence() -> Seq<Transfer> {
    seq![
        Transfer::WriteByte(BNO055_OPR_MODE, BNO055OperationMode::ConfigMode.code()),
        Transfer::Sleep(MODE_SWITCH_DELAY_MS as nat),
        Transfer::WriteByte(BNO055_PAGE_ID, BNO055RegisterPage::Page0.code()),
        Transfer::WriteByte(BNO055_SYS_TRIGGER, SYS_TRIGGER_RESET),
        Transfer::WriteByte(BNO055_PWR_MODE, BNO055PowerMode::Normal.code()),
        Transfer::WriteByte(BNO055_SYS_TRIGGER, 0),
    ]
}

/// Appends the mode-switch transfers from `from` to `to`.
fn push_mode_switch(ops: &mut Vec<BusOp>, from: BNO055OperationMode, to: BNO055OperationMode)
    ensures
        transfers(final(ops)@) == transfers(old(ops)@) + mode_switch(from, to),
{
    let ghost before = transfers(ops@);
    if from != to {
        ops.push(BusOp::WriteByte { reg: BNO055_OPR_MODE, value: to.value() });
        ops.push(BusOp::Sleep { ms: MODE_SWITCH_DELAY_MS });
    }
    assert(transfers(ops@) =~= before + mode_switch(from, to));
}

/// The transfers of `op` wrapped in a switch to config mode and back to `mode`.
fn config_mode_access(mode: BNO055OperationMode, op: BusOp) -> (ops: Vec<BusOp>)
    ensures
        transfers(ops@) == in_config_mode(mode, op@),
{
    let mut ops: Vec<BusOp> = Vec::new();
    push_mode_switch(&mut ops, mode, BNO055OperationMode::ConfigMode);
    let ghost t = op@;
    ops.push(op);
    push_mode_switch(&mut ops, BNO055OperationMode::ConfigMode, mode);
    assert(transfers(ops@) =~= in_config_mode(mode, t));
    ops
}

/// A sequence of one operation.
fn single(op: BusOp) -> (ops: Vec<BusOp>)
    ensures
        transfers(ops@) == seq![op@],
{
    let ghost t = op@;
    let ops = vec![op];
    assert(transfers(ops@) =~= seq![t]);
    ops
}

impl BNO055 {
    /// The read of the chip-identity register that opening a chip starts with.
    pub fn probe() -> (ops: Vec<BusOp>)
        ensures
            transfers(ops@) == seq![Transfer::ReadByte(BNO055_CHIP_ID)],
    {
        single(BusOp::ReadByte { reg: BNO055_CHIP_ID })
    }

    /// Opens the chip whose identity register read `chip_id`. On the expected
    /// identity, yields the driver in config mode and the transfers that put the
    /// chip there: config mode, register page 0, reset, normal power, trigger
    /// register cleared. Any other identity fails, with nothing more to send.
    pub fn new(chip_id: u8) -> (r: Result<(BNO055, Vec<BusOp>), BNO055Error>)
        ensures
            r is Ok <==> chip_id == BNO055_ID,
            r matches Err(e) ==> e == BNO055Error::WrongChipId(chip_id),
            r matches Ok((d, ops)) ==> d.mode == BNO055OperationMode::ConfigMode && transfers(
                ops@,
            ) == init_sequence(),
    {
        if chip_id != BNO055_ID {
            return Err(BNO055Error::WrongChipId(chip_id));
        }
        let mut ops: Vec<BusOp> = Vec::new();
        ops.push(
            BusOp::WriteByte {
                reg: BNO055_OPR_MODE,
                value: BNO055OperationMode::ConfigMode.value(),
            },
        );
        ops.push(BusOp::Sleep { ms: MODE_SWITCH_DELAY_MS });
        ops.push(BusOp::WriteByte { reg: BNO055_PAGE_ID, value: BNO055RegisterPage::Page0.value() });
        ops.push(BusOp::WriteByte { reg: BNO055_SYS_TRIGGER, value: SYS_TRIGGER_RESET });
        ops.push(BusOp::WriteByte { reg: BNO055_PWR_MODE, value: BNO055PowerMode::Normal.value() });
        ops.push(BusOp::WriteByte { reg: BNO055_SYS_TRIGGER, value: 0 });
        assert(transfers(ops@) =~= init_sequence());
        Ok((BNO055 { mode: BNO055OperationMode::ConfigMode }, ops))
    }

    /// Records that `op` completed on the bus. A completed write of a mode value
    /// to the mode register updates the cached mode; nothing else changes it, so
    /// a failed transaction, which is never recorded, leaves the cache as it was.
    pub fn complete(&mut self, op: &BusOp)
        ensures
            final(self).mode == mode_after(old(self).mode, op@),
    {
        if let BusOp::WriteByte { reg, value } = op {
            if *reg == BNO055_OPR_MODE {
                if let Some(m) = BNO055OperationMode::from_u8(*value) {
                    self.mode = m;
                }
            }
        }
    }

    /// Resets the chip, returning its register map to default values.
    pub fn reset(&self) -> (ops: Vec<BusOp>)
        ensures
            transfers(ops@) == seq![Transfer::WriteByte(BNO055_SYS_TRIGGER, SYS_TRIGGER_RESET)],
    {
        single(BusOp::WriteByte { reg: BNO055_SYS_TRIGGER, value: SYS_TRIGGER_RESET })
    }

    /// Switches to `mode`: no traffic at all when it is the cached mode, else one
    /// write of the mode register followed by the settling delay.
    pub fn set_mode(&self, mode: BNO055OperationMode) -> (ops: Vec<BusOp>)
        ensures
            transfers(ops@) == mode_switch(self.mode, mode),
            self.mode == mode ==> ops@.len() == 0,
            self.mode != mode ==> transfers(ops@) == seq![
                Transfer::WriteByte(BNO055_OPR_MODE, mode.code()),
                Transfer::Sleep(MODE_SWITCH_DELAY_MS as nat),
            ],
    {
        let mut ops: Vec<BusOp> = Vec::new();
        push_mode_switch(&mut ops, self.mode, mode);
        ops
    }

    /// Selects the external (`true`) or internal oscillator, in config mode.
    pub fn set_external_crystal(&self, ext: bool) -> (ops: Vec<BusOp>)
        ensures
            transfers(ops@) == in_config_mode(
                self.mode,
                Transfer::WriteByte(
                    BNO055_SYS_TRIGGER,
                    if ext {
                        SYS_TRIGGER_EXT_CRYSTAL
                    } else {
                        0
                    },
                ),
            ),
    {
        let value: u8 = if ext {
            SYS_TRIGGER_EXT_CRYSTAL
        } else {
            0
        };
        config_mode_access(self.mode, BusOp::WriteByte { reg: BNO055_SYS_TRIGGER, value })
    }

    /// Sets the power mode.
    pub fn set_power_mode(&self, mode: BNO055PowerMode) -> (ops: Vec<BusOp>)
        ensures
            transfers(ops@) == seq![Transfer::WriteByte(BNO055_PWR_MODE, mode.code())],
    {
        single(BusOp::WriteByte { reg: BNO055_PWR_MODE, value: mode.value() })
    }

    /// Selects the register page.
    pub fn set_page(&self, page: BNO055RegisterPage) -> (ops: Vec<BusOp>)
        ensures
            transfers(ops@) == seq![Transfer::WriteByte(BNO055_PAGE_ID, page.code())],
    {
        single(BusOp::WriteByte { reg: BNO055_PAGE_ID, value: page.value() })
    }

    /// Reads the quaternion block; decode it with `decode_quaternion`.
    pub fn get_quaternion(&self) -> (ops: Vec<BusOp>)
        ensures
            transfers(ops@) == seq![Transfer::ReadBlock(BNO055_QUA_DATA_W_LSB, 8)],
    {
        single(BusOp::ReadBlock { reg: BNO055_QUA_DATA_W_LSB, len: 8 })
    }

    /// Reads the revision block; decode it with `decode_revision`.
    pub fn get_revision(&self) -> (ops: Vec<BusOp>)
        ensures
            transfers(ops@) == seq![Transfer::ReadBlock(BNO055_ACC_ID, 6)],
    {
        single(BusOp::ReadBlock { reg: BNO055_ACC_ID, len: 6 })
    }

    /// First half of the self-test: switch to config mode and read the trigger
    /// register, whose value `trigger_self_test` takes.
    pub fn start_self_test(&self) -> (ops: Vec<BusOp>)
        ensures
            transfers(ops@) == self_test_start(self.mode),
    {
        let mut ops: Vec<BusOp> = Vec::new();
        push_mode_switch(&mut ops, self.mode, BNO055OperationMode::ConfigMode);
        let ghost before = transfers(ops@);
        ops.push(BusOp::ReadByte { reg: BNO055_SYS_TRIGGER });
        assert(transfers(ops@) =~= before + seq![Transfer::ReadByte(BNO055_SYS_TRIGGER)]);
        ops
    }

    /// Second half of the self-test, given the trigger register's value: set its
    /// self-test bit, wait for the test to run, read the result register (the
    /// self-test byte of the system status), and return to the mode `prev` that
    /// was selected before the self-test began.
    pub fn trigger_self_test(&self, sys_trigger: u8, prev: BNO055OperationMode) -> (ops: Vec<
        BusOp,
    >)
        ensures
            transfers(ops@) == self_test_finish(self.mode, sys_trigger, prev),
    {
        let mut ops: Vec<BusOp> = Vec::new();
        ops.push(
            BusOp::WriteByte {
                reg: BNO055_SYS_TRIGGER,
                value: sys_trigger | SYS_TRIGGER_SELF_TEST,
            },
        );
        ops.push(BusOp::Sleep { ms: SELF_TEST_DELAY_MS });
        ops.push(BusOp::ReadByte { reg: BNO055_ST_RESULT });
        let ghost before = transfers(ops@);
        push_mode_switch(&mut ops, self.mode, prev);
        assert(before =~= seq![
            Transfer::WriteByte(BNO055_SYS_TRIGGER, sys_trigger | SYS_TRIGGER_SELF_TEST),
            Transfer::Sleep(SELF_TEST_DELAY_MS as nat),
            Transfer::ReadByte(BNO055_ST_RESULT),
        ]);
        ops
    }

    /// Reads the system-status and system-error registers; decode them with
    /// `decode_system_status`.
    pub fn get_system_status(&self) -> (ops: Vec<BusOp>)
        ensures
            transfers(ops@) == seq![
                Transfer::ReadByte(BNO055_SYS_STATUS),
                Transfer::ReadByte(BNO055_SYS_ERR),
            ],
    {
        let ops = vec![
            BusOp::ReadByte { reg: BNO055_SYS_STATUS },
            BusOp::ReadByte { reg: BNO055_SYS_ERR },
        ];
        assert(transfers(ops@) =~= seq![
            Transfer::ReadByte(BNO055_SYS_STATUS),
            Transfer::ReadByte(BNO055_SYS_ERR),
        ]);
        ops
    }

    /// Reads the calibration-status register; decode it with
    /// `decode_calibration_status`.
    pub fn get_calibration_status(&self) -> (ops: Vec<BusOp>)
        ensures
            transfers(ops@) == seq![Transfer::ReadByte(BNO055_CALIB_STAT)],
    {
        single(BusOp::ReadByte { reg: BNO055_CALIB_STAT })
    }

    /// Reads the calibration block in config mode. The bytes read are the
    /// calibration data, verbatim, for a later `set_calibration`.
    pub fn get_calibration(&self) -> (ops: Vec<BusOp>)
        ensures
            transfers(ops@) == in_config_mode(
                self.mode,
                Transfer::ReadBlock(BNO055_ACC_OFFSET_X_LSB, CALIBRATION_LEN as nat),
            ),
    {
        config_mode_access(
            self.mode,
            BusOp::ReadBlock { reg: BNO055_ACC_OFFSET_X_LSB, len: CALIBRATION_LEN as u8 },
        )
    }

    /// Writes a calibration block, verbatim, in config mode. A block of any
    /// length but `CALIBRATION_LEN` is refused.
    pub fn set_calibration(&self, buf: Vec<u8>) -> (r: Result<Vec<BusOp>, BNO055Error>)
        ensures
            r is Ok <==> buf@.len() == CALIBRATION_LEN,
            r matches Err(e) ==> e == BNO055Error::CalibrationLength(buf@.len() as usize),
            r matches Ok(ops) ==> transfers(ops@) == in_config_mode(
                self.mode,
                Transfer::WriteBlock(BNO055_ACC_OFFSET_X_LSB, buf@),
            ),
    {
        if buf.len() != CALIBRATION_LEN {
            return Err(BNO055Error::CalibrationLength(buf.len()));
        }
        Ok(config_mode_access(self.mode, BusOp::WriteBlock { reg: BNO055_ACC_OFFSET_X_LSB, data: buf }))
    }

    /// Reads the Euler-angle block (heading, roll, pitch); decode it with
    /// `decode_vector`, `EULER_SCALE` counts per radian.
    pub fn get_euler(&self) -> (ops: Vec<BusOp>)
        ensures
            transfers(ops@) == seq![Transfer::ReadBlock(BNO055_EUL_HEADING_LSB, 6)],
    {
        single(BusOp::ReadBlock { reg: BNO055_EUL_HEADING_LSB, len: 6 })
    }

    /// Reads the linear-acceleration block; decode it with `decode_vector`,
    /// `ACCELERATION_SCALE` counts per m/s^2.
    pub fn get_linear_acceleration(&self) -> (ops: Vec<BusOp>)
        ensures
            transfers(ops@) == seq![Transfer::ReadBlock(BNO055_LIA_DATA_X_LSB, 6)],
    {
        single(BusOp::ReadBlock { reg: BNO055_LIA_DATA_X_LSB, len: 6 })
    }

    /// Reads the magnetometer block; decode it with `decode_vector`,
    /// `MAGNETIC_SCALE` counts per microtesla.
    pub fn magnetic_reading(&self) -> (ops: Vec<BusOp>)
        ensures
            transfers(ops@) == seq![Transfer::ReadBlock(BNO055_MAG_DATA_X_LSB, 6)],
    {
        single(BusOp::ReadBlock { reg: BNO055_MAG_DATA_X_LSB, len: 6 })
    }

    /// Reads the gyroscope block; decode it with `decode_vector`,
    /// `ANGULAR_RATE_SCALE` counts per rad/s.
    pub fn angular_rate_reading(&self) -> (ops: Vec<BusOp>)
        ensures
            transfers(ops@) == seq![Transfer::ReadBlock(BNO055_GYR_DATA_X_LSB, 6)],
    {
        single(BusOp::ReadBlock { reg: BNO055_GYR_DATA_X_LSB, len: 6 })
    }

    /// Reads the accelerometer block; decode it with `decode_vector`,
    /// `ACCELERATION_SCALE` counts per m/s^2.
    pub fn acceleration_reading(&self) -> (ops: Vec<BusOp>)
        ensures
            transfers(ops@) == seq![Transfer::ReadBlock(BNO055_ACC_DATA_X_LSB, 6)],
    {
        single(BusOp::ReadBlock { reg: BNO055_ACC_DATA_X_LSB, len: 6 })
    }

    /// Reads the temperature register: the byte read is degrees Celsius.
    pub fn temperature_celsius(&self) -> (ops: Vec<BusOp>)
        ensures
            transfers(ops@) == seq![Transfer::ReadByte(BNO055_TEMP)],
    {
        single(BusOp::ReadByte { reg: BNO055_TEMP })
    }
}

} // verus!
