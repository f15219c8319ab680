use bno055::registers::{
    ACCELERATION_SCALE, BNO055_ACC_OFFSET_X_LSB, BNO055_CALIB_STAT, BNO055_CHIP_ID,
    BNO055_EUL_HEADING_LSB, BNO055_ID, BNO055_OPR_MODE, BNO055_PAGE_ID, BNO055_PWR_MODE,
    BNO055_QUA_DATA_W_LSB, BNO055_ST_RESULT, BNO055_SYS_ERR, BNO055_SYS_STATUS,
    BNO055_SYS_TRIGGER, BNO055_TEMP, EULER_SCALE, MODE_SWITCH_DELAY_MS, QUATERNION_SCALE,
    SELF_TEST_DELAY_MS,
};
use bno055::{
    decode_calibration_status, decode_quaternion, decode_revision, decode_system_status,
    decode_vector, BNO055CalibrationStatus, BNO055Error, BNO055OperationMode, BNO055PowerMode,
    BNO055RawQuaternion, BNO055RawVector, BNO055RegisterPage, BNO055SystemErrorCode,
    BNO055SystemStatusCode, BusOp, BNO055,
};

const ALL_MODES: [BNO055OperationMode; 13] = [
    BNO055OperationMode::ConfigMode,
    BNO055OperationMode::AccOnly,
    BNO055OperationMode::MagOnly,
    BNO055OperationMode::GyroOnly,
    BNO055OperationMode::AccMag,
    BNO055OperationMode::AccGyro,
    BNO055OperationMode::MagGyro,
    BNO055OperationMode::AMG,
    BNO055OperationMode::IMU,
    BNO055OperationMode::Compass,
    BNO055OperationMode::M4G,
    BNO055OperationMode::NdofFmcOff,
    BNO055OperationMode::Ndof,
];

/// Runs `ops` against a register image, recording each completed transfer with
/// the driver, and returns the bytes read in order.
fn run(regs: &mut [u8; 256], bno: &mut BNO055, ops: Vec<BusOp>) -> Vec<u8> {
    let mut read = Vec::new();
    for op in ops {
        match &op {
            BusOp::ReadByte { reg } => read.push(regs[*reg as usize]),
            BusOp::ReadBlock { reg, len } => {
                let start = *reg as usize;
                read.extend_from_slice(&regs[start..start + *len as usize]);
            }
            BusOp::WriteByte { reg, value } => regs[*reg as usize] = *value,
            BusOp::WriteBlock { reg, data } => {
                let start = *reg as usize;
                regs[start..start + data.len()].copy_from_slice(data);
            }
            BusOp::Sleep { .. } => {}
        }
        bno.complete(&op);
    }
    read
}

#[test]
fn it_works() {}

#[test]
fn switching_to_cached_mode_sends_nothing() {
    for mode in ALL_MODES {
        let bno = BNO055 { mode };
        assert!(bno.set_mode(mode).is_empty());
    }
}

#[test]
fn switching_to_another_mode_writes_once_then_waits() {
    for from in ALL_MODES {
        for (i, to) in ALL_MODES.iter().enumerate() {
            if from == *to {
                continue;
            }
            let mut bno = BNO055 { mode: from };
            let ops = bno.set_mode(*to);
            assert_eq!(
                ops,
                vec![
                    BusOp::WriteByte { reg: BNO055_OPR_MODE, value: i as u8 },
                    BusOp::Sleep { ms: MODE_SWITCH_DELAY_MS },
                ]
            );
            assert!(MODE_SWITCH_DELAY_MS >= 19);
            let mut regs = [0u8; 256];
            run(&mut regs, &mut bno, ops);
            assert_eq!(bno.mode, *to);
        }
    }
}

#[test]
fn quaternion_decode_unit_w() {
    let q = decode_quaternion([0x00, 0x40, 0x00, 0x00, 0x00, 0x00, 0x00, 0x00]);
    assert_eq!(q, BNO055RawQuaternion { w: 16384, x: 0, y: 0, z: 0 });
    let scale = QUATERNION_SCALE as f32;
    assert_eq!(q.w as f32 / scale, 1.0);
    assert_eq!(q.x as f32 / scale, 0.0);
    assert_eq!(q.y as f32 / scale, 0.0);
    assert_eq!(q.z as f32 / scale, 0.0);
}

#[test]
fn euler_decode_radians() {
    let mut buf = [0u8; 6];
    buf[0..2].copy_from_slice(&900i16.to_le_bytes());
    buf[2..4].copy_from_slice(&450i16.to_le_bytes());
    buf[4..6].copy_from_slice(&(-900i16).to_le_bytes());
    let v = decode_vector(buf);
    assert_eq!(v, BNO055RawVector { x: 900, y: 450, z: -900 });
    let scale = EULER_SCALE as f32;
    assert_eq!(v.x as f32 / scale, 1.0);
    assert_eq!(v.y as f32 / scale, 0.5);
    assert_eq!(v.z as f32 / scale, -1.0);
}

#[test]
fn vector_decode_is_little_endian_signed() {
    let v = decode_vector([0xFF, 0xFF, 0x00, 0x80, 0x34, 0x12]);
    assert_eq!(v, BNO055RawVector { x: -1, y: -32768, z: 0x1234 });
    assert_eq!(v.x as f32 / ACCELERATION_SCALE as f32, -0.01);
}

#[test]
fn revision_decode_fields() {
    let r = decode_revision([0xFB, 0x32, 0x0F, 0x11, 0x03, 0x15]);
    assert_eq!(r.accelerometer, 0xFB);
    assert_eq!(r.magnetometer, 0x32);
    assert_eq!(r.gyroscope, 0x0F);
    assert_eq!(r.software, 0x0311);
    assert_eq!(r.bootloader, 0x15);
}

#[test]
fn calibration_round_trip_on_register_image() {
    let data: Vec<u8> = (1..=22).map(|b| b * 3).collect();
    let mut regs = [0xEEu8; 256];
    let mut bno = BNO055 { mode: BNO055OperationMode::Ndof };
    let ops = bno.set_calibration(data.clone()).unwrap();
    assert_eq!(
        ops,
        vec![
            BusOp::WriteByte { reg: BNO055_OPR_MODE, value: 0 },
            BusOp::Sleep { ms: MODE_SWITCH_DELAY_MS },
            BusOp::WriteBlock { reg: BNO055_ACC_OFFSET_X_LSB, data: data.clone() },
            BusOp::WriteByte { reg: BNO055_OPR_MODE, value: 0b1100 },
            BusOp::Sleep { ms: MODE_SWITCH_DELAY_MS },
        ]
    );
    assert!(run(&mut regs, &mut bno, ops).is_empty());
    assert_eq!(bno.mode, BNO055OperationMode::Ndof);
    let ops = bno.get_calibration();
    let back = run(&mut regs, &mut bno, ops);
    assert_eq!(back, data);
    assert_eq!(bno.mode, BNO055OperationMode::Ndof);
}

#[test]
fn calibration_of_wrong_length_is_refused() {
    let bno = BNO055 { mode: BNO055OperationMode::ConfigMode };
    assert_eq!(bno.set_calibration(vec![0; 21]), Err(BNO055Error::CalibrationLength(21)));
    assert_eq!(bno.set_calibration(vec![0; 23]), Err(BNO055Error::CalibrationLength(23)));
    assert_eq!(bno.set_calibration(Vec::new()), Err(BNO055Error::CalibrationLength(0)));
}

#[test]
fn calibration_in_config_mode_needs_no_switch() {
    let bno = BNO055 { mode: BNO055OperationMode::ConfigMode };
    assert_eq!(
        bno.get_calibration(),
        vec![BusOp::ReadBlock { reg: BNO055_ACC_OFFSET_X_LSB, len: 22 }]
    );
}

#[test]
fn self_test_sequence_restores_mode() {
    let mut regs = [0u8; 256];
    regs[BNO055_SYS_TRIGGER as usize] = 0x80;
    regs[BNO055_ST_RESULT as usize] = 0x0F;
    let mut bno = BNO055 { mode: BNO055OperationMode::IMU };
    let prev = bno.mode;
    let first = bno.start_self_test();
    let mut all = first.clone();
    let read = run(&mut regs, &mut bno, first);
    assert_eq!(read, vec![0x80]);
    assert_eq!(bno.mode, BNO055OperationMode::ConfigMode);
    let second = bno.trigger_self_test(read[0], prev);
    all.extend(second.iter().cloned());
    let result = run(&mut regs, &mut bno, second);
    assert_eq!(result, vec![0x0F]);
    assert_eq!(bno.mode, BNO055OperationMode::IMU);
    assert_eq!(
        all,
        vec![
            BusOp::WriteByte { reg: BNO055_OPR_MODE, value: 0 },
            BusOp::Sleep { ms: MODE_SWITCH_DELAY_MS },
            BusOp::ReadByte { reg: BNO055_SYS_TRIGGER },
            BusOp::WriteByte { reg: BNO055_SYS_TRIGGER, value: 0x81 },
            BusOp::Sleep { ms: SELF_TEST_DELAY_MS },
            BusOp::ReadByte { reg: BNO055_ST_RESULT },
            BusOp::WriteByte { reg: BNO055_OPR_MODE, value: 0b1000 },
            BusOp::Sleep { ms: MODE_SWITCH_DELAY_MS },
        ]
    );
    assert!(SELF_TEST_DELAY_MS >= 1000);
    assert_eq!(regs[BNO055_SYS_TRIGGER as usize], 0x81);
}

#[test]
fn open_with_wrong_chip_id_fails() {
    assert_eq!(BNO055::probe(), vec![BusOp::ReadByte { reg: BNO055_CHIP_ID }]);
    for id in [0x00u8, 0x9F, 0xA1, 0xFF] {
        assert_eq!(BNO055::new(id), Err(BNO055Error::WrongChipId(id)));
    }
}

#[test]
fn open_with_right_chip_id_initializes() {
    let (bno, ops) = BNO055::new(BNO055_ID).unwrap();
    assert_eq!(bno.mode, BNO055OperationMode::ConfigMode);
    assert_eq!(
        ops,
        vec![
            BusOp::WriteByte { reg: BNO055_OPR_MODE, value: 0 },
            BusOp::Sleep { ms: MODE_SWITCH_DELAY_MS },
            BusOp::WriteByte { reg: BNO055_PAGE_ID, value: 0 },
            BusOp::WriteByte { reg: BNO055_SYS_TRIGGER, value: 0x20 },
            BusOp::WriteByte { reg: BNO055_PWR_MODE, value: 0 },
            BusOp::WriteByte { reg: BNO055_SYS_TRIGGER, value: 0 },
        ]
    );
}

#[test]
fn calibration_status_all_or_nothing() {
    let all = BNO055CalibrationStatus { sys: true, gyr: true, acc: true, mag: true };
    let none = BNO055CalibrationStatus { sys: false, gyr: false, acc: false, mag: false };
    assert_eq!(decode_calibration_status(0b1111_1111), all);
    assert_eq!(decode_calibration_status(0b0000_0000), none);
}

#[test]
fn calibration_status_fields_are_separate() {
    assert_eq!(
        decode_calibration_status(0b1100_1100),
        BNO055CalibrationStatus { sys: true, gyr: false, acc: true, mag: false }
    );
    assert_eq!(
        decode_calibration_status(0b0011_0011),
        BNO055CalibrationStatus { sys: false, gyr: true, acc: false, mag: true }
    );
    assert_eq!(
        decode_calibration_status(0b1001_0110),
        BNO055CalibrationStatus { sys: false, gyr: false, acc: false, mag: false }
    );
    let ops = BNO055 { mode: BNO055OperationMode::Ndof }.get_calibration_status();
    assert_eq!(ops, vec![BusOp::ReadByte { reg: BNO055_CALIB_STAT }]);
}

#[test]
fn system_status_decode() {
    let s = decode_system_status(5, 0, Some(0x0F)).unwrap();
    assert_eq!(s.status, BNO055SystemStatusCode::Running);
    assert_eq!(s.error, BNO055SystemErrorCode::NoError);
    assert_eq!(s.selftest, Some(0x0F));
    let s = decode_system_status(6, 10, None).unwrap();
    assert_eq!(s.status, BNO055SystemStatusCode::RunningWithoutFusion);
    assert_eq!(s.error, BNO055SystemErrorCode::SensorConfig);
    assert_eq!(s.selftest, None);
    let ops = BNO055 { mode: BNO055OperationMode::Ndof }.get_system_status();
    assert_eq!(
        ops,
        vec![BusOp::ReadByte { reg: BNO055_SYS_STATUS }, BusOp::ReadByte { reg: BNO055_SYS_ERR }]
    );
}

#[test]
fn system_status_out_of_range_is_an_error() {
    assert_eq!(decode_system_status(7, 0, None), Err(BNO055Error::UnknownSystemStatus(7)));
    assert_eq!(decode_system_status(0xFF, 0xFF, None), Err(BNO055Error::UnknownSystemStatus(0xFF)));
    assert_eq!(decode_system_status(0, 11, None), Err(BNO055Error::UnknownSystemError(11)));
}

#[test]
fn single_register_operations() {
    let bno = BNO055 { mode: BNO055OperationMode::Ndof };
    assert_eq!(bno.reset(), vec![BusOp::WriteByte { reg: BNO055_SYS_TRIGGER, value: 0x20 }]);
    assert_eq!(
        bno.set_power_mode(BNO055PowerMode::Suspend),
        vec![BusOp::WriteByte { reg: BNO055_PWR_MODE, value: 0b10 }]
    );
    assert_eq!(
        bno.set_page(BNO055RegisterPage::Page1),
        vec![BusOp::WriteByte { reg: BNO055_PAGE_ID, value: 1 }]
    );
    assert_eq!(bno.get_quaternion(), vec![BusOp::ReadBlock { reg: BNO055_QUA_DATA_W_LSB, len: 8 }]);
    assert_eq!(bno.get_euler(), vec![BusOp::ReadBlock { reg: BNO055_EUL_HEADING_LSB, len: 6 }]);
    assert_eq!(bno.get_linear_acceleration(), vec![BusOp::ReadBlock { reg: 0x28, len: 6 }]);
    assert_eq!(bno.magnetic_reading(), vec![BusOp::ReadBlock { reg: 0x0E, len: 6 }]);
    assert_eq!(bno.angular_rate_reading(), vec![BusOp::ReadBlock { reg: 0x14, len: 6 }]);
    assert_eq!(bno.acceleration_reading(), vec![BusOp::ReadBlock { reg: 0x08, len: 6 }]);
    assert_eq!(bno.get_revision(), vec![BusOp::ReadBlock { reg: 0x01, len: 6 }]);
    assert_eq!(bno.temperature_celsius(), vec![BusOp::ReadByte { reg: BNO055_TEMP }]);
}

#[test]
fn external_crystal_in_config_mode() {
    let mut regs = [0u8; 256];
    let mut bno = BNO055 { mode: BNO055OperationMode::AMG };
    let ops = bno.set_external_crystal(true);
    assert_eq!(ops[2], BusOp::WriteByte { reg: BNO055_SYS_TRIGGER, value: 0x80 });
    assert_eq!(ops.len(), 5);
    run(&mut regs, &mut bno, ops);
    assert_eq!(bno.mode, BNO055OperationMode::AMG);
    let bno = BNO055 { mode: BNO055OperationMode::ConfigMode };
    assert_eq!(
        bno.set_external_crystal(false),
        vec![BusOp::WriteByte { reg: BNO055_SYS_TRIGGER, value: 0 }]
    );
}

#[test]
fn mode_register_codes() {
    for (i, mode) in ALL_MODES.iter().enumerate() {
        assert_eq!(mode.value(), i as u8);
        assert_eq!(BNO055OperationMode::from_u8(i as u8), Some(*mode));
    }
    assert_eq!(BNO055OperationMode::from_u8(13), None);
}
