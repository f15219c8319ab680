//! Laws of the driver's protocol, stated over the transfers that its operations
//! yield and over their effect on the mode cache and on the chip's registers.
use crate::bus::{
    bytes_read_all, image_after, image_after_all, lemma_image_after_append, lemma_mode_after_append,
    mode_after_all, Transfer,
};
use crate::driver::{in_config_mode, init_sequence, mode_switch, self_test_finish, self_test_start};
use crate::registers::{
    BNO055_ACC_OFFSET_X_LSB, BNO055_OPR_MODE, BNO055_ST_RESULT, BNO055_SYS_TRIGGER,
    CALIBRATION_LEN, MODE_SWITCH_DELAY_MS, SELF_TEST_DELAY_MS, SYS_TRIGGER_SELF_TEST,
};
use crate::types::BNO055OperationMode;
use vstd::prelude::*;

verus! {

/// Mode switching: a switch to the cached mode has no transfers at all; a switch
/// to any other mode is one write of the mode register followed by the settling
/// delay; and once the transfers of a switch completed, the cache holds the new mode.
pub proof fn lemma_mode_switch(from: BNO055OperationMode, to: BNO055OperationMode)
    ensures
        from == to ==> mode_switch(from, to).len() == 0,
        from != to ==> mode_switch(from, to) == seq![
            Transfer::WriteByte(BNO055_OPR_MODE, to.code()),
            Transfer::Sleep(MODE_SWITCH_DELAY_MS as nat),
        ],
        mode_after_all(from, mode_switch(from, to)) == to,
{
    reveal_with_fuel(mode_after_all, 3);
    lemma_code_selects(to);
}

/// Writing a mode's value to the mode register selects that mode.
proof fn lemma_code_selects(m: BNO055OperationMode)
    ensures
        BNO055OperationMode::of_code(m.code()) == Some(m),
{
    match m {
        BNO055OperationMode::ConfigMode => {},
        BNO055OperationMode::AccOnly => {},
        BNO055OperationMode::MagOnly => {},
        BNO055OperationMode::GyroOnly => {},
        BNO055OperationMode::AccMag => {},
        BNO055OperationMode::AccGyro => {},
        BNO055OperationMode::MagGyro => {},
        BNO055OperationMode::AMG => {},
        BNO055OperationMode::IMU => {},
        BNO055OperationMode::Compass => {},
        BNO055OperationMode::M4G => {},
        BNO055OperationMode::NdofFmcOff => {},
        BNO055OperationMode::Ndof => {},
    }
}

/// A config-mode access made from `mode` leaves the cache on `mode` once its
/// transfers completed, whatever the access in the middle, as long as it is not
/// itself a write of the mode register.
pub proof fn lemma_config_mode_access_restores(mode: BNO055OperationMode, t: Transfer)
    requires
        !(t matches Transfer::WriteByte(reg, _) && reg == BNO055_OPR_MODE),
    ensures
        mode_after_all(mode, in_config_mode(mode, t)) == mode,
{
    let cfg = BNO055OperationMode::ConfigMode;
    let a = mode_switch(mode, cfg);
    let b = mode_switch(cfg, mode);
    lemma_mode_switch(mode, cfg);
    lemma_mode_switch(cfg, mode);
    lemma_mode_after_append(mode, a + seq![t], b);
    lemma_mode_after_append(mode, a, seq![t]);
    reveal_with_fuel(mode_after_all, 2);
}

/// Opening the chip leaves the cache in config mode, the mode the chip was put in.
pub proof fn lemma_init_selects_config_mode(mode: BNO055OperationMode)
    ensures
        mode_after_all(mode, init_sequence()) == BNO055OperationMode::ConfigMode,
{
    reveal_with_fuel(mode_after_all, 7);
    lemma_code_selects(BNO055OperationMode::ConfigMode);
}

/// Self-test: from any cached mode `prev`, and whatever the trigger register
/// held, the two halves of the self-test switch to config mode, read the trigger
/// register once, write it back once with the self-test bit set and every other
/// bit as it was, wait the self-test time, read the result register once, and
/// switch back; afterwards the cache holds `prev` again.
pub proof fn lemma_self_test_sequence(prev: BNO055OperationMode, sys_trigger: u8)
    ensures
        ({
            let first = self_test_start(prev);
            let second = self_test_finish(mode_after_all(prev, first), sys_trigger, prev);
            &&& first + second == mode_switch(prev, BNO055OperationMode::ConfigMode) + seq![
                Transfer::ReadByte(BNO055_SYS_TRIGGER),
                Transfer::WriteByte(BNO055_SYS_TRIGGER, sys_trigger | SYS_TRIGGER_SELF_TEST),
                Transfer::Sleep(SELF_TEST_DELAY_MS as nat),
                Transfer::ReadByte(BNO055_ST_RESULT),
            ] + mode_switch(BNO055OperationMode::ConfigMode, prev)
            &&& mode_after_all(prev, first + second) == prev
        }),
        (sys_trigger | SYS_TRIGGER_SELF_TEST) % 2 == 1,
        (sys_trigger | SYS_TRIGGER_SELF_TEST) / 2 == sys_trigger / 2,
{
    let cfg = BNO055OperationMode::ConfigMode;
    let a = mode_switch(prev, cfg);
    let first = self_test_start(prev);
    lemma_mode_switch(prev, cfg);
    lemma_mode_switch(cfg, prev);
    lemma_mode_after_append(prev, a, seq![Transfer::ReadByte(BNO055_SYS_TRIGGER)]);
    reveal_with_fuel(mode_after_all, 4);
    assert(mode_after_all(prev, first) == cfg);
    let mid = seq![
        Transfer::WriteByte(BNO055_SYS_TRIGGER, sys_trigger | SYS_TRIGGER_SELF_TEST),
        Transfer::Sleep(SELF_TEST_DELAY_MS as nat),
        Transfer::ReadByte(BNO055_ST_RESULT),
    ];
    let second = self_test_finish(cfg, sys_trigger, prev);
    assert(first + second =~= a + (seq![Transfer::ReadByte(BNO055_SYS_TRIGGER)] + mid)
        + mode_switch(cfg, prev));
    lemma_mode_after_append(prev, first, second);
    lemma_mode_after_append(cfg, mid, mode_switch(cfg, prev));
    assert((sys_trigger | 1u8) % 2 == 1) by (bit_vector);
    assert((sys_trigger | 1u8) / 2 == sys_trigger / 2) by (bit_vector);
}

/// The transfers of a mode switch read nothing, and leave every register of the
/// image but the mode register as it was.
proof fn lemma_switch_image(regs: Seq<u8>, from: BNO055OperationMode, to: BNO055OperationMode)
    requires
        regs.len() == 256,
    ensures
        bytes_read_all(regs, mode_switch(from, to)) == Seq::<u8>::empty(),
        image_after_all(regs, mode_switch(from, to)).len() == 256,
        forall|i: int|
            0 <= i < 256 && i != BNO055_OPR_MODE ==> #[trigger] image_after_all(
                regs,
                mode_switch(from, to),
            )[i] == regs[i],
{
    reveal_with_fuel(image_after_all, 3);
    reveal_with_fuel(bytes_read_all, 3);
    if from != to {
        assert(bytes_read_all(regs, mode_switch(from, to)) =~= Seq::<u8>::empty());
    }
}

/// Calibration round trip: on any register image and from any cached mode, once
/// the transfers of `set_calibration` with a block of the calibration length
/// completed, the cache holds the same mode, and the transfers of
/// `get_calibration` from there read back exactly that block.
pub proof fn lemma_calibration_round_trip(regs: Seq<u8>, mode: BNO055OperationMode, buf: Seq<u8>)
    requires
        regs.len() == 256,
        buf.len() == CALIBRATION_LEN,
    ensures
        ({
            let set = in_config_mode(mode, Transfer::WriteBlock(BNO055_ACC_OFFSET_X_LSB, buf));
            let after = mode_after_all(mode, set);
            let get = in_config_mode(
                after,
                Transfer::ReadBlock(BNO055_ACC_OFFSET_X_LSB, CALIBRATION_LEN as nat),
            );
            &&& after == mode
            &&& bytes_read_all(image_after_all(regs, set), get) == buf
        }),
{
    reveal_with_fuel(image_after_all, 2);
    reveal_with_fuel(bytes_read_all, 2);
    let cfg = BNO055OperationMode::ConfigMode;
    let start = BNO055_ACC_OFFSET_X_LSB as int;
    let w = Transfer::WriteBlock(BNO055_ACC_OFFSET_X_LSB, buf);
    let r = Transfer::ReadBlock(BNO055_ACC_OFFSET_X_LSB, CALIBRATION_LEN as nat);
    let a = mode_switch(mode, cfg);
    let b = mode_switch(cfg, mode);
    lemma_config_mode_access_restores(mode, w);
    // Writing: the switches touch the mode register only, the block lands in place.
    lemma_image_after_append(regs, a + seq![w], b);
    lemma_image_after_append(regs, a, seq![w]);
    lemma_switch_image(regs, mode, cfg);
    let r1 = image_after_all(regs, a);
    let r2 = image_after_all(r1, seq![w]);
    assert(r2 == image_after(r1, w));
    lemma_switch_image(r2, cfg, mode);
    let r3 = image_after_all(r2, b);
    // Reading: the switches read nothing, the block read returns what was written.
    lemma_image_after_append(r3, a + seq![r], b);
    lemma_image_after_append(r3, a, seq![r]);
    lemma_switch_image(r3, mode, cfg);
    let r4 = image_after_all(r3, a);
    assert(bytes_read_all(r4, seq![r]) =~= r4.subrange(start, start + CALIBRATION_LEN));
    assert(r4.subrange(start, start + CALIBRATION_LEN) =~= buf);
    lemma_switch_image(r4, cfg, mode);
    assert(bytes_read_all(r3, in_config_mode(mode, r)) =~= buf);
}

} // verus!
