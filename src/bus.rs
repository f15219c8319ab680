//! Bus transactions, their mathematical view, and a model of their effect on
//! the driver's mode cache and on the chip's register image.
use crate::registers::BNO055_OPR_MODE;
use crate::types::BNO055OperationMode;
use vstd::prelude::*;

verus! {

/// One transaction on the two-wire bus, or a settling delay between two of them.
#[derive(Debug, Clone, PartialEq, Eq)]
pub enum BusOp {
    /// Read the byte at `reg`.
    ReadByte { reg: u8 },
    /// Read `len` consecutive bytes starting at `reg`.
    ReadBlock { reg: u8, len: u8 },
    /// Write `value` to `reg`.
    WriteByte { reg: u8, value: u8 },
    /// Write `data` to consecutive registers starting at `reg`.
    WriteBlock { reg: u8, data: Vec<u8> },
    /// Wait `ms` milliseconds before the next transaction.
    Sleep { ms: u32 },
}

/// What a [`BusOp`] does, as a mathematical value.
pub enum Transfer {
    ReadByte(u8),
    ReadBlock(u8, nat),
    WriteByte(u8, u8),
    WriteBlock(u8, Seq<u8>),
    Sleep(nat),
}

impl View for BusOp {
    type V = Transfer;

    open spec fn view(&self) -> Transfer {
        match self {
            BusOp::ReadByte { reg } => Transfer::ReadByte(*reg),
            BusOp::ReadBlock { reg, len } => Transfer::ReadBlock(*reg, *len as nat),
            BusOp::WriteByte { reg, value } => Transfer::WriteByte(*reg, *value),
            BusOp::WriteBlock { reg, data } => Transfer::WriteBlock(*reg, data@),
            BusOp::Sleep { ms } => Transfer::Sleep(*ms as nat),
        }
    }
}

/// The transfers of a sequence of bus operations.
pub open spec fn transfers(ops: Seq<BusOp>) -> Seq<Transfer> {
    ops.map_values(|op: BusOp| op@)
}

/// The cached operating mode after a transfer completed: a write of a valid mode
/// value to the mode register selects that mode, anything else leaves it.
pub open spec fn mode_after(mode: BNO055OperationMode, t: Transfer) -> BNO055OperationMode {
    match t {
        Transfer::WriteByte(reg, value) => {
            if reg == BNO055_OPR_MODE && BNO055OperationMode::of_code(value) is Some {
                BNO055OperationMode::of_code(value).unwrap()
            } else {
                mode
            }
        },
        _ => mode,
    }
}

/// The cached operating mode after all of `ts` completed, in order.
pub open spec fn mode_after_all(mode: BNO055OperationMode, ts: Seq<Transfer>) -> BNO055OperationMode
    decreases ts.len(),
{
    if ts.len() == 0 {
        mode
    } else {
        mode_after_all(mode_after(mode, ts[0]), ts.drop_first())
    }
}

/// Register image of the chip (one byte per address) after a transfer.
pub open spec fn image_after(regs: Seq<u8>, t: Transfer) -> Seq<u8> {
    match t {
        Transfer::WriteByte(reg, value) => regs.update(reg as int, value),
        Transfer::WriteBlock(reg, data) => Seq::new(
            regs.len(),
            |i: int|
                if reg <= i < reg + data.len() {
                    data[i - reg]
                } else {
                    regs[i]
                },
        ),
        _ => regs,
    }
}

/// Register image after all of `ts`, in order.
pub open spec fn image_after_all(regs: Seq<u8>, ts: Seq<Transfer>) -> Seq<u8>
    decreases ts.len(),
{
    if ts.len() == 0 {
        regs
    } else {
        image_after_all(image_after(regs, ts[0]), ts.drop_first())
    }
}

/// The bytes that a transfer returns from a register image.
pub open spec fn bytes_read(regs: Seq<u8>, t: Transfer) -> Seq<u8> {
    match t {
        Transfer::ReadByte(reg) => seq![regs[reg as int]],
        Transfer::ReadBlock(reg, len) => regs.subrange(reg as int, reg + len),
        _ => seq![],
    }
}

/// All bytes that `ts` return, in order, with each write applied before later reads.
pub open spec fn bytes_read_all(regs: Seq<u8>, ts: Seq<Transfer>) -> Seq<u8>
    decreases ts.len(),
{
    if ts.len() == 0 {
        seq![]
    } else {
        bytes_read(regs, ts[0]) + bytes_read_all(image_after(regs, ts[0]), ts.drop_first())
    }
}

/// Running `a` and then `b` leaves the mode cache where running `a + b` leaves it.
pub proof fn lemma_mode_after_append(mode: BNO055OperationMode, a: Seq<Transfer>, b: Seq<Transfer>)
    ensures
        mode_after_all(mode, a + b) == mode_after_all(mode_after_all(mode, a), b),
    decreases a.len(),
{
    if a.len() > 0 {
        assert((a + b).drop_first() =~= a.drop_first() + b);
        lemma_mode_after_append(mode_after(mode, a[0]), a.drop_first(), b);
    } else {
        assert(a + b =~= b);
    }
}

/// Running `a` and then `b` on a register image is running `a + b`: the image
/// ends the same, and the bytes read are those of `a` followed by those of `b`.
pub proof fn lemma_image_after_append(regs: Seq<u8>, a: Seq<Transfer>, b: Seq<Transfer>)
    ensures
        image_after_all(regs, a + b) == image_after_all(image_after_all(regs, a), b),
        bytes_read_all(regs, a + b) == bytes_read_all(regs, a) + bytes_read_all(
            image_after_all(regs, a),
            b,
        ),
    decreases a.len(),
{
    if a.len() > 0 {
        assert((a + b).drop_first() =~= a.drop_first() + b);
        lemma_image_after_append(image_after(regs, a[0]), a.drop_first(), b);
        assert(bytes_read_all(regs, a + b) =~= bytes_read_all(regs, a) + bytes_read_all(
            image_after_all(regs, a),
            b,
        ));
    } else {
        assert(a + b =~= b);
        assert(bytes_read_all(regs, a) + bytes_read_all(regs, b) =~= bytes_read_all(regs, b));
    }
}

} // verus!
