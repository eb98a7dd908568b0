use vstd::prelude::*;

use crate::flags::StatusFlag;

verus! {

/// A register that a micro-operation reads or writes.
#[derive(Clone, Copy, Debug, PartialEq, Eq, Structural)]
pub enum Register {
    A,
    X,
    Y,
    StackPointer,
}

/// One clock cycle of work. An instruction is its opcode fetch followed by a
/// sequence of these; `low` and `high` are the instruction's scratch bytes.
#[derive(Clone, Copy, Debug, PartialEq, Eq, Structural)]
pub enum MicroOp {
    /// Sets the halted flag.
    Halt,
    /// Does nothing; pads an instruction to its cycle count.
    Idle,
    /// Sets or clears one status flag.
    SetFlag(StatusFlag, bool),
    /// Copies one register into another; sets zero/negative unless the
    /// destination is the stack pointer.
    Transfer { from: Register, to: Register },
    /// Adds one, wrapping, and sets zero/negative from the new value.
    Increment(Register),
    /// Subtracts one, wrapping, and sets zero/negative from the new value.
    Decrement(Register),
    /// Loads the byte at the program counter and advances past it.
    LoadImmediate { to: Register, update_flags: bool },
    /// Reads the byte at the program counter into `low` and advances.
    FetchLow,
    /// Reads the byte at the program counter into `high` and advances.
    FetchHigh,
    /// Reads the byte at the program counter into `high` without advancing.
    FetchHighInPlace,
    /// Reads the byte at the program counter into `high` and jumps to `high:low`.
    FetchHighAndJump,
    /// Writes a register to the zero-page address `low`.
    StoreZeroPage(Register),
    /// Writes a register to the address `high:low`.
    StoreAbsolute(Register),
    /// Loads the byte at zero-page address `low`, setting zero/negative.
    LoadZeroPage(Register),
    /// Loads the byte at address `high:low`, setting zero/negative.
    LoadAbsolute(Register),
    /// Pushes a register and pads one cycle.
    PushRegister(Register),
    /// Pushes the status byte and pads one cycle.
    PushStatus,
    /// Pulls into a register, sets zero/negative, and pads two cycles.
    PullRegister(Register),
    /// Pulls the status byte into the flags and pads two cycles.
    PullStatus,
    /// Pushes the high byte of the program counter.
    PushPcHigh,
    /// Pushes the low byte of the program counter.
    PushPcLow,
    /// Jumps to `high:low`.
    JumpToScratch,
    /// Pulls a byte into `low`.
    PullLow,
    /// Pulls a byte into `high`.
    PullHigh,
    /// Jumps to the address after `high:low`.
    ReturnToScratch,
    /// Branches by the signed offset in `low` when the flag has the given value.
    Branch(StatusFlag, bool),
    /// Halts on an opcode that has no entry in the table, recording it.
    Unimplemented,
}

/// The micro-operations that an opcode schedules after its fetch cycle.
pub open spec fn decode(opcode: u8) -> Seq<MicroOp> {
    match opcode {
        0x02 => seq![MicroOp::Halt],
        0x08 => seq![MicroOp::PushStatus],
        0x28 => seq![MicroOp::PullStatus],
        0x20 => seq![
            MicroOp::FetchLow,
            MicroOp::FetchHighInPlace,
            MicroOp::PushPcHigh,
            MicroOp::PushPcLow,
            MicroOp::JumpToScratch,
        ],
        0x60 => seq![
            MicroOp::Idle,
            MicroOp::Idle,
            MicroOp::PullLow,
            MicroOp::PullHigh,
            MicroOp::ReturnToScratch,
        ],
        0x4C => seq![MicroOp::FetchLow, MicroOp::FetchHighAndJump],
        0x10 => seq![MicroOp::FetchLow, MicroOp::Branch(StatusFlag::Negative, false)],
        0x30 => seq![MicroOp::FetchLow, MicroOp::Branch(StatusFlag::Negative, true)],
        0x50 => seq![MicroOp::FetchLow, MicroOp::Branch(StatusFlag::Overflow, false)],
        0x70 => seq![MicroOp::FetchLow, MicroOp::Branch(StatusFlag::Overflow, true)],
        0x90 => seq![MicroOp::FetchLow, MicroOp::Branch(StatusFlag::Carry, false)],
        0xB0 => seq![MicroOp::FetchLow, MicroOp::Branch(StatusFlag::Carry, true)],
        0xD0 => seq![MicroOp::FetchLow, MicroOp::Branch(StatusFlag::Zero, false)],
        0xF0 => seq![MicroOp::FetchLow, MicroOp::Branch(StatusFlag::Zero, true)],
        0x84 => seq![MicroOp::FetchLow, MicroOp::StoreZeroPage(Register::Y)],
        0x85 => seq![MicroOp::FetchLow, MicroOp::StoreZeroPage(Register::A)],
        0x86 => seq![MicroOp::FetchLow, MicroOp::StoreZeroPage(Register::X)],
        0x8C => seq![MicroOp::FetchLow, MicroOp::FetchHigh, MicroOp::StoreAbsolute(Register::Y)],
        0x8D => seq![MicroOp::FetchLow, MicroOp::FetchHigh, MicroOp::StoreAbsolute(Register::A)],
        0x8E => seq![MicroOp::FetchLow, MicroOp::FetchHigh, MicroOp::StoreAbsolute(Register::X)],
        0xA5 => seq![MicroOp::FetchLow, MicroOp::LoadZeroPage(Register::A)],
        0xAD => seq![MicroOp::FetchLow, MicroOp::FetchHigh, MicroOp::LoadAbsolute(Register::A)],
        0x18 => seq![MicroOp::SetFlag(StatusFlag::Carry, false)],
        0x38 => seq![MicroOp::SetFlag(StatusFlag::Carry, true)],
        0x58 => seq![MicroOp::SetFlag(StatusFlag::InterruptDisable, false)],
        0x78 => seq![MicroOp::SetFlag(StatusFlag::InterruptDisable, true)],
        0xB8 => seq![MicroOp::SetFlag(StatusFlag::Overflow, false)],
        0xD8 => seq![MicroOp::SetFlag(StatusFlag::Decimal, false)],
        0xF8 => seq![MicroOp::SetFlag(StatusFlag::Decimal, true)],
        0xEA => seq![MicroOp::Idle],
        0x48 => seq![MicroOp::PushRegister(Register::A)],
        0x68 => seq![MicroOp::PullRegister(Register::A)],
        0x9A => seq![MicroOp::Transfer { from: Register::X, to: Register::StackPointer }],
        0x8A => seq![MicroOp::Transfer { from: Register::X, to: Register::A }],
        0x98 => seq![MicroOp::Transfer { from: Register::Y, to: Register::A }],
        0xA8 => seq![MicroOp::Transfer { from: Register::A, to: Register::Y }],
        0xAA => seq![MicroOp::Transfer { from: Register::A, to: Register::X }],
        0xBA => seq![MicroOp::Transfer { from: Register::StackPointer, to: Register::X }],
        0xA9 => seq![MicroOp::LoadImmediate { to: Register::A, update_flags: true }],
        0xA0 => seq![MicroOp::LoadImmediate { to: Register::Y, update_flags: false }],
        0xA2 => seq![MicroOp::LoadImmediate { to: Register::X, update_flags: false }],
        0x88 => seq![MicroOp::Decrement(Register::Y)],
        0xC8 => seq![MicroOp::Increment(Register::Y)],
        0xCA => seq![MicroOp::Decrement(Register::X)],
        0xE8 => seq![MicroOp::Increment(Register::X)],
        _ => seq![MicroOp::Unimplemented],
    }
}

/// Whether the opcode table has an entry for `opcode`.
pub open spec fn is_implemented(opcode: u8) -> bool {
    decode(opcode) != seq![MicroOp::Unimplemented]
}

} // verus!
