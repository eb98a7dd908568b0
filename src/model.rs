use vstd::prelude::*;

use crate::flags::Flags;
use crate::ops::{decode, MicroOp, Register};

verus! {

pub const RAM_SIZE: usize = 0x800;

pub const ROM_SIZE: usize = 0x8000;

/// The address at which the reset vector's low byte is stored.
pub const RESET_VECTOR: u16 = 0xFFFC;

/// Reduces an integer to a 16-bit value, wrapping.
pub open spec fn wrap16(v: int) -> u16 {
    (v % 0x10000) as u16
}

/// The byte after `v`, wrapping from `0xFF` to `0`.
pub open spec fn inc8(v: u8) -> u8 {
    if v == 0xFF {
        0
    } else {
        (v + 1) as u8
    }
}

/// The byte before `v`, wrapping from `0` to `0xFF`.
pub open spec fn dec8(v: u8) -> u8 {
    if v == 0 {
        0xFF
    } else {
        (v - 1) as u8
    }
}

/// The address after `v`, wrapping from `0xFFFF` to `0`.
pub open spec fn inc16(v: u16) -> u16 {
    if v == 0xFFFF {
        0
    } else {
        (v + 1) as u16
    }
}

/// The little-endian address made of two bytes.
pub open spec fn address_of(low: u8, high: u8) -> u16 {
    (high as int * 0x100 + low as int) as u16
}

/// A branch offset byte read as a two's-complement displacement.
pub open spec fn signed_offset(offset: u8) -> int {
    if offset > 127 {
        offset as int - 256
    } else {
        offset as int
    }
}

/// The whole state of the machine, as a mathematical value.
pub struct CpuState {
    pub ram: Seq<u8>,
    pub rom: Seq<u8>,
    pub queue: Seq<MicroOp>,
    pub pc: u16,
    pub sp: u8,
    pub a: u8,
    pub x: u8,
    pub y: u8,
    pub halted: bool,
    pub opcode: u8,
    pub low: u8,
    pub high: u8,
    pub flags: Flags,
    pub unimplemented: Option<u8>,
}

impl CpuState {
    pub open spec fn wf(self) -> bool {
        self.ram.len() == RAM_SIZE && self.rom.len() == ROM_SIZE
    }

    /// RAM is mirrored over the whole range below `0x8000`; ROM fills the rest.
    pub open spec fn read(self, address: u16) -> u8 {
        if address < 0x8000 {
            self.ram[address as int % RAM_SIZE as int]
        } else {
            self.rom[address as int - 0x8000]
        }
    }

    /// A write below `0x8000` lands in RAM; one to ROM is discarded.
    pub open spec fn write(self, address: u16, value: u8) -> CpuState {
        if address < 0x8000 {
            CpuState { ram: self.ram.update(address as int % RAM_SIZE as int, value), ..self }
        } else {
            self
        }
    }

    pub open spec fn register(self, r: Register) -> u8 {
        match r {
            Register::A => self.a,
            Register::X => self.x,
            Register::Y => self.y,
            Register::StackPointer => self.sp,
        }
    }

    pub open spec fn set_register(self, r: Register, value: u8) -> CpuState {
        match r {
            Register::A => CpuState { a: value, ..self },
            Register::X => CpuState { x: value, ..self },
            Register::Y => CpuState { y: value, ..self },
            Register::StackPointer => CpuState { sp: value, ..self },
        }
    }

    pub open spec fn set_result_flags(self, value: u8) -> CpuState {
        CpuState { flags: self.flags.with_result_spec(value), ..self }
    }

    pub open spec fn advance_pc(self) -> CpuState {
        CpuState { pc: inc16(self.pc), ..self }
    }

    pub open spec fn enqueue(self, op: MicroOp) -> CpuState {
        CpuState { queue: self.queue.push(op), ..self }
    }

    pub open spec fn scratch_address(self) -> u16 {
        address_of(self.low, self.high)
    }

    /// Writes at the stack pointer within page one, then moves the pointer down.
    pub open spec fn push(self, value: u8) -> CpuState {
        let s = self.write((0x100 + self.sp) as u16, value);
        CpuState { sp: dec8(self.sp), ..s }
    }

    /// The stack after a pull: the pointer moves up.
    pub open spec fn after_pull(self) -> CpuState {
        CpuState { sp: inc8(self.sp), ..self }
    }

    /// The byte that a pull returns.
    pub open spec fn pulled(self) -> u8 {
        self.read((0x100 + inc8(self.sp)) as u16)
    }

    /// Moves the program counter by a signed offset, padding a backward branch by one cycle.
    pub open spec fn take_branch(self, offset: u8) -> CpuState {
        let moved = CpuState { pc: wrap16(self.pc + signed_offset(offset)), ..self };
        if offset > 127 {
            moved.enqueue(MicroOp::Idle)
        } else {
            moved
        }
    }

    /// The effect of one micro-operation, already taken off the queue.
    pub open spec fn apply(self, op: MicroOp) -> CpuState {
        match op {
            MicroOp::Halt => CpuState { halted: true, ..self },
            MicroOp::Idle => self,
            MicroOp::SetFlag(which, value) => CpuState {
                flags: self.flags.set_spec(which, value),
                ..self
            },
            MicroOp::Transfer { from, to } => {
                let v = self.register(from);
                let s = self.set_register(to, v);
                if to == Register::StackPointer {
                    s
                } else {
                    s.set_result_flags(v)
                }
            },
            MicroOp::Increment(r) => {
                let v = inc8(self.register(r));
                self.set_register(r, v).set_result_flags(v)
            },
            MicroOp::Decrement(r) => {
                let v = dec8(self.register(r));
                self.set_register(r, v).set_result_flags(v)
            },
            MicroOp::LoadImmediate { to, update_flags } => {
                let v = self.read(self.pc);
                let s = self.set_register(to, v).advance_pc();
                if update_flags {
                    s.set_result_flags(v)
                } else {
                    s
                }
            },
            MicroOp::FetchLow => CpuState { low: self.read(self.pc), ..self }.advance_pc(),
            MicroOp::FetchHigh => CpuState { high: self.read(self.pc), ..self }.advance_pc(),
            MicroOp::FetchHighInPlace => CpuState { high: self.read(self.pc), ..self },
            MicroOp::FetchHighAndJump => {
                let h = self.read(self.pc);
                CpuState { high: h, pc: address_of(self.low, h), ..self }
            },
            MicroOp::StoreZeroPage(r) => self.write(self.low as u16, self.register(r)),
            MicroOp::StoreAbsolute(r) => self.write(self.scratch_address(), self.register(r)),
            MicroOp::LoadZeroPage(r) => {
                let v = self.read(self.low as u16);
                self.set_register(r, v).set_result_flags(v)
            },
            MicroOp::LoadAbsolute(r) => {
                let v = self.read(self.scratch_address());
                self.set_register(r, v).set_result_flags(v)
            },
            MicroOp::PushRegister(r) => self.push(self.register(r)).enqueue(MicroOp::Idle),
            MicroOp::PushStatus => self.push(self.flags.byte_spec()).enqueue(MicroOp::Idle),
            MicroOp::PullRegister(r) => {
                let v = self.pulled();
                self.after_pull().set_register(r, v).set_result_flags(v).enqueue(
                    MicroOp::Idle,
                ).enqueue(MicroOp::Idle)
            },
            MicroOp::PullStatus => {
                let v = self.pulled();
                CpuState { flags: Flags::from_byte_spec(v), ..self.after_pull() }.enqueue(
                    MicroOp::Idle,
                ).enqueue(MicroOp::Idle)
            },
            MicroOp::PushPcHigh => self.push((self.pc / 0x100) as u8),
            MicroOp::PushPcLow => self.push((self.pc % 0x100) as u8),
            MicroOp::JumpToScratch => CpuState { pc: self.scratch_address(), ..self },
            MicroOp::PullLow => CpuState { low: self.pulled(), ..self.after_pull() },
            MicroOp::PullHigh => CpuState { high: self.pulled(), ..self.after_pull() },
            MicroOp::ReturnToScratch => CpuState {
                pc: inc16(self.scratch_address()),
                ..self
            },
            MicroOp::Branch(which, when) => {
                if self.flags.get_spec(which) == when {
                    self.take_branch(self.low)
                } else {
                    self
                }
            },
            MicroOp::Unimplemented => CpuState {
                halted: true,
                unimplemented: Some(self.opcode),
                ..self
            },
        }
    }

    /// One clock cycle: run the head of the queue, or fetch and decode an opcode.
    #[verifier::opaque]
    pub open spec fn step(self) -> CpuState {
        if self.queue.len() > 0 {
            CpuState { queue: self.queue.drop_first(), ..self }.apply(self.queue[0])
        } else {
            let op = self.read(self.pc);
            CpuState { opcode: op, queue: decode(op), ..self.advance_pc() }
        }
    }

    /// The state after `n` clock cycles.
    pub open spec fn steps(self, n: nat) -> CpuState
        decreases n,
    {
        if n == 0 {
            self
        } else {
            self.step().steps((n - 1) as nat)
        }
    }
}

} // verus!
