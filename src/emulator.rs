use vstd::prelude::*;

use std::collections::VecDeque;

use crate::flags::{Flags, StatusFlag};
use crate::model::{address_of, CpuState, RAM_SIZE, RESET_VECTOR};
use crate::ops::{decode, MicroOp, Register};

verus! {

/// The size of a cartridge image: a 16-byte header followed by the ROM bank.
pub const IMAGE_SIZE: usize = 0x8010;

/// The size of the cartridge header that precedes the ROM bank.
pub const HEADER_SIZE: usize = 0x10;

/// The stack pointer at power-on.
pub const INITIAL_STACK_POINTER: u8 = 0xFD;

/// Micro-operations that touch only registers and flags.
pub open spec fn is_register_op(op: MicroOp) -> bool {
    match op {
        MicroOp::Halt
        | MicroOp::Idle
        | MicroOp::SetFlag(..)
        | MicroOp::Transfer { .. }
        | MicroOp::Increment(..)
        | MicroOp::Decrement(..)
        | MicroOp::LoadImmediate { .. }
        | MicroOp::Unimplemented => true,
        _ => false,
    }
}

/// Micro-operations that fetch an operand or access memory through one.
pub open spec fn is_memory_op(op: MicroOp) -> bool {
    match op {
        MicroOp::FetchLow
        | MicroOp::FetchHigh
        | MicroOp::FetchHighInPlace
        | MicroOp::FetchHighAndJump
        | MicroOp::StoreZeroPage(..)
        | MicroOp::StoreAbsolute(..)
        | MicroOp::LoadZeroPage(..)
        | MicroOp::LoadAbsolute(..) => true,
        _ => false,
    }
}

impl CpuState {
    /// The machine right after power-on with the given ROM bank: RAM cleared,
    /// registers zero, and the program counter taken from the reset vector.
    pub open spec fn reset(rom: Seq<u8>) -> CpuState {
        let s = CpuState {
            ram: Seq::new(RAM_SIZE as nat, |i: int| 0u8),
            rom: rom,
            queue: Seq::empty(),
            pc: 0,
            sp: INITIAL_STACK_POINTER,
            a: 0,
            x: 0,
            y: 0,
            halted: false,
            opcode: 0,
            low: 0,
            high: 0,
            flags: Flags::power_on_spec(),
            unimplemented: None,
        };
        CpuState {
            pc: address_of(s.read(RESET_VECTOR), s.read((RESET_VECTOR + 1) as u16)),
            ..s
        }
    }
}

/// The processor and its memory map, stepped one clock cycle at a time.
pub struct Emulator {
    queue: VecDeque<MicroOp>,
    ram: Vec<u8>,
    rom: Vec<u8>,
    program_counter: u16,
    stack_pointer: u8,
    pub a: u8,
    pub x: u8,
    pub y: u8,
    pub halted: bool,
    opcode: u8,
    low: u8,
    high: u8,
    flags: Flags,
    unimplemented: Option<u8>,
}

impl View for Emulator {
    type V = CpuState;

    closed spec fn view(&self) -> CpuState {
        CpuState {
            ram: self.ram@,
            rom: self.rom@,
            queue: self.queue@,
            pc: self.program_counter,
            sp: self.stack_pointer,
            a: self.a,
            x: self.x,
            y: self.y,
            halted: self.halted,
            opcode: self.opcode,
            low: self.low,
            high: self.high,
            flags: self.flags,
            unimplemented: self.unimplemented,
        }
    }
}

impl Emulator {
    pub closed spec fn wf(&self) -> bool {
        self@.wf()
    }

    /// Builds the machine from a cartridge image; the bytes after the header
    /// become the ROM bank, and execution starts at the reset vector.
    pub fn new(rom_all: [u8; 0x8010]) -> (r: Self)
        ensures
            r.wf(),
            r@ == CpuState::reset(rom_all@.subrange(HEADER_SIZE as int, IMAGE_SIZE as int)),
    {
        let mut ram: Vec<u8> = Vec::new();
        let mut i: usize = 0;
        while i < RAM_SIZE
            invariant
                i <= RAM_SIZE,
                ram@ == Seq::new(i as nat, |j: int| 0u8),
            decreases RAM_SIZE - i,
        {
            ram.push(0);
            i = i + 1;
            assert(ram@ =~= Seq::new(i as nat, |j: int| 0u8));
        }
        let mut rom: Vec<u8> = Vec::new();
        let mut k: usize = HEADER_SIZE;
        while k < IMAGE_SIZE
            invariant
                HEADER_SIZE <= k <= IMAGE_SIZE,
                rom@ == rom_all@.subrange(HEADER_SIZE as int, k as int),
            decreases IMAGE_SIZE - k,
        {
            rom.push(rom_all[k]);
            k = k + 1;
            assert(rom@ =~= rom_all@.subrange(HEADER_SIZE as int, k as int));
        }
        let mut ret = Emulator {
            queue: VecDeque::new(),
            ram,
            rom,
            program_counter: 0,
            stack_pointer: INITIAL_STACK_POINTER,
            a: 0,
            x: 0,
            y: 0,
            halted: false,
            opcode: 0,
            low: 0,
            high: 0,
            flags: Flags::power_on(),
            unimplemented: None,
        };
        let pcl = ret.read(RESET_VECTOR);
        let pch = ret.read(RESET_VECTOR + 1);
        ret.program_counter = pch as u16 * 0x100 + pcl as u16;
        assert(ret@ == CpuState::reset(rom_all@.subrange(HEADER_SIZE as int, IMAGE_SIZE as int)));
        ret
    }

    /// Reads a byte through the memory map.
    pub fn read(&self, address: u16) -> (r: u8)
        requires
            self.wf(),
        ensures
            r == self@.read(address),
    {
        if address < 0x8000 {
            self.ram[(address % 0x800) as usize]
        } else {
            self.rom[(address - 0x8000) as usize]
        }
    }

    /// Writes a byte through the memory map; writes to ROM are ignored.
    pub fn write(&mut self, address: u16, value: u8)
        requires
            old(self).wf(),
        ensures
            final(self).wf(),
            final(self)@ == old(self)@.write(address, value),
    {
        if address < 0x8000 {
            self.ram.set((address % 0x800) as usize, value);
        }
    }

    fn register(&self, r: Register) -> (v: u8)
        ensures
            v == self@.register(r),
    {
        match r {
            Register::A => self.a,
            Register::X => self.x,
            Register::Y => self.y,
            Register::StackPointer => self.stack_pointer,
        }
    }

    fn set_register(&mut self, r: Register, value: u8)
        requires
            old(self).wf(),
        ensures
            final(self).wf(),
            final(self)@ == old(self)@.set_register(r, value),
    {
        match r {
            Register::A => self.a = value,
            Register::X => self.x = value,
            Register::Y => self.y = value,
            Register::StackPointer => self.stack_pointer = value,
        }
    }

    /// Sets zero and negative from a result byte.
    fn set_flags(&mut self, value: u8)
        requires
            old(self).wf(),
        ensures
            final(self).wf(),
            final(self)@ == old(self)@.set_result_flags(value),
    {
        self.flags.set_result(value);
    }

    fn increment_pc(&mut self)
        requires
            old(self).wf(),
        ensures
            final(self).wf(),
            final(self)@ == old(self)@.advance_pc(),
    {
        self.program_counter = if self.program_counter == 0xFFFF {
            0
        } else {
            self.program_counter + 1
        };
    }

    fn add_task(&mut self, op: MicroOp)
        requires
            old(self).wf(),
        ensures
            final(self).wf(),
            final(self)@ == old(self)@.enqueue(op),
    {
        self.queue.push_back(op);
    }

    /// Pads the current instruction by one cycle.
    fn add_nop(&mut self)
        requires
            old(self).wf(),
        ensures
            final(self).wf(),
            final(self)@ == old(self)@.enqueue(MicroOp::Idle),
    {
        self.add_task(MicroOp::Idle);
    }

    /// The little-endian address held in the scratch bytes.
    fn temp_bytes_to_little_endian(&self) -> (r: u16)
        ensures
            r == self@.scratch_address(),
    {
        self.high as u16 * 0x100 + self.low as u16
    }

    fn push(&mut self, value: u8)
        requires
            old(self).wf(),
        ensures
            final(self).wf(),
            final(self)@ == old(self)@.push(value),
    {
        self.write(0x100 + self.stack_pointer as u16, value);
        self.stack_pointer = if self.stack_pointer == 0 {
            0xFF
        } else {
            self.stack_pointer - 1
        };
    }

    fn pull(&mut self) -> (r: u8)
        requires
            old(self).wf(),
        ensures
            final(self).wf(),
            r == old(self)@.pulled(),
            final(self)@ == old(self)@.after_pull(),
    {
        self.stack_pointer = if self.stack_pointer == 0xFF {
            0
        } else {
            self.stack_pointer + 1
        };
        self.read(0x100 + self.stack_pointer as u16)
    }

    fn push_flags(&mut self)
        requires
            old(self).wf(),
        ensures
            final(self).wf(),
            final(self)@ == old(self)@.apply(MicroOp::PushStatus),
    {
        let b = self.flags.to_byte();
        self.push(b);
        self.add_nop();
    }

    fn pull_flags(&mut self)
        requires
            old(self).wf(),
        ensures
            final(self).wf(),
            final(self)@ == old(self)@.apply(MicroOp::PullStatus),
    {
        let b = self.pull();
        self.flags = Flags::from_byte(b);
        self.add_nop();
        self.add_nop();
    }

    fn take_branch(&mut self, offset: u8)
        requires
            old(self).wf(),
        ensures
            final(self).wf(),
            final(self)@ == old(self)@.take_branch(offset),
    {
        let sum: u32 = self.program_counter as u32 + offset as u32;
        if offset > 127 {
            self.program_counter = ((sum + 0xFF00) % 0x10000) as u16;
            self.add_nop();
        } else {
            self.program_counter = (sum % 0x10000) as u16;
        }
    }

    /// Performs one micro-operation that has already left the queue.
    fn run_op(&mut self, op: MicroOp)
        requires
            old(self).wf(),
        ensures
            final(self).wf(),
            final(self)@ == old(self)@.apply(op),
    {
        match op {
            MicroOp::Halt
            | MicroOp::Idle
            | MicroOp::SetFlag(..)
            | MicroOp::Transfer { .. }
            | MicroOp::Increment(..)
            | MicroOp::Decrement(..)
            | MicroOp::LoadImmediate { .. }
            | MicroOp::Unimplemented => self.run_register_op(op),
            MicroOp::FetchLow
            | MicroOp::FetchHigh
            | MicroOp::FetchHighInPlace
            | MicroOp::FetchHighAndJump
            | MicroOp::StoreZeroPage(..)
            | MicroOp::StoreAbsolute(..)
            | MicroOp::LoadZeroPage(..)
            | MicroOp::LoadAbsolute(..) => self.run_memory_op(op),
            _ => self.run_control_op(op),
        }
    }

    /// Copies one register into another.
    fn transfer(&mut self, from: Register, to: Register)
        requires
            old(self).wf(),
        ensures
            final(self).wf(),
            final(self)@ == old(self)@.apply(MicroOp::Transfer { from, to }),
    {
        let v = self.register(from);
        self.set_register(to, v);
        if to != Register::StackPointer {
            self.set_flags(v);
        }
    }

    /// Adds one to a register, wrapping.
    fn increment(&mut self, r: Register)
        requires
            old(self).wf(),
        ensures
            final(self).wf(),
            final(self)@ == old(self)@.apply(MicroOp::Increment(r)),
    {
        let old_v = self.register(r);
        let v: u8 = if old_v == 0xFF {
            0
        } else {
            old_v + 1
        };
        self.set_register(r, v);
        self.set_flags(v);
    }

    /// Subtracts one from a register, wrapping.
    fn decrement(&mut self, r: Register)
        requires
            old(self).wf(),
        ensures
            final(self).wf(),
            final(self)@ == old(self)@.apply(MicroOp::Decrement(r)),
    {
        let old_v = self.register(r);
        let v: u8 = if old_v == 0 {
            0xFF
        } else {
            old_v - 1
        };
        self.set_register(r, v);
        self.set_flags(v);
    }

    /// Loads the operand byte that follows the opcode.
    fn load_immediate(&mut self, to: Register, update_flags: bool)
        requires
            old(self).wf(),
        ensures
            final(self).wf(),
            final(self)@ == old(self)@.apply(MicroOp::LoadImmediate { to, update_flags }),
    {
        let v = self.read(self.program_counter);
        self.set_register(to, v);
        self.increment_pc();
        if update_flags {
            self.set_flags(v);
        }
    }

    /// Performs a micro-operation that touches only registers and flags.
    fn run_register_op(&mut self, op: MicroOp)
        requires
            old(self).wf(),
            is_register_op(op),
        ensures
            final(self).wf(),
            final(self)@ == old(self)@.apply(op),
    {
        match op {
            MicroOp::Halt => self.halted = true,
            MicroOp::Idle => {},
            MicroOp::SetFlag(which, value) => self.flags.set(which, value),
            MicroOp::Transfer { from, to } => self.transfer(from, to),
            MicroOp::Increment(r) => self.increment(r),
            MicroOp::Decrement(r) => self.decrement(r),
            MicroOp::LoadImmediate { to, update_flags } => self.load_immediate(to, update_flags),
            MicroOp::Unimplemented => self.missing_opcode(),
            _ => {},
        }
    }

    /// Performs a micro-operation that fetches an operand or accesses memory through it.
    fn run_memory_op(&mut self, op: MicroOp)
        requires
            old(self).wf(),
            is_memory_op(op),
        ensures
            final(self).wf(),
            final(self)@ == old(self)@.apply(op),
    {
        match op {
            MicroOp::FetchLow => {
                self.low = self.read(self.program_counter);
                self.increment_pc();
            },
            MicroOp::FetchHigh => {
                self.high = self.read(self.program_counter);
                self.increment_pc();
            },
            MicroOp::FetchHighInPlace => {
                self.high = self.read(self.program_counter);
            },
            MicroOp::FetchHighAndJump => {
                self.high = self.read(self.program_counter);
                self.program_counter = self.temp_bytes_to_little_endian();
            },
            MicroOp::StoreZeroPage(r) => {
                let v = self.register(r);
                self.write(self.low as u16, v);
            },
            MicroOp::StoreAbsolute(r) => {
                let v = self.register(r);
                let address = self.temp_bytes_to_little_endian();
                self.write(address, v);
            },
            MicroOp::LoadZeroPage(r) => {
                let v = self.read(self.low as u16);
                self.set_register(r, v);
                self.set_flags(v);
            },
            MicroOp::LoadAbsolute(r) => {
                let v = self.read(self.temp_bytes_to_little_endian());
                self.set_register(r, v);
                self.set_flags(v);
            },
            _ => {},
        }
    }

    /// Performs a stack, jump or branch micro-operation.
    fn run_control_op(&mut self, op: MicroOp)
        requires
            old(self).wf(),
            !is_register_op(op),
            !is_memory_op(op),
        ensures
            final(self).wf(),
            final(self)@ == old(self)@.apply(op),
    {
        match op {
            MicroOp::PushRegister(r) => {
                let v = self.register(r);
                self.push(v);
                self.add_nop();
            },
            MicroOp::PushStatus => self.push_flags(),
            MicroOp::PullRegister(r) => {
                let v = self.pull();
                self.set_register(r, v);
                self.set_flags(v);
                self.add_nop();
                self.add_nop();
            },
            MicroOp::PullStatus => self.pull_flags(),
            MicroOp::PushPcHigh => {
                let v = (self.program_counter / 0x100) as u8;
                self.push(v);
            },
            MicroOp::PushPcLow => {
                let v = (self.program_counter % 0x100) as u8;
                self.push(v);
            },
            MicroOp::JumpToScratch => {
                self.program_counter = self.temp_bytes_to_little_endian();
            },
            MicroOp::PullLow => {
                self.low = self.pull();
            },
            MicroOp::PullHigh => {
                self.high = self.pull();
            },
            MicroOp::ReturnToScratch => {
                self.program_counter = self.temp_bytes_to_little_endian();
                self.increment_pc();
            },
            MicroOp::Branch(which, when) => {
                if self.flags.get(which) == when {
                    self.take_branch(self.low);
                }
            },
            _ => {},
        }
    }

    /// Halts on an opcode without a table entry and records which one it was.
    fn missing_opcode(&mut self)
        requires
            old(self).wf(),
        ensures
            final(self).wf(),
            final(self)@ == old(self)@.apply(MicroOp::Unimplemented),
    {
        self.halted = true;
        self.unimplemented = Some(self.opcode);
    }

    /// Schedules the micro-operations of the opcode just fetched.
    fn queue_opcode(&mut self)
        requires
            old(self).wf(),
            old(self)@.queue.len() == 0,
        ensures
            final(self).wf(),
            final(self)@ == (CpuState { queue: decode(old(self)@.opcode), ..old(self)@ }),
    {
        assert(self@.queue =~= Seq::empty());
        match self.opcode {
            0x02 => self.add_task(MicroOp::Halt),
            0x08 => self.add_task(MicroOp::PushStatus),
            0x28 => self.add_task(MicroOp::PullStatus),
            0x20 => {
                self.add_task(MicroOp::FetchLow);
                self.add_task(MicroOp::FetchHighInPlace);
                self.add_task(MicroOp::PushPcHigh);
                self.add_task(MicroOp::PushPcLow);
                self.add_task(MicroOp::JumpToScratch);
            },
            0x60 => {
                self.add_nop();
                self.add_nop();
                self.add_task(MicroOp::PullLow);
                self.add_task(MicroOp::PullHigh);
                self.add_task(MicroOp::ReturnToScratch);
            },
            0x4C => {
                self.add_task(MicroOp::FetchLow);
                self.add_task(MicroOp::FetchHighAndJump);
            },
            0x10 => {
                self.add_task(MicroOp::FetchLow);
                self.add_task(MicroOp::Branch(StatusFlag::Negative, false));
            },
            0x30 => {
                self.add_task(MicroOp::FetchLow);
                self.add_task(MicroOp::Branch(StatusFlag::Negative, true));
            },
            0x50 => {
                self.add_task(MicroOp::FetchLow);
                self.add_task(MicroOp::Branch(StatusFlag::Overflow, false));
            },
            0x70 => {
                self.add_task(MicroOp::FetchLow);
                self.add_task(MicroOp::Branch(StatusFlag::Overflow, true));
            },
            0x90 => {
                self.add_task(MicroOp::FetchLow);
                self.add_task(MicroOp::Branch(StatusFlag::Carry, false));
            },
            0xB0 => {
                self.add_task(MicroOp::FetchLow);
                self.add_task(MicroOp::Branch(StatusFlag::Carry, true));
            },
            0xD0 => {
                self.add_task(MicroOp::FetchLow);
                self.add_task(MicroOp::Branch(StatusFlag::Zero, false));
            },
            0xF0 => {
                self.add_task(MicroOp::FetchLow);
                self.add_task(MicroOp::Branch(StatusFlag::Zero, true));
            },
            0x84 => {
                self.add_task(MicroOp::FetchLow);
                self.add_task(MicroOp::StoreZeroPage(Register::Y));
            },
            0x85 => {
                self.add_task(MicroOp::FetchLow);
                self.add_task(MicroOp::StoreZeroPage(Register::A));
            },
            0x86 => {
                self.add_task(MicroOp::FetchLow);
                self.add_task(MicroOp::StoreZeroPage(Register::X));
            },
            0x8C => {
                self.read_little_endian_to_temp_bytes();
                self.add_task(MicroOp::StoreAbsolute(Register::Y));
            },
            0x8D => {
                self.read_little_endian_to_temp_bytes();
                self.add_task(MicroOp::StoreAbsolute(Register::A));
            },
            0x8E => {
                self.read_little_endian_to_temp_bytes();
                self.add_task(MicroOp::StoreAbsolute(Register::X));
            },
            0xA5 => {
                self.add_task(MicroOp::FetchLow);
                self.add_task(MicroOp::LoadZeroPage(Register::A));
            },
            0xAD => {
                self.read_little_endian_to_temp_bytes();
                self.add_task(MicroOp::LoadAbsolute(Register::A));
            },
            0x18 => self.add_task(MicroOp::SetFlag(StatusFlag::Carry, false)),
            0x38 => self.add_task(MicroOp::SetFlag(StatusFlag::Carry, true)),
            0x58 => self.add_task(MicroOp::SetFlag(StatusFlag::InterruptDisable, false)),
            0x78 => self.add_task(MicroOp::SetFlag(StatusFlag::InterruptDisable, true)),
            0xB8 => self.add_task(MicroOp::SetFlag(StatusFlag::Overflow, false)),
            0xD8 => self.add_task(MicroOp::SetFlag(StatusFlag::Decimal, false)),
            0xF8 => self.add_task(MicroOp::SetFlag(StatusFlag::Decimal, true)),
            0xEA => self.add_task(MicroOp::Idle),
            0x48 => self.add_task(MicroOp::PushRegister(Register::A)),
            0x68 => self.add_task(MicroOp::PullRegister(Register::A)),
            0x9A => self.add_task(MicroOp::Transfer { from: Register::X, to: Register::StackPointer }),
            0x8A => self.add_task(MicroOp::Transfer { from: Register::X, to: Register::A }),
            0x98 => self.add_task(MicroOp::Transfer { from: Register::Y, to: Register::A }),
            0xA8 => self.add_task(MicroOp::Transfer { from: Register::A, to: Register::Y }),
            0xAA => self.add_task(MicroOp::Transfer { from: Register::A, to: Register::X }),
            0xBA => self.add_task(MicroOp::Transfer { from: Register::StackPointer, to: Register::X }),
            0xA9 => self.add_task(MicroOp::LoadImmediate { to: Register::A, update_flags: true }),
            0xA0 => self.add_task(MicroOp::LoadImmediate { to: Register::Y, update_flags: false }),
            0xA2 => self.add_task(MicroOp::LoadImmediate { to: Register::X, update_flags: false }),
            0x88 => self.add_task(MicroOp::Decrement(Register::Y)),
            0xC8 => self.add_task(MicroOp::Increment(Register::Y)),
            0xCA => self.add_task(MicroOp::Decrement(Register::X)),
            0xE8 => self.add_task(MicroOp::Increment(Register::X)),
            _ => self.add_task(MicroOp::Unimplemented),
        }
        assert(self@.queue =~= decode(self.opcode));
    }

    /// Schedules the two cycles that fetch an absolute address operand, low byte first.
    fn read_little_endian_to_temp_bytes(&mut self)
        requires
            old(self).wf(),
        ensures
            final(self).wf(),
            final(self)@ == old(self)@.enqueue(MicroOp::FetchLow).enqueue(MicroOp::FetchHigh),
    {
        self.add_task(MicroOp::FetchLow);
        self.add_task(MicroOp::FetchHigh);
    }

    /// Advances the machine by one clock cycle: runs the next scheduled
    /// micro-operation, or, between instructions, fetches and decodes an opcode.
    pub fn cpu_cycle(&mut self)
        requires
            old(self).wf(),
        ensures
            final(self).wf(),
            final(self)@ == old(self)@.step(),
    {
        reveal(CpuState::step);
        match self.queue.pop_front() {
            Some(op) => self.run_op(op),
            None => {
                self.opcode = self.read(self.program_counter);
                self.increment_pc();
                self.queue_opcode();
            },
        }
    }

    pub fn program_counter(&self) -> (r: u16)
        ensures
            r == self@.pc,
    {
        self.program_counter
    }

    pub fn stack_pointer(&self) -> (r: u8)
        ensures
            r == self@.sp,
    {
        self.stack_pointer
    }

    pub fn flags(&self) -> (r: Flags)
        ensures
            r == self@.flags,
    {
        self.flags
    }

    /// The opcode that halted the machine for want of a table entry, if any.
    pub fn unimplemented_opcode(&self) -> (r: Option<u8>)
        ensures
            r == self@.unimplemented,
    {
        self.unimplemented
    }

    /// Whether the current instruction is complete, so that the next cycle fetches an opcode.
    pub fn is_between_instructions(&self) -> (r: bool)
        ensures
            r == (self@.queue.len() == 0),
    {
        self.queue.len() == 0
    }
}

} // verus!
