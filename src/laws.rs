use vstd::prelude::*;

use crate::model::{address_of, dec8, inc16, inc8, signed_offset, wrap16, CpuState, ROM_SIZE};
use crate::flags::StatusFlag;
use crate::ops::{decode, is_implemented, MicroOp, Register};

verus! {

/// A ROM whose reset vector holds `0x34, 0x80` starts execution at `0x8034`.
pub proof fn lemma_reset_vector(rom: Seq<u8>)
    requires
        rom.len() == ROM_SIZE,
        rom[0x7FFC] == 0x34,
        rom[0x7FFD] == 0x80,
    ensures
        CpuState::reset(rom).pc == 0x8034,
{
}

/// RAM is mirrored every `0x800` bytes below `0x8000`: a write at one mirror is
/// read back at every other.
pub proof fn lemma_ram_mirroring(s: CpuState, a: u16, k: nat, value: u8)
    requires
        s.wf(),
        a + 0x800 * k < 0x8000,
    ensures
        s.write(a, value).read((a + 0x800 * k) as u16) == value,
        s.write((a + 0x800 * k) as u16, value).read(a) == value,
{
    assert((a + 0x800 * k) % 0x800 == a % 0x800) by (nonlinear_arith)
        requires
            a >= 0,
            k >= 0,
    ;
}

/// A write into the ROM range changes nothing, so reading it back gives the ROM byte.
pub proof fn lemma_rom_immutable(s: CpuState, a: u16, value: u8)
    requires
        s.wf(),
        a >= 0x8000,
    ensures
        s.write(a, value) == s,
        s.write(a, value).read(a) == s.read(a),
{
}

/// An opcode with no table entry halts the machine on the cycle after its fetch,
/// records the opcode, and leaves every register and flag as it was.
pub proof fn lemma_unknown_opcode_halts(s: CpuState)
    requires
        s.wf(),
        s.queue.len() == 0,
        !is_implemented(s.read(s.pc)),
    ensures
        s.step().queue == seq![MicroOp::Unimplemented],
        s.steps(2).halted,
        s.steps(2).unimplemented == Some(s.read(s.pc)),
        s.steps(2).pc == s.step().pc,
        s.steps(2).a == s.a,
        s.steps(2).x == s.x,
        s.steps(2).y == s.y,
        s.steps(2).sp == s.sp,
        s.steps(2).flags == s.flags,
        s.steps(2).ram == s.ram,
{
    lemma_step_fetch(s);
    let s1 = s.step();
    lemma_step_run(s1);
    lemma_steps_succ(s, 0);
    lemma_steps_succ(s, 1);
}

/// Once the machine has halted it stays halted, whatever cycle follows.
pub proof fn lemma_halted_is_permanent(s: CpuState)
    requires
        s.halted,
    ensures
        s.step().halted,
{
    reveal(CpuState::step);
}

/// The byte `0xFF` has no entry in the opcode table.
pub proof fn lemma_0xff_unimplemented()
    ensures
        !is_implemented(0xFF),
{
}

/// An immediate load into the accumulator takes the operand byte and sets zero
/// and negative from it; it takes two cycles.
pub proof fn lemma_load_immediate(s: CpuState)
    requires
        s.wf(),
        s.queue.len() == 0,
        s.read(s.pc) == 0xA9,
        s.pc < 0xFFFF,
    ensures
        s.steps(1).queue.len() > 0,
        s.steps(2).queue.len() == 0,
        s.steps(2).a == s.read((s.pc + 1) as u16),
        s.steps(2).flags.flag_zero == (s.read((s.pc + 1) as u16) == 0),
        s.steps(2).flags.flag_negative == (s.read((s.pc + 1) as u16) >= 0x80),
{
    lemma_step_fetch(s);
    let s1 = s.step();
    lemma_step_run(s1);
    assert(s1.queue.drop_first() =~= Seq::<MicroOp>::empty());
    lemma_steps_succ(s, 0);
    lemma_steps_succ(s, 1);
}

/// An absolute load takes four cycles: the machine is mid-instruction after one,
/// two and three cycles, and ready to fetch the next opcode after four.
#[verifier::spinoff_prover]
#[verifier::rlimit(40)]
pub proof fn lemma_load_absolute_cycles(s: CpuState)
    requires
        s.wf(),
        s.queue.len() == 0,
        s.read(s.pc) == 0xAD,
    ensures
        s.steps(1).queue.len() > 0,
        s.steps(2).queue.len() > 0,
        s.steps(3).queue.len() > 0,
        s.steps(4).queue.len() == 0,
{
    let s1 = s.step();
    assert(s1.queue == seq![
        MicroOp::FetchLow,
        MicroOp::FetchHigh,
        MicroOp::LoadAbsolute(Register::A),
    ]) by {
        lemma_step_fetch(s);
    }
    let s2 = s1.step();
    assert(s2.queue == seq![MicroOp::FetchHigh, MicroOp::LoadAbsolute(Register::A)]) by {
        lemma_step_run(s1);
        assert(s1.queue.drop_first() =~= seq![
            MicroOp::FetchHigh,
            MicroOp::LoadAbsolute(Register::A),
        ]);
    }
    let s3 = s2.step();
    assert(s3.queue == seq![MicroOp::LoadAbsolute(Register::A)]) by {
        lemma_step_run(s2);
        assert(s2.queue.drop_first() =~= seq![MicroOp::LoadAbsolute(Register::A)]);
    }
    let s4 = s3.step();
    assert(s4.queue.len() == 0) by {
        lemma_step_run(s3);
        assert(s3.queue.drop_first() =~= Seq::<MicroOp>::empty());
    }
    lemma_steps_succ(s, 0);
    lemma_steps_succ(s, 1);
    lemma_steps_succ(s, 2);
    lemma_steps_succ(s, 3);
}

/// Between instructions, a cycle fetches the opcode at the program counter and
/// schedules its micro-operations.
pub proof fn lemma_step_fetch(s: CpuState)
    requires
        s.queue.len() == 0,
    ensures
        s.step() == (CpuState {
            opcode: s.read(s.pc),
            queue: decode(s.read(s.pc)),
            pc: inc16(s.pc),
            ..s
        }),
{
    reveal(CpuState::step);
}

/// Within an instruction, a cycle runs the first scheduled micro-operation.
pub proof fn lemma_step_run(s: CpuState)
    requires
        s.queue.len() > 0,
    ensures
        s.step() == (CpuState { queue: s.queue.drop_first(), ..s }).apply(s.queue[0]),
{
    reveal(CpuState::step);
}

/// Taking `n + 1` cycles is taking `n` cycles and then one more.
pub proof fn lemma_steps_succ(s: CpuState, n: nat)
    ensures
        s.steps(n + 1) == s.steps(n).step(),
    decreases n,
{
    reveal_with_fuel(CpuState::steps, 2);
    if n > 0 {
        lemma_steps_succ(s.step(), (n - 1) as nat);
    }
}

/// `PHA` followed by `PLA` leaves the accumulator and the stack pointer as they
/// were, and takes seven cycles.
#[verifier::spinoff_prover]
#[verifier::rlimit(40)]
pub proof fn lemma_stack_round_trip(s: CpuState)
    requires
        s.wf(),
        s.queue.len() == 0,
        0x8000 <= s.pc < 0xFFFE,
        s.read(s.pc) == 0x48,
        s.read((s.pc + 1) as u16) == 0x68,
    ensures
        s.steps(7).a == s.a,
        s.steps(7).sp == s.sp,
        s.steps(7).pc == s.pc + 2,
        s.steps(7).queue.len() == 0,
{
    let slot = (0x100 + s.sp) as u16;
    let s1 = s.step();
    assert(s1.queue == seq![MicroOp::PushRegister(Register::A)] && s1.pc == s.pc + 1 && s1.a
        == s.a && s1.sp == s.sp && s1.rom == s.rom && s1.wf()) by {
        lemma_step_fetch(s);
    }
    let s2 = s1.step();
    assert(s2.queue == seq![MicroOp::Idle] && s2.pc == s.pc + 1 && s2.a == s.a && s2.sp == (if s.sp
        == 0 { 0xFF } else { s.sp - 1 }) && s2.rom == s.rom && s2.wf() && s2.read(slot) == s.a) by {
        lemma_step_run(s1);
        assert(s1.queue.drop_first() =~= Seq::<MicroOp>::empty());
    }
    let s3 = s2.step();
    assert(s3.queue.len() == 0 && s3.pc == s2.pc && s3.ram == s2.ram && s3.rom == s2.rom && s3.sp
        == s2.sp && s3.a == s2.a && s3.wf()) by {
        lemma_step_run(s2);
        assert(s2.queue.drop_first() =~= Seq::<MicroOp>::empty());
    }
    let s4 = s3.step();
    assert(s4.queue == seq![MicroOp::PullRegister(Register::A)] && s4.pc == s.pc + 2 && s4.sp
        == s2.sp && s4.ram == s2.ram && s4.rom == s.rom && s4.wf()) by {
        lemma_step_fetch(s3);
        assert(s3.read(s3.pc) == 0x68);
    }
    let s5 = s4.step();
    assert(s5.a == s.a && s5.sp == s.sp && s5.pc == s.pc + 2 && s5.queue == seq![
        MicroOp::Idle,
        MicroOp::Idle,
    ]) by {
        lemma_step_run(s4);
        assert(s4.queue.drop_first() =~= Seq::<MicroOp>::empty());
        assert(s4.pulled() == s.a);
    }
    let s6 = s5.step();
    assert(s6.a == s.a && s6.sp == s.sp && s6.pc == s.pc + 2 && s6.queue == seq![MicroOp::Idle])
        by {
        lemma_step_run(s5);
        assert(s5.queue.drop_first() =~= seq![MicroOp::Idle]);
    }
    let s7 = s6.step();
    assert(s7.a == s.a && s7.sp == s.sp && s7.pc == s.pc + 2 && s7.queue.len() == 0) by {
        lemma_step_run(s6);
    }
    lemma_steps_succ(s, 0);
    lemma_steps_succ(s, 1);
    lemma_steps_succ(s, 2);
    lemma_steps_succ(s, 3);
    lemma_steps_succ(s, 4);
    lemma_steps_succ(s, 5);
    lemma_steps_succ(s, 6);
}

/// The first two cycles of `BEQ`: the opcode and its offset byte are fetched.
proof fn lemma_branch_fetch(s: CpuState) -> (s2: CpuState)
    requires
        s.wf(),
        s.queue.len() == 0,
        s.pc < 0xFFFE,
        s.read(s.pc) == 0xF0,
    ensures
        s2 == s.step().step(),
        s2.wf(),
        s2.queue == seq![MicroOp::Branch(StatusFlag::Zero, true)],
        s2.pc == s.pc + 2,
        s2.low == s.read((s.pc + 1) as u16),
        s2.flags == s.flags,
{
    let s1 = s.step();
    assert(s1.queue == seq![MicroOp::FetchLow, MicroOp::Branch(StatusFlag::Zero, true)] && s1.pc
        == s.pc + 1 && s1.flags == s.flags && s1.ram == s.ram && s1.rom == s.rom) by {
        lemma_step_fetch(s);
    }
    let s2 = s1.step();
    assert(s2.queue == seq![MicroOp::Branch(StatusFlag::Zero, true)] && s2.pc == s.pc + 2 && s2.low
        == s.read((s.pc + 1) as u16) && s2.flags == s.flags && s2.wf()) by {
        lemma_step_run(s1);
        assert(s1.queue.drop_first() =~= seq![MicroOp::Branch(StatusFlag::Zero, true)]);
    }
    s2
}

/// A taken branch adds its offset, read as two's complement, to the address
/// after the operand; a backward branch takes one cycle more than a forward one.
#[verifier::spinoff_prover]
#[verifier::rlimit(40)]
pub proof fn lemma_branch_taken(s: CpuState)
    requires
        s.wf(),
        s.queue.len() == 0,
        s.pc < 0xFFFE,
        s.read(s.pc) == 0xF0,
        s.flags.flag_zero,
    ensures
        s.steps(3).pc == wrap16(s.pc + 2 + signed_offset(s.read((s.pc + 1) as u16))),
        s.read((s.pc + 1) as u16) <= 127 ==> s.steps(3).queue.len() == 0,
        s.read((s.pc + 1) as u16) > 127 ==> s.steps(3).queue.len() > 0 && s.steps(4).queue.len()
            == 0 && s.steps(4).pc == s.steps(3).pc,
{
    let offset = s.read((s.pc + 1) as u16);
    let s2 = lemma_branch_fetch(s);
    let s3 = s2.step();
    assert(s3.pc == wrap16(s.pc + 2 + signed_offset(offset)) && s3.queue == (if offset > 127 {
        seq![MicroOp::Idle]
    } else {
        Seq::empty()
    })) by {
        lemma_step_run(s2);
        assert(s2.queue.drop_first() =~= Seq::<MicroOp>::empty());
    }
    if offset > 127 {
        let s4 = s3.step();
        assert(s4.pc == s3.pc && s4.queue.len() == 0) by {
            lemma_step_run(s3);
        }
    }
    lemma_steps_succ(s, 0);
    lemma_steps_succ(s, 1);
    lemma_steps_succ(s, 2);
    lemma_steps_succ(s, 3);
}

/// A branch whose condition fails leaves the program counter after the operand
/// and takes three cycles.
pub proof fn lemma_branch_not_taken(s: CpuState)
    requires
        s.wf(),
        s.queue.len() == 0,
        s.pc < 0xFFFE,
        s.read(s.pc) == 0xF0,
        !s.flags.flag_zero,
    ensures
        s.steps(3).pc == s.pc + 2,
        s.steps(3).queue.len() == 0,
{
    let s2 = lemma_branch_fetch(s);
    let s3 = s2.step();
    assert(s3.pc == s.pc + 2 && s3.queue.len() == 0) by {
        lemma_step_run(s2);
        assert(s2.queue.drop_first() =~= Seq::<MicroOp>::empty());
    }
    lemma_steps_succ(s, 0);
    lemma_steps_succ(s, 1);
    lemma_steps_succ(s, 2);
}

/// The six cycles of `JSR`: the target is fetched, the address of the operand's
/// last byte is pushed high byte first, and execution moves to the target.
#[verifier::spinoff_prover]
#[verifier::rlimit(40)]
proof fn lemma_jsr(s: CpuState) -> (s6: CpuState)
    requires
        s.wf(),
        s.queue.len() == 0,
        0x8000 <= s.pc <= 0xFFFC,
        s.read(s.pc) == 0x20,
    ensures
        s6 == s.step().step().step().step().step().step(),
        s6.wf(),
        s6.queue.len() == 0,
        s6.rom == s.rom,
        s6.pc == address_of(s.read((s.pc + 1) as u16), s.read((s.pc + 2) as u16)),
        s6.sp == dec8(dec8(s.sp)),
        s6.read((0x100 + s.sp) as u16) == ((s.pc + 2) / 0x100) as u8,
        s6.read((0x100 + dec8(s.sp)) as u16) == ((s.pc + 2) % 0x100) as u8,
{
    let ret = (s.pc + 2) as u16;
    let s1 = s.step();
    assert(s1.queue.len() == 5 && s1.queue[0] == MicroOp::FetchLow && s1.queue[1]
        == MicroOp::FetchHighInPlace && s1.queue[2] == MicroOp::PushPcHigh && s1.queue[3]
        == MicroOp::PushPcLow && s1.queue[4] == MicroOp::JumpToScratch && s1.pc == s.pc + 1
        && s1.sp == s.sp && s1.ram == s.ram && s1.rom == s.rom) by {
        lemma_step_fetch(s);
    }
    let s2 = s1.step();
    assert(s2.queue.len() == 4 && s2.queue[0] == MicroOp::FetchHighInPlace && s2.queue[1]
        == MicroOp::PushPcHigh && s2.queue[2] == MicroOp::PushPcLow && s2.queue[3]
        == MicroOp::JumpToScratch && s2.pc == ret && s2.low == s.read((s.pc + 1) as u16) && s2.sp
        == s.sp && s2.ram == s.ram && s2.rom == s.rom) by {
        lemma_step_run(s1);
    }
    let s3 = s2.step();
    assert(s3.queue.len() == 3 && s3.queue[0] == MicroOp::PushPcHigh && s3.queue[1]
        == MicroOp::PushPcLow && s3.queue[2] == MicroOp::JumpToScratch && s3.pc == ret && s3.low
        == s2.low && s3.high == s.read((s.pc + 2) as u16) && s3.sp == s.sp && s3.ram == s.ram
        && s3.rom == s.rom) by {
        lemma_step_run(s2);
    }
    let s4 = s3.step();
    assert(s4.queue.len() == 2 && s4.queue[0] == MicroOp::PushPcLow && s4.queue[1]
        == MicroOp::JumpToScratch && s4.pc == ret && s4.low == s3.low && s4.high == s3.high && s4.sp
        == dec8(s.sp) && s4.rom == s.rom && s4.ram == s.ram.update(
        (0x100 + s.sp) % 0x800,
        (ret / 0x100) as u8,
    )) by {
        lemma_step_run(s3);
    }
    let s5 = s4.step();
    assert(s5.queue.len() == 1 && s5.queue[0] == MicroOp::JumpToScratch && s5.low == s3.low
        && s5.high == s3.high && s5.sp == dec8(dec8(s.sp)) && s5.rom == s.rom && s5.ram
        == s4.ram.update((0x100 + dec8(s.sp)) % 0x800, (ret % 0x100) as u8)) by {
        lemma_step_run(s4);
    }
    let s6 = s5.step();
    assert(s6.queue.len() == 0 && s6.pc == address_of(s3.low, s3.high) && s6.sp == s5.sp && s6.ram
        == s5.ram && s6.rom == s.rom) by {
        lemma_step_run(s5);
    }
    s6
}

/// The six cycles of `RTS`: two internal cycles, then the return address is
/// pulled low byte first and execution resumes after it.
#[verifier::spinoff_prover]
#[verifier::rlimit(40)]
proof fn lemma_rts(s: CpuState) -> (s6: CpuState)
    requires
        s.wf(),
        s.queue.len() == 0,
        s.read(s.pc) == 0x60,
    ensures
        s6 == s.step().step().step().step().step().step(),
        s6.queue.len() == 0,
        s6.sp == inc8(inc8(s.sp)),
        s6.pc == inc16(
            address_of(
                s.read((0x100 + inc8(s.sp)) as u16),
                s.read((0x100 + inc8(inc8(s.sp))) as u16),
            ),
        ),
{
    let s1 = s.step();
    assert(s1.queue.len() == 5 && s1.queue[0] == MicroOp::Idle && s1.queue[1] == MicroOp::Idle
        && s1.queue[2] == MicroOp::PullLow && s1.queue[3] == MicroOp::PullHigh && s1.queue[4]
        == MicroOp::ReturnToScratch && s1.sp == s.sp && s1.ram == s.ram && s1.rom == s.rom) by {
        lemma_step_fetch(s);
    }
    let s2 = s1.step();
    assert(s2.queue.len() == 4 && s2.queue[0] == MicroOp::Idle && s2.queue[1] == MicroOp::PullLow
        && s2.queue[2] == MicroOp::PullHigh && s2.queue[3] == MicroOp::ReturnToScratch && s2.sp
        == s.sp && s2.ram == s.ram && s2.rom == s.rom) by {
        lemma_step_run(s1);
    }
    let s3 = s2.step();
    assert(s3.queue.len() == 3 && s3.queue[0] == MicroOp::PullLow && s3.queue[1] == MicroOp::PullHigh
        && s3.queue[2] == MicroOp::ReturnToScratch && s3.sp == s.sp && s3.ram == s.ram && s3.rom
        == s.rom) by {
        lemma_step_run(s2);
    }
    let s4 = s3.step();
    assert(s4.queue.len() == 2 && s4.queue[0] == MicroOp::PullHigh && s4.queue[1]
        == MicroOp::ReturnToScratch && s4.sp == inc8(s.sp) && s4.low == s.read(
        (0x100 + inc8(s.sp)) as u16,
    ) && s4.ram == s.ram && s4.rom == s.rom) by {
        lemma_step_run(s3);
    }
    let s5 = s4.step();
    assert(s5.queue.len() == 1 && s5.queue[0] == MicroOp::ReturnToScratch && s5.sp == inc8(s4.sp)
        && s5.low == s4.low && s5.high == s.read((0x100 + inc8(s4.sp)) as u16)) by {
        lemma_step_run(s4);
    }
    let s6 = s5.step();
    assert(s6.queue.len() == 0 && s6.sp == s5.sp && s6.pc == inc16(s5.scratch_address())) by {
        lemma_step_run(s5);
    }
    s6
}

/// `JSR` to a subroutine that is a lone `RTS` returns, after six cycles each, to
/// the instruction right after the `JSR` operand, with the stack pointer restored.
#[verifier::spinoff_prover]
#[verifier::rlimit(40)]
pub proof fn lemma_subroutine_round_trip(s: CpuState)
    requires
        s.wf(),
        s.queue.len() == 0,
        0x8000 <= s.pc <= 0xFFFC,
        s.read(s.pc) == 0x20,
        s.read((s.pc + 2) as u16) >= 0x80,
        s.read(address_of(s.read((s.pc + 1) as u16), s.read((s.pc + 2) as u16))) == 0x60,
    ensures
        s.steps(6).pc == address_of(s.read((s.pc + 1) as u16), s.read((s.pc + 2) as u16)),
        s.steps(6).queue.len() == 0,
        s.steps(12).pc == s.pc + 3,
        s.steps(12).sp == s.sp,
        s.steps(12).queue.len() == 0,
{
    let s6 = lemma_jsr(s);
    assert(s6.pc >= 0x8000);
    assert(s6.read(s6.pc) == 0x60);
    let s12 = lemma_rts(s6);
    assert(inc8(dec8(s.sp)) == s.sp);
    assert(inc8(dec8(dec8(s.sp))) == dec8(s.sp));
    let ret = (s.pc + 2) as u16;
    assert(address_of((ret % 0x100) as u8, (ret / 0x100) as u8) == ret);
    lemma_steps_succ(s, 0);
    lemma_steps_succ(s, 1);
    lemma_steps_succ(s, 2);
    lemma_steps_succ(s, 3);
    lemma_steps_succ(s, 4);
    lemma_steps_succ(s, 5);
    lemma_steps_succ(s, 6);
    lemma_steps_succ(s, 7);
    lemma_steps_succ(s, 8);
    lemma_steps_succ(s, 9);
    lemma_steps_succ(s, 10);
    lemma_steps_succ(s, 11);
}

} // verus!
