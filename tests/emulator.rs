use nes_cpu::emulator::Emulator;
use nes_cpu::flags::Flags;

/// Builds a cartridge image with `program` placed at `origin` and the reset
/// vector pointing there.
fn image(origin: u16, program: &[u8]) -> [u8; 0x8010] {
    let mut rom_all = [0u8; 0x8010];
    place(&mut rom_all, origin, program);
    place(&mut rom_all, 0xFFFC, &[(origin & 0xFF) as u8, (origin >> 8) as u8]);
    rom_all
}

fn place(rom_all: &mut [u8; 0x8010], address: u16, bytes: &[u8]) {
    let start = address as usize - 0x8000 + 0x10;
    rom_all[start..start + bytes.len()].copy_from_slice(bytes);
}

fn cycles(emu: &mut Emulator, n: usize) {
    for _ in 0..n {
        emu.cpu_cycle();
    }
}

/// Runs whole instructions until the machine halts, with a bound on the cycles.
fn run(emu: &mut Emulator) {
    let mut n = 0;
    while !emu.halted {
        emu.cpu_cycle();
        n += 1;
        assert!(n < 10_000, "machine did not halt");
    }
}

#[test]
fn reset_vector_sets_program_counter() {
    let mut rom_all = [0u8; 0x8010];
    place(&mut rom_all, 0xFFFC, &[0x34, 0x80]);
    let emu = Emulator::new(rom_all);
    assert_eq!(emu.program_counter(), 0x8034);
}

#[test]
fn power_on_state() {
    let emu = Emulator::new(image(0x8000, &[0x02]));
    assert_eq!(emu.a, 0);
    assert_eq!(emu.x, 0);
    assert_eq!(emu.y, 0);
    assert!(!emu.halted);
    assert_eq!(emu.stack_pointer(), 0xFD);
    let f = emu.flags();
    assert!(f.flag_interrupt_disable);
    assert!(!f.flag_carry && !f.flag_zero && !f.flag_decimal && !f.flag_overflow && !f.flag_negative);
    assert!(emu.is_between_instructions());
    assert_eq!(emu.unimplemented_opcode(), None);
}

#[test]
fn header_is_not_mapped() {
    let mut rom_all = image(0x8000, &[0x02]);
    rom_all[0] = 0x4E;
    rom_all[0x10] = 0x77;
    let emu = Emulator::new(rom_all);
    assert_eq!(emu.read(0x8000), 0x77);
}

#[test]
fn ram_mirroring() {
    let mut emu = Emulator::new(image(0x8000, &[0x02]));
    emu.write(0x0003, 7);
    assert_eq!(emu.read(0x0803), 7);
    assert_eq!(emu.read(0x1003), 7);
    assert_eq!(emu.read(0x7803), 7);
    emu.write(0x7FFF, 9);
    assert_eq!(emu.read(0x07FF), 9);
}

#[test]
fn rom_immutability() {
    let mut rom_all = image(0x8000, &[0x02]);
    place(&mut rom_all, 0x9000, &[0x5A]);
    let mut emu = Emulator::new(rom_all);
    emu.write(0x9000, 42);
    assert_eq!(emu.read(0x9000), 0x5A);
}

#[test]
fn lda_immediate_sets_flags() {
    let mut emu = Emulator::new(image(0x8000, &[0xA9, 0x00, 0xA9, 0x80, 0xA9, 0x7F, 0x02]));
    cycles(&mut emu, 2);
    assert_eq!(emu.a, 0);
    assert!(emu.flags().flag_zero);
    assert!(!emu.flags().flag_negative);
    cycles(&mut emu, 2);
    assert_eq!(emu.a, 0x80);
    assert!(!emu.flags().flag_zero);
    assert!(emu.flags().flag_negative);
    cycles(&mut emu, 2);
    assert_eq!(emu.a, 0x7F);
    assert!(!emu.flags().flag_negative);
    assert!(!emu.flags().flag_zero);
}

#[test]
fn lda_absolute_takes_four_cycles() {
    let mut rom_all = image(0x8000, &[0xAD, 0x00, 0x90, 0x02]);
    place(&mut rom_all, 0x9000, &[0x99]);
    let mut emu = Emulator::new(rom_all);
    for _ in 0..3 {
        emu.cpu_cycle();
        assert!(!emu.is_between_instructions());
    }
    emu.cpu_cycle();
    assert!(emu.is_between_instructions());
    assert_eq!(emu.a, 0x99);
    assert!(emu.flags().flag_negative);
    assert_eq!(emu.program_counter(), 0x8003);
}

#[test]
fn lda_immediate_takes_two_cycles() {
    let mut emu = Emulator::new(image(0x8000, &[0xA9, 0x05, 0x02]));
    emu.cpu_cycle();
    assert!(!emu.is_between_instructions());
    emu.cpu_cycle();
    assert!(emu.is_between_instructions());
    assert_eq!(emu.a, 5);
    assert_eq!(emu.program_counter(), 0x8002);
}

#[test]
fn jsr_rts_round_trip() {
    let mut rom_all = image(0x8000, &[0x20, 0x00, 0x90, 0x02]);
    place(&mut rom_all, 0x9000, &[0x60]);
    let mut emu = Emulator::new(rom_all);
    cycles(&mut emu, 6);
    assert!(emu.is_between_instructions());
    assert_eq!(emu.program_counter(), 0x9000);
    assert_eq!(emu.stack_pointer(), 0xFB);
    assert_eq!(emu.read(0x01FD), 0x80);
    assert_eq!(emu.read(0x01FC), 0x02);
    cycles(&mut emu, 6);
    assert!(emu.is_between_instructions());
    assert_eq!(emu.program_counter(), 0x8003);
    assert_eq!(emu.stack_pointer(), 0xFD);
}

#[test]
fn beq_backward_branch() {
    // LDA #0 sets zero; BEQ with offset -2 branches back onto itself.
    let mut emu = Emulator::new(image(0x8000, &[0xA9, 0x00, 0xF0, 0xFE]));
    cycles(&mut emu, 2);
    assert!(emu.flags().flag_zero);
    cycles(&mut emu, 3);
    assert_eq!(emu.program_counter(), 0x8002);
    assert!(!emu.is_between_instructions());
    emu.cpu_cycle();
    assert!(emu.is_between_instructions());
}

#[test]
fn beq_forward_branch() {
    let mut emu = Emulator::new(image(0x8000, &[0xA9, 0x00, 0xF0, 0x02]));
    cycles(&mut emu, 2);
    cycles(&mut emu, 3);
    assert_eq!(emu.program_counter(), 0x8006);
    assert!(emu.is_between_instructions());
}

#[test]
fn bne_not_taken() {
    let mut emu = Emulator::new(image(0x8000, &[0xA9, 0x00, 0xD0, 0x10]));
    cycles(&mut emu, 5);
    assert_eq!(emu.program_counter(), 0x8004);
    assert!(emu.is_between_instructions());
}

#[test]
fn unknown_opcode_halts() {
    let mut emu = Emulator::new(image(0x8000, &[0xA2, 0x11, 0xFF]));
    cycles(&mut emu, 3);
    let (a, x, y, sp, pc, flags) =
        (emu.a, emu.x, emu.y, emu.stack_pointer(), emu.program_counter(), emu.flags());
    assert!(!emu.halted);
    emu.cpu_cycle();
    assert!(emu.halted);
    assert_eq!(emu.unimplemented_opcode(), Some(0xFF));
    assert_eq!((emu.a, emu.x, emu.y), (a, x, y));
    assert_eq!(emu.stack_pointer(), sp);
    assert_eq!(emu.program_counter(), pc);
    assert_eq!(emu.flags(), flags);
}

#[test]
fn hlt_halts() {
    let mut emu = Emulator::new(image(0x8000, &[0x02]));
    cycles(&mut emu, 2);
    assert!(emu.halted);
    assert_eq!(emu.unimplemented_opcode(), None);
}

#[test]
fn pha_pla_round_trip() {
    // LDA #$42; PHA; LDA #$00; PLA
    let mut emu = Emulator::new(image(0x8000, &[0xA9, 0x42, 0x48, 0xA9, 0x00, 0x68, 0x02]));
    cycles(&mut emu, 2);
    cycles(&mut emu, 3);
    assert_eq!(emu.stack_pointer(), 0xFC);
    assert_eq!(emu.read(0x01FD), 0x42);
    cycles(&mut emu, 2);
    assert_eq!(emu.a, 0);
    cycles(&mut emu, 3);
    assert!(!emu.is_between_instructions());
    emu.cpu_cycle();
    assert!(emu.is_between_instructions());
    assert_eq!(emu.a, 0x42);
    assert_eq!(emu.stack_pointer(), 0xFD);
}

#[test]
fn php_plp_round_trip() {
    // SEC; SED; PHP; CLC; CLD; PLP
    let mut emu = Emulator::new(image(0x8000, &[0x38, 0xF8, 0x08, 0x18, 0xD8, 0x28, 0x02]));
    cycles(&mut emu, 4);
    cycles(&mut emu, 3);
    assert_eq!(emu.read(0x01FD), 0b0011_1101);
    cycles(&mut emu, 4);
    assert!(!emu.flags().flag_carry);
    cycles(&mut emu, 4);
    let f = emu.flags();
    assert!(f.flag_carry && f.flag_decimal && f.flag_interrupt_disable);
    assert!(!f.flag_zero && !f.flag_overflow && !f.flag_negative);
    assert_eq!(emu.stack_pointer(), 0xFD);
}

#[test]
fn plp_then_clv_clears_overflow() {
    // LDA #$FF; PHA; PLP; CLV
    let mut emu = Emulator::new(image(0x8000, &[0xA9, 0xFF, 0x48, 0x28, 0xB8, 0x02]));
    cycles(&mut emu, 2 + 3 + 4);
    assert!(emu.flags().flag_overflow);
    assert!(emu.flags().flag_carry);
    cycles(&mut emu, 2);
    assert!(!emu.flags().flag_overflow);
}

#[test]
fn stores_and_zero_page_load() {
    // LDA #$12; STA $10; LDX #$34; STX $0200; LDY #$56; STY $11; LDA #0; LDA $10; HLT
    let program = [
        0xA9, 0x12, 0x85, 0x10, 0xA2, 0x34, 0x8E, 0x00, 0x02, 0xA0, 0x56, 0x84, 0x11, 0xA9, 0x00,
        0xA5, 0x10, 0x02,
    ];
    let mut emu = Emulator::new(image(0x8000, &program));
    run(&mut emu);
    assert_eq!(emu.read(0x0010), 0x12);
    assert_eq!(emu.read(0x0200), 0x34);
    assert_eq!(emu.read(0x0011), 0x56);
    assert_eq!(emu.a, 0x12);
    assert!(!emu.flags().flag_zero);
}

#[test]
fn store_absolute_and_sta_timing() {
    // LDA #$AB; STA $0550; STY $0551
    let mut emu = Emulator::new(image(0x8000, &[0xA9, 0xAB, 0x8D, 0x50, 0x05, 0x8C, 0x51, 0x05, 0x02]));
    cycles(&mut emu, 2);
    cycles(&mut emu, 3);
    assert_eq!(emu.read(0x0550), 0);
    emu.cpu_cycle();
    assert_eq!(emu.read(0x0550), 0xAB);
    run(&mut emu);
    assert_eq!(emu.read(0x0551), 0);
}

#[test]
fn ldx_ldy_immediate_leave_flags() {
    let mut emu = Emulator::new(image(0x8000, &[0xA2, 0x00, 0xA0, 0x80, 0x02]));
    run(&mut emu);
    assert_eq!(emu.x, 0);
    assert_eq!(emu.y, 0x80);
    assert!(!emu.flags().flag_zero);
    assert!(!emu.flags().flag_negative);
}

#[test]
fn increments_and_decrements_wrap() {
    // DEX from 0 gives 0xFF, negative; INX back gives 0, zero.
    let mut emu = Emulator::new(image(0x8000, &[0xCA, 0xE8, 0x88, 0x02]));
    cycles(&mut emu, 2);
    assert_eq!(emu.x, 0xFF);
    assert!(emu.flags().flag_negative);
    cycles(&mut emu, 2);
    assert_eq!(emu.x, 0);
    assert!(emu.flags().flag_zero);
    cycles(&mut emu, 2);
    assert_eq!(emu.y, 0xFF);
    assert!(emu.flags().flag_negative);
    assert!(!emu.flags().flag_zero);
}

#[test]
fn transfers() {
    // LDA #$80; TAX; TAY; LDA #0; TXA; TSX; TXS
    let mut emu = Emulator::new(image(0x8000, &[0xA9, 0x80, 0xAA, 0xA8, 0xA9, 0x00, 0x8A, 0xBA, 0x9A, 0x02]));
    cycles(&mut emu, 2 + 2 + 2);
    assert_eq!((emu.x, emu.y), (0x80, 0x80));
    cycles(&mut emu, 2 + 2);
    assert_eq!(emu.a, 0x80);
    assert!(emu.flags().flag_negative);
    cycles(&mut emu, 2);
    assert_eq!(emu.x, 0xFD);
    // TXS copies X into the stack pointer without touching the flags.
    cycles(&mut emu, 2);
    assert_eq!(emu.stack_pointer(), 0xFD);
    assert!(emu.flags().flag_negative);
    let mut emu = Emulator::new(image(0x8000, &[0xA0, 0x07, 0x98, 0x02]));
    run(&mut emu);
    assert_eq!(emu.a, 7);
}

#[test]
fn flag_instructions() {
    // SEC CLC SEI CLI SED CLD NOP
    let mut emu = Emulator::new(image(0x8000, &[0x38, 0x18, 0x78, 0x58, 0xF8, 0xD8, 0xEA, 0x02]));
    cycles(&mut emu, 2);
    assert!(emu.flags().flag_carry);
    cycles(&mut emu, 2);
    assert!(!emu.flags().flag_carry);
    cycles(&mut emu, 2);
    assert!(emu.flags().flag_interrupt_disable);
    cycles(&mut emu, 2);
    assert!(!emu.flags().flag_interrupt_disable);
    cycles(&mut emu, 2);
    assert!(emu.flags().flag_decimal);
    cycles(&mut emu, 2);
    assert!(!emu.flags().flag_decimal);
    cycles(&mut emu, 2);
    assert_eq!(emu.program_counter(), 0x8007);
}

#[test]
fn jmp_absolute_takes_three_cycles() {
    let mut rom_all = image(0x8000, &[0x4C, 0x34, 0x92]);
    place(&mut rom_all, 0x9234, &[0x02]);
    let mut emu = Emulator::new(rom_all);
    cycles(&mut emu, 3);
    assert!(emu.is_between_instructions());
    assert_eq!(emu.program_counter(), 0x9234);
    run(&mut emu);
    assert!(emu.halted);
}

#[test]
fn countdown_loop_with_branches() {
    // LDX #3; loop: DEX; BNE loop; STX $00; HLT
    let mut emu = Emulator::new(image(0x8000, &[0xA2, 0x03, 0xCA, 0xD0, 0xFD, 0x86, 0x00, 0x02]));
    emu.write(0x0000, 0x55);
    run(&mut emu);
    assert_eq!(emu.x, 0);
    assert_eq!(emu.read(0x0000), 0);
}

#[test]
fn status_byte_encoding() {
    let f = Flags::from_byte(0b1100_0011);
    assert!(f.flag_carry && f.flag_zero && f.flag_overflow && f.flag_negative);
    assert!(!f.flag_interrupt_disable && !f.flag_decimal);
    assert_eq!(f.to_byte(), 0b1111_0011);
    assert_eq!(Flags::power_on().to_byte(), 0x34);
    assert_eq!(Flags::from_byte(0x00).to_byte(), 0x30);
}
