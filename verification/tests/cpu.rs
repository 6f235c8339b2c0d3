use atari2600::bus::Bus;
use atari2600::cartridge::Cartridge;
use atari2600::cpu::{decode, Cpu6502, Memory, Op};
use atari2600::flags::Flags;

/// A 4 KiB cartridge with `program` at 0xF000, the reset vector pointing
/// there and the BRK vector pointing at 0xF100.
fn rom_with(program: &[u8]) -> Vec<u8> {
    let mut rom = vec![0xea; 4096];
    rom[..program.len()].copy_from_slice(program);
    rom[0xffc] = 0x00;
    rom[0xffd] = 0xf0;
    rom[0xffe] = 0x00;
    rom[0xfff] = 0xf1;
    rom
}

fn machine(program: &[u8]) -> (Cpu6502, Bus) {
    let cart = Cartridge::new(rom_with(program)).unwrap();
    let mut bus = Bus::new(cart);
    let mut cpu = Cpu6502::new();
    cpu.reset(&mut bus);
    (cpu, bus)
}

#[test]
fn power_on_state() {
    let cpu = Cpu6502::new();
    assert_eq!(cpu.sp, 0xfd);
    assert_eq!(cpu.pc, 0);
    assert_eq!(cpu.p.bits(), 0x24);
    assert!(!cpu.stopped);
}

#[test]
fn reset_reads_vector() {
    let (cpu, _) = machine(&[]);
    assert_eq!(cpu.pc, 0xf000);
    assert_eq!(cpu.sp, 0xfd);
}

#[test]
fn reset_vector_zero_falls_back_to_f000() {
    let mut rom = vec![0xea; 4096];
    rom[0xffc] = 0;
    rom[0xffd] = 0;
    let mut bus = Bus::new(Cartridge::new(rom).unwrap());
    let mut cpu = Cpu6502::new();
    cpu.reset(&mut bus);
    assert_eq!(cpu.pc, 0xf000);
    let mut rom = vec![0xff; 4096];
    rom[0] = 0xea;
    let mut bus = Bus::new(Cartridge::new(rom).unwrap());
    cpu.reset(&mut bus);
    assert_eq!(cpu.pc, 0xf000);
}

#[test]
fn reset_vector_elsewhere() {
    let mut rom = vec![0xea; 4096];
    rom[0xffc] = 0x34;
    rom[0xffd] = 0xf2;
    let mut bus = Bus::new(Cartridge::new(rom).unwrap());
    let mut cpu = Cpu6502::new();
    cpu.reset(&mut bus);
    assert_eq!(cpu.pc, 0xf234);
}

#[test]
fn load_store_and_flags() {
    // LDA #$42; STA $80; LDX $80; LDA #$00; LDY #$80
    let (mut cpu, mut bus) = machine(&[0xa9, 0x42, 0x85, 0x80, 0xa6, 0x80, 0xa9, 0x00, 0xa0, 0x80]);
    assert_eq!(cpu.step(&mut bus), 2);
    assert_eq!(cpu.a, 0x42);
    assert!(!cpu.p.z && !cpu.p.n);
    assert_eq!(cpu.step(&mut bus), 3);
    assert_eq!(bus.read(0x80), 0x42);
    assert_eq!(cpu.step(&mut bus), 3);
    assert_eq!(cpu.x, 0x42);
    cpu.step(&mut bus);
    assert!(cpu.p.z);
    cpu.step(&mut bus);
    assert_eq!(cpu.y, 0x80);
    assert!(cpu.p.n && !cpu.p.z);
    assert_eq!(cpu.cycles, 12);
    assert_eq!(cpu.pc, 0xf00a);
}

#[test]
fn adc_carry_and_overflow() {
    // LDA #$7F; ADC #$01 -> 0x80, V set, C clear; ADC #$80 -> 0x00 with carry, V set
    let (mut cpu, mut bus) = machine(&[0xa9, 0x7f, 0x69, 0x01, 0x69, 0x80]);
    cpu.step(&mut bus);
    cpu.step(&mut bus);
    assert_eq!(cpu.a, 0x80);
    assert!(cpu.p.v && !cpu.p.c && cpu.p.n);
    cpu.step(&mut bus);
    assert_eq!(cpu.a, 0x00);
    assert!(cpu.p.c && cpu.p.v && cpu.p.z);
}

#[test]
fn sbc_borrow() {
    // SEC; LDA #$05; SBC #$07 -> 0xFE, carry clear (borrow); SBC #$01 with borrow -> 0xFC
    let (mut cpu, mut bus) = machine(&[0x38, 0xa9, 0x05, 0xe9, 0x07, 0xe9, 0x01]);
    cpu.step(&mut bus);
    cpu.step(&mut bus);
    cpu.step(&mut bus);
    assert_eq!(cpu.a, 0xfe);
    assert!(!cpu.p.c);
    cpu.step(&mut bus);
    assert_eq!(cpu.a, 0xfc);
    assert!(cpu.p.c);
}

#[test]
fn compare_sets_flags() {
    // LDX #$10; CPX #$10; CPX #$20; CPX #$05
    let (mut cpu, mut bus) = machine(&[0xa2, 0x10, 0xe0, 0x10, 0xe0, 0x20, 0xe0, 0x05]);
    cpu.step(&mut bus);
    cpu.step(&mut bus);
    assert!(cpu.p.z && cpu.p.c);
    cpu.step(&mut bus);
    assert!(!cpu.p.z && !cpu.p.c && cpu.p.n);
    cpu.step(&mut bus);
    assert!(!cpu.p.z && cpu.p.c);
    assert_eq!(cpu.x, 0x10);
}

#[test]
fn jsr_and_rts() {
    // JSR $F010; NOP ... at F010: LDA #$01; RTS
    let mut prog = vec![0xea; 0x20];
    prog[0] = 0x20;
    prog[1] = 0x10;
    prog[2] = 0xf0;
    prog[0x10] = 0xa9;
    prog[0x11] = 0x01;
    prog[0x12] = 0x60;
    let (mut cpu, mut bus) = machine(&prog);
    assert_eq!(cpu.step(&mut bus), 6);
    assert_eq!(cpu.pc, 0xf010);
    assert_eq!(cpu.sp, 0xfb);
    // the return address pushed is the last byte of the JSR
    assert_eq!(bus.read(0x1fd), 0xf0);
    assert_eq!(bus.read(0x1fc), 0x02);
    cpu.step(&mut bus);
    assert_eq!(cpu.step(&mut bus), 6);
    assert_eq!(cpu.pc, 0xf003);
    assert_eq!(cpu.sp, 0xfd);
    assert_eq!(cpu.a, 1);
}

#[test]
fn branches_take_two_or_three_cycles() {
    // LDA #$00; BEQ +2; NOP; NOP; BNE -4 (not taken)
    let (mut cpu, mut bus) = machine(&[0xa9, 0x00, 0xf0, 0x02, 0xea, 0xea, 0xd0, 0xfc]);
    cpu.step(&mut bus);
    assert_eq!(cpu.step(&mut bus), 3);
    assert_eq!(cpu.pc, 0xf006);
    assert_eq!(cpu.step(&mut bus), 2);
    assert_eq!(cpu.pc, 0xf008);
}

#[test]
fn backward_branch() {
    // LDX #$02; DEX; BNE -3
    let (mut cpu, mut bus) = machine(&[0xa2, 0x02, 0xca, 0xd0, 0xfd]);
    cpu.step(&mut bus);
    cpu.step(&mut bus);
    assert_eq!(cpu.step(&mut bus), 3);
    assert_eq!(cpu.pc, 0xf002);
    cpu.step(&mut bus);
    assert_eq!(cpu.x, 0);
    assert_eq!(cpu.step(&mut bus), 2);
    assert_eq!(cpu.pc, 0xf005);
}

#[test]
fn stack_push_pull() {
    // LDA #$5A; PHA; LDA #$00; PLA; PHP; PLP
    let (mut cpu, mut bus) = machine(&[0xa9, 0x5a, 0x48, 0xa9, 0x00, 0x68, 0x08, 0x28]);
    cpu.step(&mut bus);
    cpu.step(&mut bus);
    assert_eq!(cpu.sp, 0xfc);
    assert_eq!(bus.read(0x1fd), 0x5a);
    cpu.step(&mut bus);
    assert_eq!(cpu.step(&mut bus), 4);
    assert_eq!(cpu.a, 0x5a);
    assert_eq!(cpu.sp, 0xfd);
    cpu.step(&mut bus);
    // PHP pushes P with B and U set
    assert_eq!(bus.read(0x1fd), cpu.p.bits() | 0x30);
    cpu.step(&mut bus);
    assert!(cpu.p.u && cpu.p.b);
}

#[test]
fn shifts_and_rotates() {
    // LDA #$81; ASL A -> 0x02, C=1; ROL A -> 0x05, C=0; LSR A -> 0x02, C=1; ROR A -> 0x81, C=0
    let (mut cpu, mut bus) = machine(&[0xa9, 0x81, 0x0a, 0x2a, 0x4a, 0x6a]);
    cpu.step(&mut bus);
    cpu.step(&mut bus);
    assert_eq!(cpu.a, 0x02);
    assert!(cpu.p.c);
    cpu.step(&mut bus);
    assert_eq!(cpu.a, 0x05);
    assert!(!cpu.p.c);
    cpu.step(&mut bus);
    assert_eq!(cpu.a, 0x02);
    assert!(cpu.p.c);
    cpu.step(&mut bus);
    assert_eq!(cpu.a, 0x81);
    assert!(!cpu.p.c && cpu.p.n);
}

#[test]
fn memory_increment_and_indirect() {
    // LDA #$FF; STA $81; INC $81 -> 0 (Z); LDA #$00; STA $82; LDA #$F0; STA $83; LDY #$01; LDA ($82),Y
    let (mut cpu, mut bus) = machine(&[
        0xa9, 0xff, 0x85, 0x81, 0xe6, 0x81, 0xa9, 0x00, 0x85, 0x82, 0xa9, 0xf0, 0x85, 0x83, 0xa0, 0x01,
        0xb1, 0x82,
    ]);
    cpu.step(&mut bus);
    cpu.step(&mut bus);
    assert_eq!(cpu.step(&mut bus), 5);
    assert_eq!(bus.read(0x81), 0);
    assert!(cpu.p.z);
    for _ in 0..5 {
        cpu.step(&mut bus);
    }
    assert_eq!(cpu.step(&mut bus), 5);
    // ($82) = $F000, + Y = $F001: the operand byte 0xFF of the first instruction
    assert_eq!(cpu.a, 0xff);
}

#[test]
fn jmp_indirect_wraps_in_page() {
    // JMP ($F0FF): low byte from $F0FF, high byte from $F000 (not $F100)
    let mut prog = vec![0xea; 0x200];
    prog[0] = 0x6c;
    prog[1] = 0xff;
    prog[2] = 0xf0;
    prog[0xff] = 0x34;
    prog[0x100] = 0x99;
    let (mut cpu, mut bus) = machine(&prog);
    assert_eq!(cpu.step(&mut bus), 5);
    assert_eq!(cpu.pc, 0x6c34);
}

#[test]
fn brk_pushes_and_vectors() {
    let (mut cpu, mut bus) = machine(&[0x00]);
    assert_eq!(cpu.step(&mut bus), 7);
    assert_eq!(cpu.pc, 0xf100);
    assert!(cpu.p.i);
    assert_eq!(cpu.sp, 0xfa);
    assert_eq!(bus.read(0x1fd), 0xf0);
    assert_eq!(bus.read(0x1fc), 0x02);
    assert_eq!(bus.read(0x1fb), 0x34);
}

#[test]
fn rti_restores_status_and_pc() {
    // BRK to $F100; at $F100: RTI
    let mut prog = vec![0xea; 0x200];
    prog[0] = 0x00;
    prog[0x100] = 0x40;
    let (mut cpu, mut bus) = machine(&prog);
    cpu.step(&mut bus);
    assert_eq!(cpu.step(&mut bus), 6);
    assert_eq!(cpu.pc, 0xf002);
    assert_eq!(cpu.sp, 0xfd);
    assert!(cpu.p.b && cpu.p.u);
}

#[test]
fn illegal_opcode_stops() {
    let (mut cpu, mut bus) = machine(&[0x02, 0xea]);
    assert_eq!(cpu.step(&mut bus), 1);
    assert!(cpu.stopped);
    assert_eq!(cpu.pc, 0xf001);
    assert_eq!(cpu.step(&mut bus), 1);
    assert_eq!(cpu.pc, 0xf001);
    assert_eq!(cpu.cycles, 1);
}

#[test]
fn undocumented_nops_skip_operands() {
    // $04 (2 cycles, 1 byte), $14 (4 cycles, 1 byte), $0C (4 cycles, 2 bytes), $1A
    let (mut cpu, mut bus) = machine(&[0x04, 0x00, 0x14, 0x00, 0x0c, 0x00, 0x00, 0x1a]);
    assert_eq!(cpu.step(&mut bus), 2);
    assert_eq!(cpu.pc, 0xf002);
    assert_eq!(cpu.step(&mut bus), 4);
    assert_eq!(cpu.pc, 0xf004);
    assert_eq!(cpu.step(&mut bus), 4);
    assert_eq!(cpu.pc, 0xf007);
    assert_eq!(cpu.step(&mut bus), 2);
    assert_eq!(cpu.pc, 0xf008);
}

#[test]
fn bit_test() {
    // LDA #$01; STA $80... use immediate store: LDA #$C0; STA $80; LDA #$01; BIT $80
    let (mut cpu, mut bus) = machine(&[0xa9, 0xc0, 0x85, 0x80, 0xa9, 0x01, 0x24, 0x80]);
    for _ in 0..3 {
        cpu.step(&mut bus);
    }
    assert_eq!(cpu.step(&mut bus), 3);
    assert!(cpu.p.z && cpu.p.n && cpu.p.v);
    assert_eq!(cpu.a, 1);
}

#[test]
fn decode_table() {
    assert!(matches!(decode(0xa9).op, Op::Load(..)));
    assert_eq!(decode(0xa9).cycles, 2);
    assert_eq!(decode(0xfe).cycles, 7);
    assert!(matches!(decode(0xeb).op, Op::Sbc(..)));
    assert!(matches!(decode(0x02).op, Op::Illegal));
    assert!(matches!(decode(0x4c).op, Op::Jmp));
}

#[test]
fn flags_byte_roundtrip() {
    for v in 0..=255u8 {
        assert_eq!(Flags::from_bits_truncate(v).bits(), v);
    }
    let f = Flags::reset_value();
    assert_eq!(f.bits(), 0x24);
}

#[test]
fn trace_line_text() {
    let (mut cpu, mut bus) = machine(&[0xa9, 0x42]);
    cpu.step(&mut bus);
    assert_eq!(cpu.trace_line(), "PC=F000 OP=A9 A=42 X=00 Y=00 SP=FD P=24 CYC=2");
}

#[test]
fn every_opcode_takes_one_to_seven_cycles() {
    for op in 0..=255u8 {
        let (mut cpu, mut bus) = machine(&[op, 0x00, 0x00]);
        cpu.sp = 0xfd;
        let c = cpu.step(&mut bus);
        assert!((1..=7).contains(&c), "opcode {:02X} took {}", op, c);
    }
}

#[test]
fn rts_on_a_pushed_stack_byte() {
    // JMP $F05E; at F05E: JSR $01FC. The low byte of the return address
    // (0x60, an RTS) lands at 0x1FC, so the subroutine returns at once.
    let mut prog = vec![0xea; 0x80];
    prog[0] = 0x4c;
    prog[1] = 0x5e;
    prog[2] = 0xf0;
    prog[0x5e] = 0x20;
    prog[0x5f] = 0xfc;
    prog[0x60] = 0x01;
    let (mut cpu, mut bus) = machine(&prog);
    let (a, x, y, p) = (cpu.a, cpu.x, cpu.y, cpu.p.bits());
    assert_eq!(cpu.step(&mut bus), 3);
    assert_eq!(cpu.step(&mut bus), 6);
    assert_eq!(cpu.pc, 0x01fc);
    assert_eq!(bus.read(0x1fc), 0x60);
    assert_eq!(cpu.step(&mut bus), 6);
    assert_eq!(cpu.pc, 0xf061);
    assert_eq!(cpu.sp, 0xfd);
    assert_eq!((cpu.a, cpu.x, cpu.y, cpu.p.bits()), (a, x, y, p));
}
